//! The node's configuration, with the value each setting takes when the
//! configuration leaves it out.

use std::sync::Arc;
use vstd::prelude::*;

verus! {

broadcast use vstd::string::to_string_from_display_ensures_for_str;

/// The whole configuration of a node.
#[derive(Clone, Debug)]
pub struct Configuration {
    pub quic: NetworkConfiguration,
    pub proxy: NetworkConfiguration,
    pub main_config: MainConfiguration,
    pub secret_config: SecretFileConfiguration,
}

/// Where the encrypted secrets live and how they are unlocked.
#[derive(Clone, Debug)]
pub struct SecretFileConfiguration {
    /// The directory of the encrypted secrets file and its nonce.
    pub location: String,
    /// The password of the secrets file; when absent it is asked for.
    pub password: Option<String>,
    /// Draw a new private key on every start instead of keeping one.
    pub restart_key: bool,
}

/// The secrets that the vault holds encrypted.
#[derive(Clone, Debug)]
pub struct SecretConfiguration {
    pub private_key: Option<[u8; 32]>,
    /// The password that unlocks the certificate.
    pub cert_password: Option<String>,
    /// The digest of the administrators' password; when absent no client
    /// can administrate the node.
    pub admin_pass: Option<[u8; 32]>,
}

/// An address and port to listen on.
#[derive(Clone, Debug)]
pub struct NetworkConfiguration {
    pub address: String,
    pub port: u16,
}

/// The services of the node and its certificate.
#[derive(Clone, Debug)]
pub struct MainConfiguration {
    /// The services the node provides, each named once.
    pub features: Vec<String>,
    /// The protocol version, such as 0.1.0.
    pub version: String,
    /// File of the PEM certificate.
    pub cert_path: String,
    /// File of the PEM private key of the certificate.
    pub private_key_path: String,
    /// The names a generated certificate is issued for; when absent they
    /// are discovered.
    pub domains: Option<Vec<String>>,
}

impl MainConfiguration {
    /// Each service is named once.
    pub open spec fn wf(&self) -> bool {
        self.features.deep_view().no_duplicates()
    }
}

/// The services enabled when the configuration names none.
pub open spec fn default_feature_names() -> Seq<Seq<char>> {
    seq!["base"@, "proxy"@, "proxy/json5"@, "proxy/json"@, "storage"@]
}

pub fn default_addr() -> (r: String)
    ensures
        r@ == "::/0"@,
{
    "::/0".to_string()
}

pub fn default_port() -> (r: u16)
    ensures
        r == 56665,
{
    56665
}

pub fn default_features() -> (r: Vec<String>)
    ensures
        r.deep_view() == default_feature_names(),
        r.deep_view().no_duplicates(),
{
    let mut v: Vec<String> = Vec::new();
    v.push("base".to_string());
    v.push("proxy".to_string());
    v.push("proxy/json5".to_string());
    v.push("proxy/json".to_string());
    v.push("storage".to_string());
    assert(v.deep_view() =~= default_feature_names());
    proof {
        reveal_strlit("base");
        reveal_strlit("proxy");
        reveal_strlit("proxy/json5");
        reveal_strlit("proxy/json");
        reveal_strlit("storage");
        let n = default_feature_names();
        assert forall|i: int, j: int| 0 <= i < n.len() && 0 <= j < n.len() && i != j implies n[i] != n[j] by {
            assert(n[i].len() != n[j].len() || n[i][0] != n[j][0] || n[i][5] != n[j][5]);
        }
    }
    v
}

pub fn default_version() -> (r: String)
    ensures
        r@ == "0.1.0"@,
{
    "0.1.0".to_string()
}

pub fn default_secret_location() -> (r: String)
    ensures
        r@ == "./secrets/secret"@,
{
    "./secrets/secret".to_string()
}

pub fn default_restart_key() -> (r: bool)
    ensures
        r,
{
    true
}

pub fn default_pubkey() -> (r: String)
    ensures
        r@ == "./cert.pem"@,
{
    "./cert.pem".to_string()
}

pub fn default_privkey() -> (r: String)
    ensures
        r@ == "./key.pem"@,
{
    "./key.pem".to_string()
}

impl Default for SecretFileConfiguration {
    fn default() -> (r: Self)
        ensures
            r.location@ == "./secrets/secret"@,
            r.password is None,
            r.restart_key,
    {
        SecretFileConfiguration {
            location: default_secret_location(),
            password: None,
            restart_key: default_restart_key(),
        }
    }
}

impl Default for SecretConfiguration {
    fn default() -> (r: Self)
        ensures
            r.private_key is None,
            r.cert_password is None,
            r.admin_pass is None,
    {
        SecretConfiguration { private_key: None, cert_password: None, admin_pass: None }
    }
}

impl Default for NetworkConfiguration {
    fn default() -> (r: Self)
        ensures
            r.address@ == "::/0"@,
            r.port == 56665,
    {
        NetworkConfiguration { address: default_addr(), port: default_port() }
    }
}

impl Default for MainConfiguration {
    fn default() -> (r: Self)
        ensures
            r.features.deep_view() == default_feature_names(),
            r.wf(),
            r.version@ == "0.1.0"@,
            r.cert_path@ == "./cert.pem"@,
            r.private_key_path@ == "./key.pem"@,
            r.domains is None,
    {
        MainConfiguration {
            features: default_features(),
            version: default_version(),
            cert_path: default_pubkey(),
            private_key_path: default_privkey(),
            domains: None,
        }
    }
}

impl Default for Configuration {
    fn default() -> (r: Self)
        ensures
            r.quic.address@ == "::/0"@,
            r.quic.port == 56665,
            r.proxy.address@ == "::/0"@,
            r.proxy.port == 56665,
            r.main_config.features.deep_view() == default_feature_names(),
            r.main_config.wf(),
            r.main_config.version@ == "0.1.0"@,
            r.main_config.cert_path@ == "./cert.pem"@,
            r.main_config.private_key_path@ == "./key.pem"@,
            r.main_config.domains is None,
            r.secret_config.location@ == "./secrets/secret"@,
            r.secret_config.password is None,
            r.secret_config.restart_key,
    {
        Configuration {
            quic: NetworkConfiguration::default(),
            proxy: NetworkConfiguration::default(),
            main_config: MainConfiguration::default(),
            secret_config: SecretFileConfiguration::default(),
        }
    }
}

/// Holds the configuration that the vault and the certificate files are
/// found by.
pub struct ConfigManager {
    config: Arc<Configuration>,
}

impl ConfigManager {
    pub fn new(config: Arc<Configuration>) -> (r: Self)
        ensures
            r.spec_config() == *config,
    {
        ConfigManager { config }
    }

    pub closed spec fn spec_config(&self) -> Configuration {
        *self.config
    }

    pub fn config(&self) -> (r: &Configuration)
        ensures
            *r == self.spec_config(),
    {
        &self.config
    }
}

} // verus!
