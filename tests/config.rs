use quicnode::config::{ConfigManager, Configuration, MainConfiguration, SecretConfiguration, SecretFileConfiguration};
use quicnode::config::{default_addr, default_features, default_port, default_privkey, default_pubkey, default_restart_key, default_secret_location, default_version};
use quicnode::db::{DbApi, EmptyDb};
use quicnode::crypto::PubKey;
use quicnode::node::{socket_address_text, NodeService};
use std::sync::Arc;

#[test]
fn default_values() {
    assert_eq!(default_addr(), "::/0");
    assert_eq!(default_port(), 56665);
    assert_eq!(default_features(), vec!["base", "proxy", "proxy/json5", "proxy/json", "storage"]);
    assert_eq!(default_version(), "0.1.0");
    assert_eq!(default_secret_location(), "./secrets/secret");
    assert!(default_restart_key());
    assert_eq!(default_pubkey(), "./cert.pem");
    assert_eq!(default_privkey(), "./key.pem");
}

#[test]
fn default_configuration() {
    let c = Configuration::default();
    assert_eq!(c.quic.port, 56665);
    assert_eq!(c.proxy.address, "::/0");
    assert_eq!(c.main_config.cert_path, "./cert.pem");
    assert_eq!(c.main_config.private_key_path, "./key.pem");
    assert_eq!(c.main_config.domains, None);
    assert_eq!(c.secret_config.location, "./secrets/secret");
    assert_eq!(c.secret_config.password, None);
    assert!(c.secret_config.restart_key);
    let s = SecretConfiguration::default();
    assert!(s.private_key.is_none() && s.cert_password.is_none() && s.admin_pass.is_none());
    assert_eq!(MainConfiguration::default().version, "0.1.0");
    assert!(SecretFileConfiguration::default().restart_key);
}

#[test]
fn managers_hold_the_configuration() {
    let mut c = Configuration::default();
    c.quic.port = 1234;
    let arc = Arc::new(c);
    let m = ConfigManager::new(arc.clone());
    assert_eq!(m.config().quic.port, 1234);
    let mut node = NodeService::new(arc, EmptyDb {});
    assert_eq!(node.config().quic.port, 1234);
    assert!(node.db().get_subaccounts(&PubKey::default()).is_err());
}

#[test]
fn socket_address_texts() {
    assert_eq!(socket_address_text("::1", 56665), "[::1]:56665");
    assert_eq!(socket_address_text("::/0", 80), "[::/0]:80");
    assert_eq!(socket_address_text("127.0.0.1", 0), "127.0.0.1:0");
    assert_eq!(socket_address_text("", 443), ":443");
}
