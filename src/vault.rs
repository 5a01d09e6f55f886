//! The vault: the node's secrets encrypted at rest under a key derived from
//! a password, the nonce they are sealed with, the key-rotation policy and
//! the bounded retry of a password at start-up.

use crate::config::SecretConfiguration;
use crate::crypto::{blake3_hash, blake3_of};
use aes_gcm::aead::Aead;
use aes_gcm::KeyInit;
use rand::RngCore;
use vstd::prelude::*;
use vstd::string::StringSliceAdditionalSpecFns;

verus! {

/// Why the secrets could not be had.
#[derive(Clone, Copy, Debug, PartialEq, Eq, Structural)]
pub enum ConfigError {
    /// The decrypted bytes are not secrets.
    DeserializeError,
    /// Authentication failed: a wrong password or altered bytes.
    PasswordError,
    /// A file is missing or unreadable.
    IoError,
}

/// Why encrypted bytes could not be read back.
#[derive(Clone, Copy, Debug, PartialEq, Eq, Structural)]
pub enum ReadEncryptError {
    DeserializeError,
    PasswordError,
}

impl From<ReadEncryptError> for ConfigError {
    fn from(v: ReadEncryptError) -> (r: ConfigError)
        ensures
            r == config_error_of(v),
    {
        match v {
            ReadEncryptError::DeserializeError => ConfigError::DeserializeError,
            ReadEncryptError::PasswordError => ConfigError::PasswordError,
        }
    }
}

pub open spec fn config_error_of(v: ReadEncryptError) -> ConfigError {
    match v {
        ReadEncryptError::DeserializeError => ConfigError::DeserializeError,
        ReadEncryptError::PasswordError => ConfigError::PasswordError,
    }
}

impl vstd::std_specs::convert::FromSpecImpl<ReadEncryptError> for ConfigError {
    open spec fn obeys_from_spec() -> bool {
        true
    }

    open spec fn from_spec(v: ReadEncryptError) -> ConfigError {
        config_error_of(v)
    }
}

/// The longest plaintext AES-GCM seals: 2^36 bytes.
pub open spec fn gcm_plaintext_max() -> nat {
    0x1000000000
}

/// The AES-256-GCM ciphertext, tag appended, of `plaintext` under `key` and
/// `nonce`.
pub uninterp spec fn gcm_seal(key: Seq<u8>, nonce: Seq<u8>, plaintext: Seq<u8>) -> Seq<u8>;

/// The plaintext that AES-256-GCM recovers from `ciphertext` under `key`
/// and `nonce`, or `None` where the tag does not authenticate it.
pub uninterp spec fn gcm_open(key: Seq<u8>, nonce: Seq<u8>, ciphertext: Seq<u8>) -> Option<Seq<u8>>;

/// Relies on aes_gcm's Aes256Gcm with Aead::encrypt, which refuses only a
/// plaintext longer than 2^36 bytes and appends the 16-byte tag to the
/// encrypted bytes, and whose output Aead::decrypt under the same key and
/// nonce turns back into the plaintext.
#[verifier::external_body]
fn aes_seal(key: &[u8; 32], nonce: &[u8; 12], plaintext: &[u8]) -> (r: Option<Vec<u8>>)
    ensures
        r is Some <==> plaintext@.len() <= gcm_plaintext_max(),
        r matches Some(c) ==> c@ == gcm_seal(key@, nonce@, plaintext@),
        r matches Some(c) ==> c@.len() == plaintext@.len() + 16,
        r matches Some(c) ==> gcm_open(key@, nonce@, c@) == Some(plaintext@),
{
    let cipher = aes_gcm::Aes256Gcm::new(generic_array::GenericArray::from_slice(key));
    cipher.encrypt(generic_array::GenericArray::from_slice(nonce), plaintext).ok()
}

/// Relies on aes_gcm's Aes256Gcm with Aead::decrypt, which fails where the
/// tag does not authenticate the ciphertext, and otherwise drops the 16-byte
/// tag.
#[verifier::external_body]
fn aes_open(key: &[u8; 32], nonce: &[u8; 12], ciphertext: &[u8]) -> (r: Option<Vec<u8>>)
    ensures
        r matches Some(p) ==> gcm_open(key@, nonce@, ciphertext@) == Some(p@),
        r matches Some(p) ==> p@.len() + 16 == ciphertext@.len(),
        r is None ==> gcm_open(key@, nonce@, ciphertext@) is None,
{
    let cipher = aes_gcm::Aes256Gcm::new(generic_array::GenericArray::from_slice(key));
    cipher.decrypt(generic_array::GenericArray::from_slice(nonce), ciphertext).ok()
}

/// Relies on rand's OsRng::fill_bytes: twelve bytes from the operating
/// system's generator.
#[verifier::external_body]
fn random_nonce() -> (r: [u8; 12]) {
    let mut n = [0u8; 12];
    rand::rngs::OsRng.fill_bytes(&mut n);
    n
}

/// The key that a password unlocks: the BLAKE3 digest of its UTF-8 bytes.
pub open spec fn password_key(pass: &str) -> Seq<u8> {
    blake3_of(pass.spec_bytes())
}

/// Derives the vault key of a password.
pub fn hash_s(s: &str) -> (r: [u8; 32])
    ensures
        r@ == password_key(s),
{
    blake3_hash(s.as_bytes())
}

/// What reading back `cipher` gives.
pub open spec fn decrypt_outcome(pass: Seq<u8>, nonce: Seq<u8>, cipher: Seq<u8>) -> Result<Seq<u8>, ReadEncryptError> {
    match gcm_open(pass, nonce, cipher) {
        Some(p) => Ok(p),
        None => Err(ReadEncryptError::PasswordError),
    }
}

/// Seals `data` under the key `pass` and `nonce`. Reading the result back
/// with the same key and nonce gives `data` again.
pub fn encrypt(pass: &[u8; 32], nonce: &[u8; 12], data: &[u8]) -> (r: Vec<u8>)
    requires
        data@.len() <= gcm_plaintext_max(),
    ensures
        r@ == gcm_seal(pass@, nonce@, data@),
        r@.len() == data@.len() + 16,
        decrypt_outcome(pass@, nonce@, r@) == Ok::<Seq<u8>, ReadEncryptError>(data@),
{
    match aes_seal(pass, nonce, data) {
        Some(c) => c,
        None => vstd::pervasive::unreached(),
    }
}

/// Reads back bytes that `encrypt` sealed; any bytes that the key and nonce
/// do not authenticate are refused, never turned into a plaintext.
pub fn read_encrypted(pass: &[u8; 32], nonce: &[u8; 12], cipher: &[u8]) -> (r: Result<Vec<u8>, ReadEncryptError>)
    ensures
        r is Ok <==> gcm_open(pass@, nonce@, cipher@) is Some,
        r matches Ok(p) ==> decrypt_outcome(pass@, nonce@, cipher@) == Ok::<Seq<u8>, ReadEncryptError>(p@),
        r matches Ok(p) ==> p@.len() + 16 == cipher@.len(),
        r is Err ==> r == Err::<Vec<u8>, ReadEncryptError>(ReadEncryptError::PasswordError),
{
    match aes_open(pass, nonce, cipher) {
        Some(p) => Ok(p),
        None => Err(ReadEncryptError::PasswordError),
    }
}

/// Decrypts the vault with the key of `password`.
pub fn unlock_bytes(password: &str, nonce: &[u8; 12], cipher: &[u8]) -> (r: Result<Vec<u8>, ConfigError>)
    ensures
        r is Ok <==> gcm_open(password_key(password), nonce@, cipher@) is Some,
        r matches Ok(p) ==> gcm_open(password_key(password), nonce@, cipher@) == Some(p@),
        r is Err ==> r == Err::<Vec<u8>, ConfigError>(ConfigError::PasswordError),
{
    let key = hash_s(password);
    match read_encrypted(&key, nonce, cipher) {
        Ok(p) => Ok(p),
        Err(e) => Err(ConfigError::from(e)),
    }
}

/// Seals the serialized secrets with the key of `password`.
pub fn lock_bytes(password: &str, nonce: &[u8; 12], plain: &[u8]) -> (r: Vec<u8>)
    requires
        plain@.len() <= gcm_plaintext_max(),
    ensures
        r@ == gcm_seal(password_key(password), nonce@, plain@),
        r@.len() == plain@.len() + 16,
        gcm_open(password_key(password), nonce@, r@) == Some(plain@),
{
    let key = hash_s(password);
    encrypt(&key, nonce, plain)
}

/// The nonce of a vault and whether it has to be written out.
pub struct VaultNonce {
    pub nonce: [u8; 12],
    pub persist: bool,
}

/// Picks the vault's nonce from the contents of the nonce file, or draws one
/// when there is no such file. A file shorter than twelve bytes cannot be
/// read.
pub fn vault_nonce(stored: Option<&[u8]>) -> (r: Result<VaultNonce, ConfigError>)
    ensures
        stored is None ==> (r matches Ok(n) && n.persist),
        stored is Some && stored.unwrap()@.len() < 12 ==> r == Err::<VaultNonce, ConfigError>(ConfigError::IoError),
        stored is Some && stored.unwrap()@.len() >= 12 ==> (r matches Ok(n) && !n.persist
            && n.nonce@ == stored.unwrap()@.subrange(0, 12)),
{
    match stored {
        None => Ok(VaultNonce { nonce: random_nonce(), persist: true }),
        Some(b) => {
            if b.len() < 12 {
                return Err(ConfigError::IoError);
            }
            let mut n = [0u8; 12];
            let mut i: usize = 0;
            while i < 12
                invariant
                    i <= 12,
                    b@.len() >= 12,
                    forall|j: int| 0 <= j < i ==> n@[j] == b@[j],
                decreases 12 - i,
            {
                n[i] = b[i];
                i = i + 1;
            }
            assert(n@ =~= b@.subrange(0, 12));
            Ok(VaultNonce { nonce: n, persist: false })
        },
    }
}


/// The private key that an unlock hands out: a fresh key under rotation on
/// restart, else the stored key, or a fresh one where none is stored.
pub open spec fn unlocked_key(stored: Option<[u8; 32]>, restart_key: bool, fresh: [u8; 32]) -> Option<[u8; 32]> {
    if restart_key || stored is None {
        Some(fresh)
    } else {
        stored
    }
}

/// Whether an unlock has to write the vault again: whenever the key it hands
/// out is not the stored one.
pub open spec fn unlock_rewrites(stored: Option<[u8; 32]>, restart_key: bool) -> bool {
    restart_key || stored is None
}

/// What the vault holds after an unlock.
pub open spec fn stored_after_unlock(stored: Option<[u8; 32]>, restart_key: bool, fresh: [u8; 32]) -> Option<[u8; 32]> {
    if unlock_rewrites(stored, restart_key) {
        unlocked_key(stored, restart_key, fresh)
    } else {
        stored
    }
}

/// The secrets a successful unlock hands out, and whether they have to be
/// sealed and written back.
pub struct Unlocked {
    pub secrets: SecretConfiguration,
    pub persist: bool,
}

/// Applies the rotation policy to the secrets that were just decrypted;
/// `fresh` is a newly drawn private key.
pub fn settle_unlocked(stored: SecretConfiguration, restart_key: bool, fresh: [u8; 32]) -> (r: Unlocked)
    ensures
        r.secrets.private_key == unlocked_key(stored.private_key, restart_key, fresh),
        r.persist == unlock_rewrites(stored.private_key, restart_key),
        r.secrets.cert_password == stored.cert_password,
        r.secrets.admin_pass == stored.admin_pass,
{
    let persist = restart_key || stored.private_key.is_none();
    let private_key = if persist {
        Some(fresh)
    } else {
        stored.private_key
    };
    Unlocked {
        secrets: SecretConfiguration {
            private_key,
            cert_password: stored.cert_password,
            admin_pass: stored.admin_pass,
        },
        persist,
    }
}

/// The secrets of a new vault: what is written, and what is handed out.
pub struct Created {
    pub stored: SecretConfiguration,
    pub secrets: SecretConfiguration,
}

/// The secrets of a new vault. Under rotation on restart the vault holds no
/// key and the fresh key is handed out only; otherwise the fresh key is
/// written too.
pub fn create_secrets(restart_key: bool, fresh: [u8; 32]) -> (r: Created)
    ensures
        r.stored.private_key == (if restart_key { None } else { Some(fresh) }),
        r.stored.cert_password is None,
        r.stored.admin_pass is None,
        r.secrets.private_key == Some(fresh),
        r.secrets.cert_password is None,
        r.secrets.admin_pass is None,
{
    let mut stored = SecretConfiguration::default();
    if !restart_key {
        stored.private_key = Some(fresh);
    }
    let mut secrets = SecretConfiguration::default();
    secrets.private_key = Some(fresh);
    Created { stored, secrets }
}

/// The secrets of a node that runs without its vault: a key that is never
/// written anywhere.
pub fn ephemeral_secrets(fresh: [u8; 32]) -> (r: SecretConfiguration)
    ensures
        r.private_key == Some(fresh),
        r.cert_password is None,
        r.admin_pass is None,
{
    let mut secrets = SecretConfiguration::default();
    secrets.private_key = Some(fresh);
    secrets
}

/// Under rotation on restart two unlocks in a row hand out the two keys
/// that were drawn for them; without it, and with a key stored, both hand
/// out that key, and the vault keeps it.
pub proof fn lemma_rotation_policy(stored: Option<[u8; 32]>, restart_key: bool, fresh1: [u8; 32], fresh2: [u8; 32])
    ensures
        ({
            let first = unlocked_key(stored, restart_key, fresh1);
            let second = unlocked_key(stored_after_unlock(stored, restart_key, fresh1), restart_key, fresh2);
            &&& restart_key ==> first == Some(fresh1) && second == Some(fresh2)
            &&& restart_key && fresh1 != fresh2 ==> first != second
            &&& !restart_key && stored is Some ==> first == stored && second == stored
            &&& !restart_key && stored is Some ==> stored_after_unlock(stored, restart_key, fresh1) == stored
            &&& !restart_key ==> first == second
        }),
{
}

/// How many times the password is asked for again after a wrong one.
pub const MAX_PASSWORD_RETRIES: u32 = 4;

/// What happened in the last step of start-up.
#[derive(Clone, Copy, Debug, PartialEq, Eq, Structural)]
pub enum StartupEvent {
    /// The vault opened.
    Unlocked,
    /// The vault did not open.
    UnlockFailed(ConfigError),
    /// A new vault was written.
    Created,
    /// A new vault could not be written.
    CreateFailed,
}

/// What start-up does next.
#[derive(Clone, Copy, Debug, PartialEq, Eq, Structural)]
pub enum StartupAction {
    /// The secrets are at hand.
    Ready,
    /// Ask for the password again and retry the unlock.
    AskPassword,
    /// There is no usable vault: create one.
    CreateVault,
    /// Run with a key that is never written, and say so.
    UseEphemeral,
}

/// The bounded retry of the vault password at start-up.
pub struct UnlockRetry {
    retries: u32,
}

impl UnlockRetry {
    pub closed spec fn retries(&self) -> nat {
        self.retries as nat
    }

    pub closed spec fn wf(&self) -> bool {
        self.retries <= MAX_PASSWORD_RETRIES
    }

    pub fn new() -> (r: Self)
        ensures
            r.retries() == 0,
            r.wf(),
    {
        UnlockRetry { retries: 0 }
    }

    /// The step that follows `event`. A wrong password is retried at most
    /// `MAX_PASSWORD_RETRIES` times; a missing or unreadable vault is
    /// replaced by a new one; when that fails too the node runs on an
    /// ephemeral key.
    pub fn next(&mut self, event: StartupEvent) -> (r: StartupAction)
        requires
            old(self).wf(),
        ensures
            final(self).wf(),
            r == next_action(old(self).retries(), event),
            final(self).retries() == (if r == StartupAction::AskPassword { old(self).retries() + 1 } else { old(self).retries() }),
    {
        match event {
            StartupEvent::Unlocked => StartupAction::Ready,
            StartupEvent::Created => StartupAction::Ready,
            StartupEvent::CreateFailed => StartupAction::UseEphemeral,
            StartupEvent::UnlockFailed(ConfigError::PasswordError) => {
                if self.retries < MAX_PASSWORD_RETRIES {
                    self.retries = self.retries + 1;
                    StartupAction::AskPassword
                } else {
                    StartupAction::UseEphemeral
                }
            },
            StartupEvent::UnlockFailed(_) => StartupAction::CreateVault,
        }
    }
}

/// The start-up step after `event`, once `retries` retries have been spent.
pub open spec fn next_action(retries: nat, event: StartupEvent) -> StartupAction {
    match event {
        StartupEvent::Unlocked => StartupAction::Ready,
        StartupEvent::Created => StartupAction::Ready,
        StartupEvent::CreateFailed => StartupAction::UseEphemeral,
        StartupEvent::UnlockFailed(ConfigError::PasswordError) => {
            if retries < MAX_PASSWORD_RETRIES {
                StartupAction::AskPassword
            } else {
                StartupAction::UseEphemeral
            }
        },
        StartupEvent::UnlockFailed(_) => StartupAction::CreateVault,
    }
}

} // verus!
