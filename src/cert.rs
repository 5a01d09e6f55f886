//! The node's TLS certificate: read from PEM files, or issued to itself
//! when they cannot be read.

use vstd::prelude::*;

verus! {

broadcast use vstd::string::to_string_from_display_ensures_for_str;

/// The DER certificates that a PEM text holds, in order, or `None` where
/// the text cannot be read as PEM.
pub uninterp spec fn pem_certs_of(text: Seq<u8>) -> Option<Seq<Seq<u8>>>;

/// The DER PKCS#8 private keys that a PEM text holds, in order, or `None`
/// where the text cannot be read as PEM.
pub uninterp spec fn pem_pkcs8_of(text: Seq<u8>) -> Option<Seq<Seq<u8>>>;

/// rcgen's certificate with its key pair, held opaque.
#[verifier::external_type_specification]
#[verifier::external_body]
pub struct ExCertificate(rcgen::Certificate);

/// Relies on rustls_pemfile::certs, which collects the certificate
/// sections of the text and skips the others.
#[verifier::external_body]
fn read_pem_certs(text: &[u8]) -> (r: Option<Vec<Vec<u8>>>)
    ensures
        r is Some <==> pem_certs_of(text@) is Some,
        r matches Some(v) ==> pem_certs_of(text@) == Some(v.deep_view()),
{
    rustls_pemfile::certs(&mut std::io::Cursor::new(text)).ok()
}

/// Relies on rustls_pemfile::pkcs8_private_keys, which collects the PKCS#8
/// key sections of the text and skips the others.
#[verifier::external_body]
fn read_pem_pkcs8_keys(text: &[u8]) -> (r: Option<Vec<Vec<u8>>>)
    ensures
        r is Some <==> pem_pkcs8_of(text@) is Some,
        r matches Some(v) ==> pem_pkcs8_of(text@) == Some(v.deep_view()),
{
    rustls_pemfile::pkcs8_private_keys(&mut std::io::Cursor::new(text)).ok()
}

/// Whether every name is ASCII, as the alternative names of a certificate
/// must be.
pub open spec fn all_ascii(domains: Seq<String>) -> bool {
    forall|i: int| 0 <= i < domains.len() ==> vstd::utf8::is_ascii_chars(#[trigger] domains[i]@)
}

/// Relies on rcgen::generate_simple_self_signed, which draws a new key pair
/// and may fail. The names must be ASCII: serializing the certificate later
/// writes each as an IA5String, which yasna asserts is ASCII.
#[verifier::external_body]
fn new_self_signed(domains: Vec<String>) -> (r: Option<rcgen::Certificate>)
    requires
        all_ascii(domains@),
{
    rcgen::generate_simple_self_signed(domains).ok()
}

/// Relies on rcgen::Certificate::serialize_pem, which signs the
/// certificate and may fail; the text is handed back as its bytes. Every
/// certificate here comes from `new_self_signed`, whose names are ASCII.
#[verifier::external_body]
fn certificate_pem(cert: &rcgen::Certificate) -> (r: Option<Vec<u8>>) {
    cert.serialize_pem().ok().map(|p| p.into_bytes())
}

/// Relies on rcgen::Certificate::serialize_private_key_pem, for a key pair
/// that rcgen generated itself; the text is handed back as its bytes.
#[verifier::external_body]
fn private_key_pem(cert: &rcgen::Certificate) -> (r: Vec<u8>) {
    cert.serialize_private_key_pem().into_bytes()
}

/// A certificate chain and its private key, in DER.
pub struct CertifiedKey {
    pub certs: Vec<Vec<u8>>,
    pub key: Vec<u8>,
}

/// The chain and key that PEM texts give: every certificate of the first
/// text, and the first PKCS#8 key of the second. `None` when either text
/// cannot be read or holds no key.
pub open spec fn pem_pair(cert_pem: Seq<u8>, key_pem: Seq<u8>) -> Option<(Seq<Seq<u8>>, Seq<u8>)> {
    match (pem_certs_of(cert_pem), pem_pkcs8_of(key_pem)) {
        (Some(certs), Some(keys)) => if keys.len() > 0 {
            Some((certs, keys[0]))
        } else {
            None
        },
        _ => None,
    }
}

/// Reads the certificate chain and the first PKCS#8 key from PEM texts.
/// `None` when either text cannot be read or holds no key.
pub fn load_certificates(cert_pem: &[u8], key_pem: &[u8]) -> (r: Option<CertifiedKey>)
    ensures
        r is Some <==> pem_pair(cert_pem@, key_pem@) is Some,
        r matches Some(c) ==> pem_pair(cert_pem@, key_pem@) == Some((c.certs.deep_view(), c.key@)),
{
    let mut keys = match read_pem_pkcs8_keys(key_pem) {
        Some(k) => k,
        None => {
            return None;
        },
    };
    if keys.len() == 0 {
        return None;
    }
    let certs = match read_pem_certs(cert_pem) {
        Some(c) => c,
        None => {
            return None;
        },
    };
    let ghost before = keys.deep_view();
    let key = keys.remove(0);
    assert(key@ == before[0]);
    Some(CertifiedKey { certs, key })
}

/// A certificate issued by the node to itself: the PEM texts to write out,
/// and the DER chain and key to serve with, which are the ones the texts
/// give back when read.
pub struct SelfSigned {
    pub cert_pem: Vec<u8>,
    pub key_pem: Vec<u8>,
    pub certified: CertifiedKey,
}

/// Whether every name is ASCII.
fn names_are_ascii(domains: &Vec<String>) -> (r: bool)
    ensures
        r == all_ascii(domains@),
{
    let mut i: usize = 0;
    while i < domains.len()
        invariant
            i <= domains@.len(),
            forall|j: int| 0 <= j < i ==> vstd::utf8::is_ascii_chars(#[trigger] domains@[j]@),
        decreases domains@.len() - i,
    {
        if !domains[i].as_str().is_ascii() {
            return false;
        }
        i = i + 1;
    }
    true
}

/// Issues a self-signed certificate for `domains`. `None` where a name is
/// not ASCII, which a certificate cannot hold, or where rcgen fails.
/// The pair served is the one that reading the written texts gives, so a
/// later start loads the same certificate.
pub fn generate_certificate(domains: Vec<String>) -> (r: Option<SelfSigned>)
    ensures
        !all_ascii(domains@) ==> r is None,
        r matches Some(s) ==> pem_pair(s.cert_pem@, s.key_pem@) == Some((s.certified.certs.deep_view(), s.certified.key@)),
{
    if !names_are_ascii(&domains) {
        return None;
    }
    let cert = match new_self_signed(domains) {
        Some(c) => c,
        None => {
            return None;
        },
    };
    let cert_pem = match certificate_pem(&cert) {
        Some(p) => p,
        None => {
            return None;
        },
    };
    let key_pem = private_key_pem(&cert);
    match load_certificates(cert_pem.as_slice(), key_pem.as_slice()) {
        Some(certified) => Some(SelfSigned { cert_pem, key_pem, certified }),
        None => None,
    }
}

/// The names a certificate is issued for when the configuration names
/// none: `localhost` and whichever public addresses were found.
pub fn fallback_domains(v4: Option<String>, v6: Option<String>) -> (r: Vec<String>)
    ensures
        r.deep_view() == seq!["localhost"@] + (match v4 {
            Some(a) => seq![a@],
            None => Seq::empty(),
        }) + (match v6 {
            Some(a) => seq![a@],
            None => Seq::empty(),
        }),
{
    let mut r: Vec<String> = Vec::new();
    r.push("localhost".to_string());
    match v4 {
        Some(a) => r.push(a),
        None => {},
    }
    match v6 {
        Some(a) => r.push(a),
        None => {},
    }
    assert(r.deep_view() =~= seq!["localhost"@] + (match v4 {
        Some(a) => seq![a@],
        None => Seq::<Seq<char>>::empty(),
    }) + (match v6 {
        Some(a) => seq![a@],
        None => Seq::<Seq<char>>::empty(),
    }));
    r
}

} // verus!
