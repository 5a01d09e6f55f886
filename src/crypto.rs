//! Keys and signatures over secp256k1, and the signed challenge that proves
//! possession of a key.

use byteorder::WriteBytesExt;
use vstd::prelude::*;

verus! {

/// The order of the secp256k1 group.
pub open spec fn curve_order() -> nat {
    0xFFFFFFFFFFFFFFFFFFFFFFFFFFFFFFFEnat * 0x100000000000000000000000000000000nat
        + 0xBAAEDCE6AF48A03BBFD25E8CD0364141nat
}

/// The value of a byte string read as a big-endian unsigned integer.
pub open spec fn be_value(b: Seq<u8>) -> nat
    decreases b.len(),
{
    if b.len() == 0 {
        0
    } else {
        be_value(b.drop_last()) * 256 + b.last() as nat
    }
}

/// A valid private key: 32 bytes encoding a scalar in `1 .. n`.
pub open spec fn is_secret_scalar(b: Seq<u8>) -> bool {
    b.len() == 32 && 0 < be_value(b) < curve_order()
}

/// A signature in standard form: `r` and `s`, 32 big-endian bytes each,
/// both below the group order.
pub open spec fn is_standard_signature(b: Seq<u8>) -> bool {
    &&& b.len() == 64
    &&& be_value(b.subrange(0, 32)) < curve_order()
    &&& be_value(b.subrange(32, 64)) < curve_order()
}

/// A signature whose `s` lies in the lower half of the group order, the
/// canonical one of the two signatures `(r, s)` and `(r, n - s)`.
pub open spec fn is_low_s(b: Seq<u8>) -> bool {
    b.len() == 64 && 2 * be_value(b.subrange(32, 64)) < curve_order()
}

/// The big-endian bytes of `(n - 1) / 2`, the largest low `s`.
pub open spec fn half_order_bytes() -> Seq<u8> {
    seq![
        0x7Fu8, 0xFF, 0xFF, 0xFF, 0xFF, 0xFF, 0xFF, 0xFF, 0xFF, 0xFF, 0xFF, 0xFF, 0xFF, 0xFF, 0xFF, 0xFF,
        0x5D, 0x57, 0x6E, 0x73, 0x57, 0xA4, 0x50, 0x1D, 0xDF, 0xE9, 0x2F, 0x46, 0x68, 0x1B, 0x20, 0xA0,
    ]
}

proof fn lemma_half_order()
    ensures
        2 * be_value(half_order_bytes()) + 1 == curve_order(),
{
    reveal_with_fuel(be_value, 33);
    let h = half_order_bytes();
    assert(h.drop_last() =~= h.subrange(0, 31));
}

/// Extending two equally long big-endian prefixes by one byte keeps a strict
/// order between them, and between equal prefixes the new bytes decide.
proof fn lemma_be_prefix_order(a: Seq<u8>, b: Seq<u8>, i: int)
    requires
        0 <= i < a.len(),
        a.len() == b.len(),
    ensures
        ({
            let x = be_value(a.subrange(0, i));
            let y = be_value(b.subrange(0, i));
            let x1 = be_value(a.subrange(0, i + 1));
            let y1 = be_value(b.subrange(0, i + 1));
            &&& x < y ==> x1 < y1
            &&& x > y ==> x1 > y1
            &&& x == y ==> (x1 < y1 <==> a[i] < b[i]) && (x1 > y1 <==> a[i] > b[i])
        }),
{
    assert(a.subrange(0, i + 1).drop_last() =~= a.subrange(0, i));
    assert(b.subrange(0, i + 1).drop_last() =~= b.subrange(0, i));
    let x = be_value(a.subrange(0, i));
    let y = be_value(b.subrange(0, i));
    let p = a[i] as int;
    let q = b[i] as int;
    assert(be_value(a.subrange(0, i + 1)) == x * 256 + p);
    assert(be_value(b.subrange(0, i + 1)) == y * 256 + q);
    assert(x < y ==> x * 256 + p < y * 256 + q) by (nonlinear_arith)
        requires
            0 <= p < 256,
            0 <= q < 256,
    ;
    assert(x > y ==> x * 256 + p > y * 256 + q) by (nonlinear_arith)
        requires
            0 <= p < 256,
            0 <= q < 256,
    ;
}

/// Whether the `s` half of a signature is low, by comparing its bytes with
/// those of `(n - 1) / 2` from the most significant down.
fn s_is_low(sig: &[u8; 64]) -> (r: bool)
    ensures
        r == is_low_s(sig@),
{
    let half: [u8; 32] = [
        0x7F, 0xFF, 0xFF, 0xFF, 0xFF, 0xFF, 0xFF, 0xFF, 0xFF, 0xFF, 0xFF, 0xFF, 0xFF, 0xFF, 0xFF, 0xFF,
        0x5D, 0x57, 0x6E, 0x73, 0x57, 0xA4, 0x50, 0x1D, 0xDF, 0xE9, 0x2F, 0x46, 0x68, 0x1B, 0x20, 0xA0,
    ];
    assert(half@ =~= half_order_bytes());
    let ghost s = sig@.subrange(32, 64);
    let ghost h = half_order_bytes();
    let mut less = false;
    let mut greater = false;
    let mut i: usize = 0;
    assert(s.subrange(0, 0) =~= h.subrange(0, 0));
    while i < 32
        invariant
            i <= 32,
            s == sig@.subrange(32, 64),
            h == half_order_bytes(),
            half@ == h,
            !(less && greater),
            less <==> be_value(s.subrange(0, i as int)) < be_value(h.subrange(0, i as int)),
            greater <==> be_value(s.subrange(0, i as int)) > be_value(h.subrange(0, i as int)),
        decreases 32 - i,
    {
        proof {
            lemma_be_prefix_order(s, h, i as int);
        }
        if !less && !greater {
            if sig[32 + i] < half[i] {
                less = true;
            } else if sig[32 + i] > half[i] {
                greater = true;
            }
        }
        i = i + 1;
    }
    proof {
        lemma_half_order();
        assert(s.subrange(0, 32) =~= s);
        assert(h.subrange(0, 32) =~= h);
    }
    !greater
}

/// The `n` low bytes of `u`, least significant first.
pub open spec fn le_digits(u: nat, n: nat) -> Seq<u8>
    decreases n,
{
    if n == 0 {
        Seq::empty()
    } else {
        seq![(u % 256) as u8] + le_digits(u / 256, (n - 1) as nat)
    }
}

/// The eight little-endian bytes of a two's-complement 64-bit integer.
pub open spec fn le_bytes_i64(v: i64) -> Seq<u8> {
    let u: int = if v < 0 { v + 0x10000000000000000 } else { v as int };
    le_digits(u as nat, 8)
}

/// The prime of the field the curve is defined over.
pub open spec fn field_prime() -> nat {
    0xFFFFFFFFFFFFFFFFFFFFFFFFFFFFFFFFnat * 0x100000000000000000000000000000000nat
        + 0xFFFFFFFFFFFFFFFFFFFFFFFEFFFFFC2Fnat
}

/// `y * y` reduced modulo `p`.
pub open spec fn square_mod(y: int, p: int) -> int {
    (y * y) % p
}

/// Whether `v` is a square modulo `p`.
pub open spec fn is_square_mod(v: int, p: int) -> bool {
    exists|y: int| 0 <= y < p && #[trigger] square_mod(y, p) == v % p
}

/// Whether the 33 bytes are the compressed encoding of a point of the
/// curve `y^2 = x^3 + 7`: a tag byte 2 or 3, then an `x` below the field
/// prime for which `x^3 + 7` has a square root.
pub open spec fn is_curve_point(key: Seq<u8>) -> bool {
    let x = be_value(key.subrange(1, 33)) as int;
    &&& key.len() == 33
    &&& key[0] == 2 || key[0] == 3
    &&& x < field_prime()
    &&& is_square_mod(x * x * x + 7, field_prime() as int)
}

/// Whether ECDSA verification accepts `sig` over the 32-byte `hash` for `key`.
pub uninterp spec fn ecdsa_accepts(hash: Seq<u8>, sig: Seq<u8>, key: Seq<u8>) -> bool;

/// The deterministic ECDSA signature of the 32-byte `hash` by `secret`.
pub uninterp spec fn ecdsa_signature(hash: Seq<u8>, secret: Seq<u8>) -> Seq<u8>;

/// The BLAKE3 digest of `data`.
pub uninterp spec fn blake3_of(data: Seq<u8>) -> Seq<u8>;

/// libsecp256k1's parsed public key, held opaque.
#[verifier::external_type_specification]
#[verifier::external_body]
pub struct ExPublicKey(libsecp256k1::PublicKey);

/// libsecp256k1's parsed secret key, held opaque.
#[verifier::external_type_specification]
#[verifier::external_body]
pub struct ExSecretKey(libsecp256k1::SecretKey);

/// libsecp256k1's parsed signature, held opaque.
#[verifier::external_type_specification]
#[verifier::external_body]
pub struct ExSignature(libsecp256k1::Signature);

/// A parsed curve point together with the compressed bytes it was parsed
/// from. Only `parse_point` builds one.
#[derive(Clone, Copy)]
struct CurvePoint {
    handle: libsecp256k1::PublicKey,
    source: [u8; 33],
}

/// A parsed signature together with the bytes it was parsed from. Only
/// `parse_signature` builds one.
#[derive(Clone, Copy)]
struct SignatureHandle {
    handle: libsecp256k1::Signature,
    source: [u8; 64],
}

/// A parsed secret scalar together with the bytes it was parsed from. Only
/// `parse_secret` builds one.
#[derive(Clone, Copy)]
struct SecretHandle {
    handle: libsecp256k1::SecretKey,
    source: [u8; 32],
}

/// Relies on libsecp256k1::PublicKey::parse_compressed, which accepts
/// exactly a tag byte 2 or 3, an `x` below the field prime (Field::set_b32)
/// and an `x^3 + 7` whose square root exists (Affine::set_xquad, checked
/// again by is_valid_var).
#[verifier::external_body]
fn parse_point(key: &[u8; 33]) -> (r: Option<CurvePoint>)
    ensures
        r is Some <==> is_curve_point(key@),
        r matches Some(p) ==> p.source@ == key@,
{
    match libsecp256k1::PublicKey::parse_compressed(key) {
        Ok(handle) => Some(CurvePoint { handle, source: *key }),
        Err(_) => None,
    }
}

/// Relies on libsecp256k1::Signature::parse_standard, which rejects a
/// signature whose `r` or `s` is not below the group order.
#[verifier::external_body]
fn parse_signature(sig: &[u8; 64]) -> (r: Option<SignatureHandle>)
    ensures
        r is Some <==> is_standard_signature(sig@),
        r matches Some(s) ==> s.source@ == sig@,
{
    match libsecp256k1::Signature::parse_standard(sig) {
        Ok(handle) => Some(SignatureHandle { handle, source: *sig }),
        Err(_) => None,
    }
}

/// Relies on libsecp256k1::SecretKey::parse, which accepts exactly the
/// scalars in `1 .. n`.
#[verifier::external_body]
fn parse_secret(key: &[u8; 32]) -> (r: Option<SecretHandle>)
    ensures
        r is Some <==> is_secret_scalar(key@),
        r matches Some(s) ==> s.source@ == key@,
{
    match libsecp256k1::SecretKey::parse(key) {
        Ok(handle) => Some(SecretHandle { handle, source: *key }),
        Err(_) => None,
    }
}

/// Relies on libsecp256k1::verify, on the message that Message::parse makes
/// of the 32-byte hash.
#[verifier::external_body]
fn ecdsa_verify(hash: &[u8; 32], sig: &SignatureHandle, key: &CurvePoint) -> (r: bool)
    ensures
        r == ecdsa_accepts(hash@, sig.source@, key.source@),
{
    libsecp256k1::verify(&libsecp256k1::Message::parse(hash), &sig.handle, &key.handle)
}

/// Relies on libsecp256k1::sign (RFC 6979 nonces, so deterministic), on the
/// message that Message::parse makes of the 32-byte hash; the signing step
/// negates a high `s`, and the signature is serialized as its two reduced
/// scalars.
#[verifier::external_body]
fn ecdsa_sign(hash: &[u8; 32], key: &SecretHandle) -> (r: [u8; 64])
    ensures
        r@ == ecdsa_signature(hash@, key.source@),
        is_standard_signature(r@),
        is_low_s(r@),
{
    libsecp256k1::sign(&libsecp256k1::Message::parse(hash), &key.handle).0.serialize()
}

/// Relies on libsecp256k1::SecretKey::random with the operating system's
/// generator, which draws until the bytes parse as a secret key.
#[verifier::external_body]
pub fn random_secret() -> (r: [u8; 32])
    ensures
        is_secret_scalar(r@),
{
    libsecp256k1::SecretKey::random(&mut rand::rngs::OsRng).serialize()
}

/// Relies on blake3::hash for the 32-byte digest.
#[verifier::external_body]
pub fn blake3_hash(data: &[u8]) -> (r: [u8; 32])
    ensures
        r@ == blake3_of(data@),
{
    *blake3::hash(data).as_bytes()
}

/// Relies on byteorder's WriteBytesExt::write_i64 in little-endian order,
/// which on a Vec appends the eight bytes and cannot fail.
#[verifier::external_body]
fn push_i64_le(buf: &mut Vec<u8>, v: i64)
    ensures
        final(buf)@ == old(buf)@ + le_bytes_i64(v),
{
    let _ = buf.write_i64::<byteorder::LittleEndian>(v);
}


/// What can go wrong when keys or signatures are read.
#[derive(Clone, Copy, Debug, PartialEq, Eq, Structural)]
pub enum CryptoError {
    /// A fixed-size field had another length: the expected and the given length.
    InvalidLength(usize, usize),
    /// The 33 bytes are not a compressed curve point.
    InvalidPublicKey,
    /// The 64 bytes are not a signature in standard form with a low `s`.
    InvalidSignature,
    /// The 32 bytes are not a scalar in `1 .. n`.
    InvalidSecretKey,
}

/// What verifying `sig` over `hash` against the compressed key `key` gives:
/// the key is parsed first, then the signature, which must be in standard
/// form with a low `s`.
pub open spec fn verify_outcome(key: Seq<u8>, hash: Seq<u8>, sig: Seq<u8>) -> Result<bool, CryptoError> {
    if !is_curve_point(key) {
        Err(CryptoError::InvalidPublicKey)
    } else if !is_standard_signature(sig) || !is_low_s(sig) {
        Err(CryptoError::InvalidSignature)
    } else {
        Ok(ecdsa_accepts(hash, sig, key))
    }
}

/// Copies a slice of exactly `N` bytes into an array.
fn to_array<const N: usize>(b: &[u8]) -> (r: [u8; N])
    requires
        b@.len() == N,
    ensures
        r@ == b@,
{
    let mut a = [0u8; N];
    let mut i: usize = 0;
    while i < N
        invariant
            i <= N,
            b@.len() == N,
            a@.len() == N,
            forall|j: int| 0 <= j < i ==> a@[j] == b@[j],
        decreases N - i,
    {
        a[i] = b[i];
        i = i + 1;
    }
    assert(a@ =~= b@);
    a
}

/// A compressed secp256k1 public key. The parsed point is kept once it has
/// been needed, so that later verifications do not parse it again.
#[derive(Clone, Copy)]
pub struct PubKey {
    key: [u8; 33],
    verif: Option<CurvePoint>,
}

impl View for PubKey {
    type V = Seq<u8>;

    closed spec fn view(&self) -> Seq<u8> {
        self.key@
    }
}

impl PubKey {
    #[verifier::type_invariant]
    spec fn cache_matches(self) -> bool {
        self.verif matches Some(p) ==> p.source@ == self.key@ && is_curve_point(self.key@)
    }

    pub fn new(key: [u8; 33]) -> (r: Self)
        ensures
            r@ == key@,
    {
        PubKey { key, verif: None }
    }

    /// Reads a key from a byte field, which must hold exactly 33 bytes.
    pub fn from_slice(b: &[u8]) -> (r: Result<Self, CryptoError>)
        ensures
            b@.len() == 33 <==> r is Ok,
            r matches Ok(k) ==> k@ == b@,
            b@.len() != 33 ==> r == Err::<Self, CryptoError>(CryptoError::InvalidLength(33, b@.len() as usize)),
    {
        if b.len() != 33 {
            return Err(CryptoError::InvalidLength(33, b.len()));
        }
        Ok(PubKey::new(to_array(b)))
    }

    /// The 33 compressed bytes.
    pub fn bytes(&self) -> (r: [u8; 33])
        ensures
            r@ == self@,
    {
        self.key
    }

    /// Verifies `sig` over the BLAKE3 digest of `msg`.
    pub fn verify(&mut self, msg: &[u8], sig: &[u8; 64]) -> (r: Result<bool, CryptoError>)
        ensures
            final(self)@ == old(self)@,
            r == verify_outcome(old(self)@, blake3_of(msg@), sig@),
    {
        let hash = blake3_hash(msg);
        self.verify_hash(&hash, sig)
    }

    /// Verifies `sig` over a 32-byte hash that the caller computed.
    pub fn verify_hash(&mut self, hash: &[u8; 32], sig: &[u8; 64]) -> (r: Result<bool, CryptoError>)
        ensures
            final(self)@ == old(self)@,
            r == verify_outcome(old(self)@, hash@, sig@),
    {
        proof {
            use_type_invariant(&*self);
        }
        let point = match self.verif {
            Some(p) => p,
            None => match parse_point(&self.key) {
                Some(p) => {
                    self.verif = Some(p);
                    p
                },
                None => {
                    return Err(CryptoError::InvalidPublicKey);
                },
            },
        };
        let signature = match parse_signature(sig) {
            Some(s) => s,
            None => {
                return Err(CryptoError::InvalidSignature);
            },
        };
        if !s_is_low(sig) {
            return Err(CryptoError::InvalidSignature);
        }
        Ok(ecdsa_verify(hash, &signature, &point))
    }
}

impl Default for PubKey {
    fn default() -> (r: Self)
        ensures
            r@ == seq![0u8; 33],
    {
        PubKey::new([0u8; 33])
    }
}


/// Reads a signature from a byte field, which must hold exactly 64 bytes.
pub fn signature_from_slice(b: &[u8]) -> (r: Result<[u8; 64], CryptoError>)
    ensures
        b@.len() == 64 <==> r is Ok,
        r matches Ok(s) ==> s@ == b@,
        b@.len() != 64 ==> r == Err::<[u8; 64], CryptoError>(CryptoError::InvalidLength(64, b@.len() as usize)),
{
    if b.len() != 64 {
        return Err(CryptoError::InvalidLength(64, b.len()));
    }
    Ok(to_array(b))
}

/// A secp256k1 private key: a scalar in `1 .. n`.
#[derive(Clone, Copy)]
pub struct PrivKey {
    key: SecretHandle,
}

impl View for PrivKey {
    type V = Seq<u8>;

    closed spec fn view(&self) -> Seq<u8> {
        self.key.source@
    }
}

impl PrivKey {
    #[verifier::type_invariant]
    spec fn valid_scalar(self) -> bool {
        is_secret_scalar(self.key.source@)
    }

    /// Checks the 32 bytes against the group order.
    pub fn new(key: [u8; 32]) -> (r: Result<Self, CryptoError>)
        ensures
            r is Ok <==> is_secret_scalar(key@),
            r matches Ok(k) ==> k@ == key@,
            !is_secret_scalar(key@) ==> r == Err::<Self, CryptoError>(CryptoError::InvalidSecretKey),
    {
        match parse_secret(&key) {
            Some(h) => Ok(PrivKey { key: h }),
            None => Err(CryptoError::InvalidSecretKey),
        }
    }

    /// Reads a key from a byte field, which must hold exactly 32 bytes of a
    /// valid scalar.
    pub fn from_slice(b: &[u8]) -> (r: Result<Self, CryptoError>)
        ensures
            r is Ok <==> b@.len() == 32 && is_secret_scalar(b@),
            r matches Ok(k) ==> k@ == b@,
            b@.len() != 32 ==> r == Err::<Self, CryptoError>(CryptoError::InvalidLength(32, b@.len() as usize)),
            b@.len() == 32 && !is_secret_scalar(b@) ==> r == Err::<Self, CryptoError>(CryptoError::InvalidSecretKey),
    {
        if b.len() != 32 {
            return Err(CryptoError::InvalidLength(32, b.len()));
        }
        PrivKey::new(to_array(b))
    }

    /// The 32 bytes of the scalar.
    pub fn bytes(&self) -> (r: [u8; 32])
        ensures
            r@ == self@,
            is_secret_scalar(r@),
    {
        proof {
            use_type_invariant(self);
        }
        self.key.source
    }

    /// Signs a 32-byte hash that the caller computed.
    pub fn sign_hash(&self, msg: &[u8; 32]) -> (r: [u8; 64])
        ensures
            r@ == ecdsa_signature(msg@, self@),
            is_standard_signature(r@),
            is_low_s(r@),
    {
        ecdsa_sign(msg, &self.key)
    }

    /// Signs the BLAKE3 digest of `msg`.
    pub fn sign(&self, msg: &[u8]) -> (r: [u8; 64])
        ensures
            r@ == ecdsa_signature(blake3_of(msg@), self@),
            is_standard_signature(r@),
            is_low_s(r@),
    {
        let hash = blake3_hash(msg);
        self.sign_hash(&hash)
    }
}

/// The kind of a signed message, written as its first byte.
#[derive(Clone, Copy, Debug, PartialEq, Eq, Structural)]
pub enum SigmsgType {
    /// Proves to a peer that the signer holds a key.
    Dummy,
}

impl SigmsgType {
    pub open spec fn spec_tag(self) -> u8 {
        match self {
            SigmsgType::Dummy => 0,
        }
    }

    /// The byte that opens the signed bytes.
    pub fn tag(&self) -> (r: u8)
        ensures
            r == self.spec_tag(),
    {
        match self {
            SigmsgType::Dummy => 0,
        }
    }
}

/// The bytes whose digest an identity claim signs: the kind tag, the
/// 32-byte challenge, and the millisecond timestamp in little-endian order.
pub open spec fn challenge_preimage(sig_msg: Seq<u8>, timestamp_millis: i64) -> Seq<u8> {
    seq![SigmsgType::Dummy.spec_tag()] + sig_msg + le_bytes_i64(timestamp_millis)
}

/// A message reduced to its digest, ready to be signed or checked against a
/// signature.
#[derive(Clone, Copy)]
pub struct SignedMsg {
    hash: [u8; 32],
}

impl View for SignedMsg {
    type V = Seq<u8>;

    closed spec fn view(&self) -> Seq<u8> {
        self.hash@
    }
}

impl SignedMsg {
    /// The digest for an identity claim over `sig_msg` at `timestamp_millis`.
    pub fn from_identity(sig_msg: &[u8; 32], timestamp_millis: i64) -> (r: Self)
        ensures
            r@ == blake3_of(challenge_preimage(sig_msg@, timestamp_millis)),
    {
        let mut contents: Vec<u8> = Vec::new();
        contents.push(SigmsgType::Dummy.tag());
        let mut i: usize = 0;
        while i < 32
            invariant
                i <= 32,
                contents@ == seq![0u8] + sig_msg@.subrange(0, i as int),
            decreases 32 - i,
        {
            contents.push(sig_msg[i]);
            i = i + 1;
            assert(contents@ =~= seq![0u8] + sig_msg@.subrange(0, i as int));
        }
        push_i64_le(&mut contents, timestamp_millis);
        assert(contents@ =~= challenge_preimage(sig_msg@, timestamp_millis));
        SignedMsg { hash: blake3_hash(contents.as_slice()) }
    }

    /// The digest.
    pub fn hash(&self) -> (r: &[u8; 32])
        ensures
            r@ == self@,
    {
        &self.hash
    }

    /// Checks `sig` over the digest against `key`.
    pub fn verify(&self, key: &mut PubKey, sig: &[u8; 64]) -> (r: Result<bool, CryptoError>)
        ensures
            final(key)@ == old(key)@,
            r == verify_outcome(old(key)@, self@, sig@),
    {
        key.verify_hash(&self.hash, sig)
    }

    /// Signs the digest with `key`.
    pub fn sign(&self, key: &PrivKey) -> (r: [u8; 64])
        ensures
            r@ == ecdsa_signature(self@, key@),
            is_standard_signature(r@),
            is_low_s(r@),
    {
        key.sign_hash(&self.hash)
    }
}

} // verus!
