use quicnode::crypto::{blake3_hash, random_secret, signature_from_slice, CryptoError, PrivKey, PubKey, SigmsgType, SignedMsg};

fn public_of(secret: &[u8; 32]) -> [u8; 33] {
    let sk = libsecp256k1::SecretKey::parse(secret).unwrap();
    libsecp256k1::PublicKey::from_secret_key(&sk).serialize_compressed()
}

#[test]
fn pubkey_from_slice_takes_exactly_33_bytes() {
    assert_eq!(PubKey::from_slice(&[2u8; 32]).err(), Some(CryptoError::InvalidLength(33, 32)));
    assert_eq!(PubKey::from_slice(&[2u8; 34]).err(), Some(CryptoError::InvalidLength(33, 34)));
    assert_eq!(PubKey::from_slice(&[]).err(), Some(CryptoError::InvalidLength(33, 0)));
    let k = PubKey::from_slice(&[3u8; 33]).ok().unwrap();
    assert_eq!(k.bytes(), [3u8; 33]);
}

#[test]
fn privkey_from_slice_takes_exactly_32_valid_bytes() {
    assert_eq!(PrivKey::from_slice(&[1u8; 31]).err(), Some(CryptoError::InvalidLength(32, 31)));
    assert_eq!(PrivKey::from_slice(&[1u8; 33]).err(), Some(CryptoError::InvalidLength(32, 33)));
    assert_eq!(PrivKey::from_slice(&[0u8; 32]).err(), Some(CryptoError::InvalidSecretKey));
    assert_eq!(PrivKey::from_slice(&[0xFFu8; 32]).err(), Some(CryptoError::InvalidSecretKey));
    let k = PrivKey::from_slice(&[1u8; 32]).ok().unwrap();
    assert_eq!(k.bytes(), [1u8; 32]);
}

#[test]
fn privkey_new_checks_group_order() {
    // n - 1 is the largest valid scalar, n itself is not.
    let mut n_minus_one: [u8; 32] = [
        0xFF, 0xFF, 0xFF, 0xFF, 0xFF, 0xFF, 0xFF, 0xFF, 0xFF, 0xFF, 0xFF, 0xFF, 0xFF, 0xFF, 0xFF, 0xFE,
        0xBA, 0xAE, 0xDC, 0xE6, 0xAF, 0x48, 0xA0, 0x3B, 0xBF, 0xD2, 0x5E, 0x8C, 0xD0, 0x36, 0x41, 0x40,
    ];
    assert!(PrivKey::new(n_minus_one).is_ok());
    n_minus_one[31] = 0x41;
    assert_eq!(PrivKey::new(n_minus_one).err(), Some(CryptoError::InvalidSecretKey));
}

#[test]
fn signature_from_slice_takes_exactly_64_bytes() {
    assert_eq!(signature_from_slice(&[0u8; 63]), Err(CryptoError::InvalidLength(64, 63)));
    assert_eq!(signature_from_slice(&[0u8; 65]), Err(CryptoError::InvalidLength(64, 65)));
    assert_eq!(signature_from_slice(&[9u8; 64]), Ok([9u8; 64]));
}

#[test]
fn signature_verifies_for_its_key_and_hash() {
    let secret = [7u8; 32];
    let priv_key = PrivKey::new(secret).ok().unwrap();
    let mut pub_key = PubKey::new(public_of(&secret));
    let hash = [42u8; 32];
    let sig = priv_key.sign_hash(&hash);
    assert_eq!(pub_key.verify_hash(&hash, &sig), Ok(true));
    // A second check goes through the kept point.
    assert_eq!(pub_key.verify_hash(&hash, &sig), Ok(true));
}

#[test]
fn signature_fails_for_altered_hash() {
    let secret = [7u8; 32];
    let priv_key = PrivKey::new(secret).ok().unwrap();
    let mut pub_key = PubKey::new(public_of(&secret));
    let hash = [42u8; 32];
    let sig = priv_key.sign_hash(&hash);
    let mut altered = hash;
    altered[0] ^= 1;
    assert_eq!(pub_key.verify_hash(&altered, &sig), Ok(false));
}

#[test]
fn signature_fails_for_other_key() {
    let priv_key = PrivKey::new([7u8; 32]).ok().unwrap();
    let mut other = PubKey::new(public_of(&[8u8; 32]));
    let hash = [42u8; 32];
    let sig = priv_key.sign_hash(&hash);
    assert_eq!(other.verify_hash(&hash, &sig), Ok(false));
}

#[test]
fn invalid_point_is_an_error() {
    let mut zero = PubKey::default();
    assert_eq!(zero.bytes(), [0u8; 33]);
    assert_eq!(zero.verify_hash(&[1u8; 32], &[1u8; 64]), Err(CryptoError::InvalidPublicKey));
}

#[test]
fn non_standard_signature_is_an_error() {
    let mut pub_key = PubKey::new(public_of(&[7u8; 32]));
    assert_eq!(pub_key.verify_hash(&[1u8; 32], &[0xFFu8; 64]), Err(CryptoError::InvalidSignature));
}

#[test]
fn message_signing_hashes_with_blake3() {
    let secret = [5u8; 32];
    let priv_key = PrivKey::new(secret).ok().unwrap();
    let mut pub_key = PubKey::new(public_of(&secret));
    let msg = b"hello node";
    let digest = *blake3::hash(msg).as_bytes();
    assert_eq!(blake3_hash(msg), digest);
    let sig = priv_key.sign(msg);
    assert_eq!(sig, priv_key.sign_hash(&digest));
    assert_eq!(pub_key.verify(msg, &sig), Ok(true));
    assert_eq!(pub_key.verify(b"hello nodf", &sig), Ok(false));
}

#[test]
fn signing_is_deterministic() {
    let priv_key = PrivKey::new([9u8; 32]).ok().unwrap();
    assert_eq!(priv_key.sign_hash(&[3u8; 32]), priv_key.sign_hash(&[3u8; 32]));
    assert_ne!(priv_key.sign_hash(&[3u8; 32]), priv_key.sign_hash(&[4u8; 32]));
}

#[test]
fn signed_identity_digest_covers_tag_challenge_and_time() {
    let challenge = [0xABu8; 32];
    let ts: i64 = 1_700_000_000_123;
    let mut preimage = vec![0u8];
    preimage.extend_from_slice(&challenge);
    preimage.extend_from_slice(&ts.to_le_bytes());
    let expected = *blake3::hash(&preimage).as_bytes();
    assert_eq!(*SignedMsg::from_identity(&challenge, ts).hash(), expected);
    assert_ne!(*SignedMsg::from_identity(&challenge, ts + 1).hash(), expected);
    assert_eq!(SigmsgType::Dummy.tag(), 0);
}

#[test]
fn signed_identity_negative_time_is_twos_complement() {
    let challenge = [1u8; 32];
    let ts: i64 = -2;
    let mut preimage = vec![0u8];
    preimage.extend_from_slice(&challenge);
    preimage.extend_from_slice(&[0xFE, 0xFF, 0xFF, 0xFF, 0xFF, 0xFF, 0xFF, 0xFF]);
    assert_eq!(*SignedMsg::from_identity(&challenge, ts).hash(), *blake3::hash(&preimage).as_bytes());
}

#[test]
fn signed_msg_sign_and_verify() {
    let secret = [11u8; 32];
    let priv_key = PrivKey::new(secret).ok().unwrap();
    let mut pub_key = PubKey::new(public_of(&secret));
    let m = SignedMsg::from_identity(&[2u8; 32], 1000);
    let sig = m.sign(&priv_key);
    assert_eq!(m.verify(&mut pub_key, &sig), Ok(true));
    let other = SignedMsg::from_identity(&[2u8; 32], 1001);
    assert_eq!(other.verify(&mut pub_key, &sig), Ok(false));
}

#[test]
fn random_secrets_are_valid_and_differ() {
    let a = random_secret();
    let b = random_secret();
    assert!(PrivKey::new(a).is_ok());
    assert!(PrivKey::new(b).is_ok());
    assert_ne!(a, b);
}

const ORDER: [u8; 32] = [
    0xFF, 0xFF, 0xFF, 0xFF, 0xFF, 0xFF, 0xFF, 0xFF, 0xFF, 0xFF, 0xFF, 0xFF, 0xFF, 0xFF, 0xFF, 0xFE,
    0xBA, 0xAE, 0xDC, 0xE6, 0xAF, 0x48, 0xA0, 0x3B, 0xBF, 0xD2, 0x5E, 0x8C, 0xD0, 0x36, 0x41, 0x41,
];

/// The signature (r, n - s).
fn high_s_twin(sig: &[u8; 64]) -> [u8; 64] {
    let mut out = *sig;
    let mut borrow = 0i32;
    for i in (0..32).rev() {
        let mut d = ORDER[i] as i32 - sig[32 + i] as i32 - borrow;
        borrow = 0;
        if d < 0 {
            d += 256;
            borrow = 1;
        }
        out[32 + i] = d as u8;
    }
    out
}

#[test]
fn signatures_have_low_s() {
    let priv_key = PrivKey::new([7u8; 32]).ok().unwrap();
    for b in 0u8..8 {
        let sig = priv_key.sign_hash(&[b; 32]);
        // s <= (n - 1) / 2: the top byte of s is below 0x80
        assert!(sig[32] < 0x80);
    }
}

#[test]
fn high_s_twin_is_rejected() {
    let secret = [7u8; 32];
    let priv_key = PrivKey::new(secret).ok().unwrap();
    let mut pub_key = PubKey::new(public_of(&secret));
    let hash = [42u8; 32];
    let sig = priv_key.sign_hash(&hash);
    let twin = high_s_twin(&sig);
    assert_ne!(twin, sig);
    // libsecp256k1 itself accepts the twin; the node refuses it.
    let lib_sig = libsecp256k1::Signature::parse_standard(&twin).unwrap();
    let lib_key = libsecp256k1::PublicKey::parse_compressed(&public_of(&secret)).unwrap();
    assert!(libsecp256k1::verify(&libsecp256k1::Message::parse(&hash), &lib_sig, &lib_key));
    assert_eq!(pub_key.verify_hash(&hash, &twin), Err(CryptoError::InvalidSignature));
    assert_eq!(pub_key.verify_hash(&hash, &sig), Ok(true));
}

#[test]
fn largest_low_s_passes_the_form_check() {
    let secret = [7u8; 32];
    let mut pub_key = PubKey::new(public_of(&secret));
    let mut sig = [1u8; 64];
    let half: [u8; 32] = [
        0x7F, 0xFF, 0xFF, 0xFF, 0xFF, 0xFF, 0xFF, 0xFF, 0xFF, 0xFF, 0xFF, 0xFF, 0xFF, 0xFF, 0xFF, 0xFF,
        0x5D, 0x57, 0x6E, 0x73, 0x57, 0xA4, 0x50, 0x1D, 0xDF, 0xE9, 0x2F, 0x46, 0x68, 0x1B, 0x20, 0xA0,
    ];
    sig[32..].copy_from_slice(&half);
    assert_eq!(pub_key.verify_hash(&[0u8; 32], &sig), Ok(false));
    sig[63] = 0xA1;
    assert_eq!(pub_key.verify_hash(&[0u8; 32], &sig), Err(CryptoError::InvalidSignature));
}

#[test]
fn off_curve_x_is_an_invalid_point() {
    // x = 0 gives x^3 + 7 = 7, which has no square root modulo the field prime.
    let mut key = [0u8; 33];
    key[0] = 2;
    let mut k = PubKey::new(key);
    assert_eq!(k.verify_hash(&[1u8; 32], &[1u8; 64]), Err(CryptoError::InvalidPublicKey));
    // x at or above the field prime is refused too.
    let mut big = [0xFFu8; 33];
    big[0] = 3;
    let mut k2 = PubKey::new(big);
    assert_eq!(k2.verify_hash(&[1u8; 32], &[1u8; 64]), Err(CryptoError::InvalidPublicKey));
}
