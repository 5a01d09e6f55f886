use quicnode::connection::{CancelError, Client, ConnectionAction, ConnectionEvent, ConnectionPhase, ReceiveError, MAX_MESSAGE_BYTES};
use quicnode::crypto::{PrivKey, PubKey, SignedMsg};
use quicnode::message::{Identifier, Identity, MessageHeader, StreamIdentify};

fn public_of(secret: &[u8; 32]) -> [u8; 33] {
    let sk = libsecp256k1::SecretKey::parse(secret).unwrap();
    libsecp256k1::PublicKey::from_secret_key(&sk).serialize_compressed()
}

fn claim(secret: [u8; 32], challenge: &[u8; 32], ts: i64) -> Identity {
    let sig = SignedMsg::from_identity(challenge, ts).sign(&PrivKey::new(secret).ok().unwrap());
    Identity { key: PubKey::new(public_of(&secret)), signature: sig }
}

#[test]
fn valid_claim_kept_invalid_dropped() {
    let challenge = [5u8; 32];
    let ts = 1_650_000_000_000;
    let good = claim([1u8; 32], &challenge, ts);
    let mut bad = claim([2u8; 32], &challenge, ts);
    bad.signature[10] ^= 1;
    let id = Identifier { identities: vec![good, bad], timestamp: ts, sig_msg: challenge };
    let mut c = Client::new();
    assert_eq!(c.step(ConnectionEvent::Identify(id)), ConnectionAction::Continue);
    assert!(c.has_identity(&public_of(&[1u8; 32])));
    assert!(!c.has_identity(&public_of(&[2u8; 32])));
    assert_eq!(c.identity_count(), 1);
    assert_eq!(c.current_phase(), ConnectionPhase::Identified);
}

#[test]
fn claim_over_other_challenge_is_dropped() {
    let ts = 1_650_000_000_000;
    let c1 = claim([1u8; 32], &[5u8; 32], ts);
    let id = Identifier { identities: vec![c1], timestamp: ts, sig_msg: [6u8; 32] };
    let mut c = Client::new();
    c.process_identifier(&id);
    assert_eq!(c.identity_count(), 0);
    assert_eq!(c.step(ConnectionEvent::Identify(id)), ConnectionAction::Continue);
    assert_eq!(c.current_phase(), ConnectionPhase::Connected);
}

#[test]
fn malformed_key_claim_is_dropped() {
    let ts = 7;
    let good = claim([3u8; 32], &[1u8; 32], ts);
    let broken = Identity { key: PubKey::default(), signature: good.signature };
    let id = Identifier { identities: vec![broken, good], timestamp: ts, sig_msg: [1u8; 32] };
    let mut c = Client::new();
    c.process_identifier(&id);
    assert_eq!(c.identity_count(), 1);
    assert!(c.has_identity(&public_of(&[3u8; 32])));
}

#[test]
fn reasserting_a_key_changes_nothing() {
    let ts = 99;
    let a = claim([4u8; 32], &[2u8; 32], ts);
    let id = Identifier { identities: vec![a, a], timestamp: ts, sig_msg: [2u8; 32] };
    let mut c = Client::new();
    c.process_identifier(&id);
    c.process_identifier(&id);
    assert_eq!(c.identity_count(), 1);
}

#[test]
fn cancellation_ends_the_connection() {
    let mut c = Client::new();
    assert_eq!(c.step(ConnectionEvent::Failed(ReceiveError::Cancelled(CancelError))), ConnectionAction::Close);
    assert_eq!(c.current_phase(), ConnectionPhase::Closed);
    let ts = 5;
    let later = Identifier { identities: vec![claim([1u8; 32], &[0u8; 32], ts)], timestamp: ts, sig_msg: [0u8; 32] };
    assert_eq!(c.step(ConnectionEvent::Identify(later)), ConnectionAction::Close);
    assert_eq!(c.identity_count(), 0);
    assert_eq!(c.step(ConnectionEvent::StreamIdentify(StreamIdentify::Normal)), ConnectionAction::Close);
    assert_eq!(c.stream_class(), None);
}

#[test]
fn stream_failure_ends_the_connection() {
    let mut c = Client::new();
    assert_eq!(c.step(ConnectionEvent::Failed(ReceiveError::Protocol)), ConnectionAction::Close);
    let mut d = Client::new();
    assert_eq!(d.step(ConnectionEvent::Failed(ReceiveError::Deserialize)), ConnectionAction::Close);
    assert_eq!(d.current_phase(), ConnectionPhase::Closed);
}

#[test]
fn stream_identify_declares_purpose() {
    let mut c = Client::new();
    assert_eq!(c.current_phase(), ConnectionPhase::Connected);
    assert_eq!(c.step(ConnectionEvent::StreamIdentify(StreamIdentify::Administration)), ConnectionAction::Continue);
    assert_eq!(c.stream_class(), Some(StreamIdentify::Administration));
    assert_eq!(c.current_phase(), ConnectionPhase::Identifying);
}

#[test]
fn error_and_unknown_messages_are_ignored() {
    let mut c = Client::new();
    assert_eq!(c.step(ConnectionEvent::PeerError), ConnectionAction::Continue);
    assert_eq!(c.step(ConnectionEvent::Unknown), ConnectionAction::Continue);
    assert_eq!(c.current_phase(), ConnectionPhase::Connected);
}

#[test]
fn cancel_error_message() {
    assert_eq!(CancelError.message(), "the read from the stream was cancelled");
    assert_eq!(MAX_MESSAGE_BYTES, 32768);
}

#[test]
fn header_codes() {
    assert_eq!(MessageHeader::StreamIdentify.code(), 0);
    assert_eq!(MessageHeader::Identify.code(), 1);
    assert_eq!(MessageHeader::Error.code(), 2);
    assert_eq!(MessageHeader::from_code(1), Some(MessageHeader::Identify));
    assert_eq!(MessageHeader::from_code(2), Some(MessageHeader::Error));
    assert_eq!(MessageHeader::from_code(3), None);
}

#[test]
fn identity_count_counts_distinct_keys() {
    let ts = 42;
    let a = claim([1u8; 32], &[3u8; 32], ts);
    let b = claim([2u8; 32], &[3u8; 32], ts);
    let id = Identifier { identities: vec![a, b, a], timestamp: ts, sig_msg: [3u8; 32] };
    let mut c = Client::new();
    c.process_identifier(&id);
    assert_eq!(c.identity_count(), 2);
}
