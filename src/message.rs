//! The messages that peers exchange on a stream, once decoded.

use crate::crypto::PubKey;
use vstd::prelude::*;

verus! {

/// The kind of a message, sent as a small integer.
#[derive(Clone, Copy, Debug, PartialEq, Eq, Structural)]
pub enum MessageHeader {
    /// A client declares what the stream is for.
    StreamIdentify,
    /// A client identifies itself with public keys.
    Identify,
    /// A peer reports an error.
    Error,
}

impl MessageHeader {
    pub open spec fn spec_code(self) -> u64 {
        match self {
            MessageHeader::StreamIdentify => 0,
            MessageHeader::Identify => 1,
            MessageHeader::Error => 2,
        }
    }

    /// The integer the header is sent as.
    pub fn code(&self) -> (r: u64)
        ensures
            r == self.spec_code(),
    {
        match self {
            MessageHeader::StreamIdentify => 0,
            MessageHeader::Identify => 1,
            MessageHeader::Error => 2,
        }
    }

    /// The header sent as `code`; `None` for a code this node does not know,
    /// which is ignored rather than refused.
    pub fn from_code(code: u64) -> (r: Option<MessageHeader>)
        ensures
            r matches Some(h) ==> h.spec_code() == code,
            r is None ==> code > 2,
    {
        if code == 0 {
            Some(MessageHeader::StreamIdentify)
        } else if code == 1 {
            Some(MessageHeader::Identify)
        } else if code == 2 {
            Some(MessageHeader::Error)
        } else {
            None
        }
    }
}

/// What a stream is for.
#[derive(Clone, Copy, Debug, PartialEq, Eq, Structural)]
pub enum StreamIdentify {
    /// A stream of ordinary events.
    Normal,
    /// A stream of administrative requests.
    Administration,
}

/// One claimed key and its signature over the identifier's challenge.
#[derive(Clone, Copy)]
pub struct Identity {
    /// The key claimed.
    pub key: PubKey,
    /// The signature of the challenge digest.
    pub signature: [u8; 64],
}

/// The payload of an identify message: claims over one challenge and time.
#[derive(Clone)]
pub struct Identifier {
    /// The claims.
    pub identities: Vec<Identity>,
    /// When the claims were made, in milliseconds since the Unix epoch.
    pub timestamp: i64,
    /// The challenge that the claims sign.
    pub sig_msg: [u8; 32],
}

} // verus!
