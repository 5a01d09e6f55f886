//! Users and the accounts that receive their messages.

use crate::crypto::PubKey;
use vstd::prelude::*;

verus! {

/// Someone who sends messages to other clients or stores them.
#[derive(Clone)]
pub struct User {
    /// The user's main nickname.
    pub nickname: String,
    /// The user's key.
    pub pub_key: PubKey,
}

/// An account that receives messages.
#[derive(Clone, Copy)]
pub struct SubAccount {
    /// The account's key.
    pub pub_key: PubKey,
    pub publicity: Publicity,
}

/// Whether an account can be found by others.
#[derive(Clone, Copy, Debug, PartialEq, Eq, Structural)]
pub enum Publicity {
    Public,
    Private,
}

} // verus!
