//! What the node asks of a storage backend.

use crate::crypto::PubKey;
use crate::user::SubAccount;
use vstd::prelude::*;

verus! {

/// A storage backend that knows the accounts of a key.
pub trait DbApi {
    /// The accounts of a proved key, or an error where there are none to
    /// be had.
    fn get_subaccounts(&mut self, key: &PubKey) -> Result<Vec<SubAccount>, ()>;
}

/// The backend of a node that stores nothing: every lookup fails.
pub struct EmptyDb {}

impl DbApi for EmptyDb {
    fn get_subaccounts(&mut self, _key: &PubKey) -> Result<Vec<SubAccount>, ()> {
        Err(())
    }
}

} // verus!
