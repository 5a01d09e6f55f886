//! The node service: its configuration, its storage backend, and the
//! address it listens on.

use crate::config::Configuration;
use std::sync::Arc;
use vstd::prelude::*;
use vstd::string::StringSliceAdditionalSpecFns;

verus! {

/// A node that serves connections.
pub struct NodeService<T> {
    config: Arc<Configuration>,
    db: T,
}

impl<T> NodeService<T> {
    pub fn new(config: Arc<Configuration>, db: T) -> (r: Self)
        ensures
            r.spec_config() == *config,
            r.spec_db() == db,
    {
        NodeService { config, db }
    }

    pub closed spec fn spec_config(&self) -> Configuration {
        *self.config
    }

    pub closed spec fn spec_db(&self) -> T {
        self.db
    }

    /// The node's configuration.
    pub fn config(&self) -> (r: &Configuration)
        ensures
            *r == self.spec_config(),
    {
        &self.config
    }

    /// The node's storage backend.
    pub fn db(&mut self) -> (r: &mut T)
        ensures
            *r == old(self).spec_db(),
            final(self).spec_config() == old(self).spec_config(),
            final(self).spec_db() == *final(r),
    {
        &mut self.db
    }
}

/// The decimal digits of `n`, most significant first.
pub open spec fn decimal(n: nat) -> Seq<char>
    decreases n,
{
    if n < 10 {
        seq![digit_char(n)]
    } else {
        decimal(n / 10).push(digit_char(n % 10))
    }
}

pub open spec fn digit_char(d: nat) -> char {
    if d == 0 { '0' } else if d == 1 { '1' } else if d == 2 { '2' } else if d == 3 { '3' }
    else if d == 4 { '4' } else if d == 5 { '5' } else if d == 6 { '6' } else if d == 7 { '7' }
    else if d == 8 { '8' } else { '9' }
}

/// The text of a socket address: an IPv6 address, which holds a colon,
/// goes in brackets.
pub open spec fn address_text(ip: &str, port: u16) -> Seq<char> {
    if ip.spec_bytes().contains(58u8) {
        seq!['['] + ip@ + seq![']', ':'] + decimal(port as nat)
    } else {
        ip@ + seq![':'] + decimal(port as nat)
    }
}

/// Relies on the standard library's Display of integers: the decimal
/// digits without sign or leading zeros.
#[verifier::external_body]
fn port_text(port: u16) -> (r: String)
    ensures
        r@ == decimal(port as nat),
{
    port.to_string()
}

/// The text of the socket address for `ip` and `port`, ready to be parsed.
pub fn socket_address_text(ip: &str, port: u16) -> (r: String)
    ensures
        r@ == address_text(ip, port),
{
    let bytes = ip.as_bytes();
    let mut has_colon = false;
    let mut i: usize = 0;
    while i < bytes.len()
        invariant
            i <= bytes@.len(),
            bytes@ == ip.spec_bytes(),
            has_colon <==> exists|j: int| 0 <= j < i && bytes@[j] == 58u8,
        decreases bytes@.len() - i,
    {
        if bytes[i] == 58u8 {
            has_colon = true;
        }
        i = i + 1;
    }
    proof {
        if has_colon {
            let j = choose|j: int| 0 <= j < bytes@.len() && bytes@[j] == 58u8;
            assert(ip.spec_bytes().contains(58u8));
        }
    }
    let digits = port_text(port);
    let mut r = String::new();
    if has_colon {
        r.append("[");
        r.append(ip);
        r.append("]:");
    } else {
        r.append(ip);
        r.append(":");
    }
    r.append(digits.as_str());
    proof {
        reveal_strlit("[");
        reveal_strlit("]:");
        reveal_strlit(":");
    }
    assert(r@ =~= address_text(ip, port));
    r
}

} // verus!
