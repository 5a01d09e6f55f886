//! What one connection does with the messages it receives: it records the
//! stream's purpose, checks identity claims, and keeps the set of keys that
//! the peer has proved it holds.

use crate::crypto::{blake3_of, challenge_preimage, verify_outcome, CryptoError, PubKey, SignedMsg};
use crate::message::{Identifier, StreamIdentify};
use vstd::prelude::*;

verus! {

broadcast use vstd::string::to_string_from_display_ensures_for_str;

/// The most bytes one framed message may take.
pub const MAX_MESSAGE_BYTES: u64 = 32768;

/// A receive that was cancelled before a message arrived.
#[derive(Clone, Copy, Debug, PartialEq, Eq, Structural)]
pub struct CancelError;

impl CancelError {
    /// The description of the error.
    pub fn message(&self) -> (r: String)
        ensures
            r@ == "the read from the stream was cancelled"@,
    {
        "the read from the stream was cancelled".to_string()
    }
}

/// Why a receive produced no message.
#[derive(Clone, Copy, Debug, PartialEq, Eq, Structural)]
pub enum ReceiveError {
    /// The supervisor cancelled the receive.
    Cancelled(CancelError),
    /// The stream failed or closed.
    Protocol,
    /// The bytes are not a message, or not the payload its header names.
    Deserialize,
}

/// Where a connection stands.
#[derive(Clone, Copy, Debug, PartialEq, Eq, Structural)]
pub enum ConnectionPhase {
    /// Nothing has been declared yet.
    Connected,
    /// The stream's purpose has been declared.
    Identifying,
    /// At least one key has been proved.
    Identified,
    /// The connection is over; nothing more is processed.
    Closed,
}

/// One outcome of a receive, with its payload decoded.
pub enum ConnectionEvent {
    StreamIdentify(StreamIdentify),
    Identify(Identifier),
    /// A peer reported an error; nothing is done with it yet.
    PeerError,
    /// A header this node does not know; ignored.
    Unknown,
    /// No message could be had.
    Failed(ReceiveError),
}

/// What the receive loop does next.
#[derive(Clone, Copy, Debug, PartialEq, Eq, Structural)]
pub enum ConnectionAction {
    /// Receive the next message.
    Continue,
    /// Close the connection.
    Close,
}

/// The digest that the claims of `id` sign.
pub open spec fn identifier_digest(id: Identifier) -> Seq<u8> {
    blake3_of(challenge_preimage(id.sig_msg@, id.timestamp))
}

/// Whether the `i`-th claim of `id` carries a valid signature.
pub open spec fn claim_accepted(id: Identifier, i: int) -> bool {
    verify_outcome(id.identities@[i].key@, identifier_digest(id), id.identities@[i].signature@)
        == Ok::<bool, CryptoError>(true)
}

/// The keys of the accepted claims among the first `n` claims of `id`.
pub open spec fn accepted_keys(id: Identifier, n: int) -> Set<Seq<u8>> {
    Set::new(|k: Seq<u8>| exists|i: int| 0 <= i < n && id.identities@[i].key@ == k && claim_accepted(id, i))
}

/// The identity set after `event`, from `set` in `phase`.
pub open spec fn identities_after(set: Set<Seq<u8>>, phase: ConnectionPhase, event: ConnectionEvent) -> Set<Seq<u8>> {
    if phase == ConnectionPhase::Closed {
        set
    } else {
        match event {
            ConnectionEvent::Identify(id) => set.union(accepted_keys(id, id.identities@.len() as int)),
            _ => set,
        }
    }
}

/// The phase after `event`, from `set` in `phase`.
pub open spec fn phase_after(set: Set<Seq<u8>>, phase: ConnectionPhase, event: ConnectionEvent) -> ConnectionPhase {
    if phase == ConnectionPhase::Closed {
        ConnectionPhase::Closed
    } else {
        match event {
            ConnectionEvent::Failed(_) => ConnectionPhase::Closed,
            ConnectionEvent::StreamIdentify(_) => {
                if phase == ConnectionPhase::Identified {
                    ConnectionPhase::Identified
                } else {
                    ConnectionPhase::Identifying
                }
            },
            ConnectionEvent::Identify(_) => {
                if identities_after(set, phase, event) != Set::<Seq<u8>>::empty() {
                    ConnectionPhase::Identified
                } else {
                    phase
                }
            },
            _ => phase,
        }
    }
}

/// The declared purpose of the stream after `event`.
pub open spec fn stream_after(stream: Option<StreamIdentify>, phase: ConnectionPhase, event: ConnectionEvent) -> Option<StreamIdentify> {
    if phase == ConnectionPhase::Closed {
        stream
    } else {
        match event {
            ConnectionEvent::StreamIdentify(s) => Some(s),
            _ => stream,
        }
    }
}

/// Whether two keys have the same bytes.
fn same_key(a: &[u8; 33], b: &[u8; 33]) -> (r: bool)
    ensures
        r == (a@ == b@),
{
    let mut i: usize = 0;
    while i < 33
        invariant
            i <= 33,
            forall|j: int| 0 <= j < i ==> a@[j] == b@[j],
        decreases 33 - i,
    {
        if a[i] != b[i] {
            return false;
        }
        i = i + 1;
    }
    assert(a@ =~= b@);
    true
}

/// The state of one connection: its phase, the purpose of its stream and
/// the keys its peer has proved.
pub struct Client {
    identities: Vec<PubKey>,
    stream: Option<StreamIdentify>,
    phase: ConnectionPhase,
}

impl Client {
    /// The keys proved on this connection.
    pub closed spec fn identity_set(&self) -> Set<Seq<u8>> {
        Set::new(|k: Seq<u8>| exists|i: int| 0 <= i < self.identities@.len() && self.identities@[i]@ == k)
    }

    /// The proved keys in the order they were proved.
    spec fn keys(&self) -> Seq<Seq<u8>> {
        self.identities@.map_values(|k: PubKey| k@)
    }

    /// Each key is recorded once.
    #[verifier::type_invariant]
    spec fn keys_distinct(&self) -> bool {
        self.keys().no_duplicates()
    }

    pub closed spec fn phase(&self) -> ConnectionPhase {
        self.phase
    }

    pub closed spec fn stream(&self) -> Option<StreamIdentify> {
        self.stream
    }

    /// A new connection: nothing declared, nothing proved.
    pub fn new() -> (r: Self)
        ensures
            r.identity_set() == Set::<Seq<u8>>::empty(),
            r.phase() == ConnectionPhase::Connected,
            r.stream() is None,
    {
        let c = Client { identities: Vec::new(), stream: None, phase: ConnectionPhase::Connected };
        assert(c.identity_set() =~= Set::<Seq<u8>>::empty());
        c
    }

    /// Where the connection stands.
    pub fn current_phase(&self) -> (r: ConnectionPhase)
        ensures
            r == self.phase(),
    {
        self.phase
    }

    /// The declared purpose of the stream.
    pub fn stream_class(&self) -> (r: Option<StreamIdentify>)
        ensures
            r == self.stream(),
    {
        self.stream
    }

    /// Whether `key` has been proved on this connection.
    pub fn has_identity(&self, key: &[u8; 33]) -> (r: bool)
        ensures
            r == self.identity_set().contains(key@),
    {
        let mut i: usize = 0;
        while i < self.identities.len()
            invariant
                i <= self.identities@.len(),
                forall|j: int| 0 <= j < i ==> self.identities@[j]@ != key@,
            decreases self.identities@.len() - i,
        {
            let stored = self.identities[i].bytes();
            if same_key(&stored, key) {
                return true;
            }
            i = i + 1;
        }
        false
    }

    /// The number of keys proved.
    pub fn identity_count(&self) -> (r: usize)
        ensures
            r == self.identity_set().len(),
            r == 0 <==> self.identity_set() == Set::<Seq<u8>>::empty(),
    {
        proof {
            use_type_invariant(self);
            assert forall|k: Seq<u8>| #[trigger] self.identity_set().contains(k) <==> self.keys().to_set().contains(k) by {
                if self.identity_set().contains(k) {
                    let i = choose|i: int| 0 <= i < self.identities@.len() && self.identities@[i]@ == k;
                    assert(self.keys()[i] == k);
                }
                if self.keys().contains(k) {
                    let i = choose|i: int| 0 <= i < self.keys().len() && self.keys()[i] == k;
                    assert(self.identities@[i]@ == k);
                }
            }
            assert(self.identity_set() =~= self.keys().to_set());
            self.keys().unique_seq_to_set();
            if self.identities@.len() > 0 {
                assert(self.identity_set().contains(self.identities@[0]@));
            } else {
                assert(self.identity_set() =~= Set::<Seq<u8>>::empty());
            }
        }
        self.identities.len()
    }

    /// Records a proved key; recording a key twice changes nothing.
    fn insert_identity(&mut self, key: PubKey)
        ensures
            final(self).identity_set() == old(self).identity_set().insert(key@),
            final(self).phase == old(self).phase,
            final(self).stream == old(self).stream,
    {
        let b = key.bytes();
        if self.has_identity(&b) {
            assert(old(self).identity_set().insert(key@) =~= old(self).identity_set());
            return;
        }
        proof {
            use_type_invariant(&*self);
        }
        let ghost before = self.keys();
        let mut ids: Vec<PubKey> = Vec::new();
        std::mem::swap(&mut ids, &mut self.identities);
        assert(self.keys() =~= Seq::<Seq<u8>>::empty());
        ids.push(key);
        proof {
            assert(ids@.map_values(|k: PubKey| k@) =~= before.push(key@));
            assert forall|i: int| 0 <= i < before.len() implies before[i] != key@ by {
                assert(old(self).identities@[i]@ == before[i]);
            }
        }
        std::mem::swap(&mut ids, &mut self.identities);
        proof {
            assert(self.keys() =~= before.push(key@));
            assert forall|i: int| 0 <= i < before.len() implies before[i] != key@ by {
                assert(old(self).identities@[i]@ == before[i]);
            }
        }
        assert forall|k: Seq<u8>| #[trigger] self.identity_set().contains(k) <==> old(self).identity_set().insert(key@).contains(k) by {
            if k == key@ {
                assert(self.identities@[self.identities@.len() - 1]@ == k);
            }
            if old(self).identity_set().contains(k) {
                let i = choose|i: int| 0 <= i < old(self).identities@.len() && old(self).identities@[i]@ == k;
                assert(self.identities@[i]@ == k);
            }
        }
        assert(self.identity_set() =~= old(self).identity_set().insert(key@));
    }

    /// Checks each claim of `id` and records the keys whose signature is
    /// valid; a claim that fails is dropped without touching the others.
    pub fn process_identifier(&mut self, id: &Identifier)
        ensures
            final(self).identity_set() == old(self).identity_set().union(accepted_keys(*id, id.identities@.len() as int)),
            final(self).phase() == old(self).phase(),
            final(self).stream() == old(self).stream(),
    {
        let digest = SignedMsg::from_identity(&id.sig_msg, id.timestamp);
        let mut i: usize = 0;
        assert(accepted_keys(*id, 0) =~= Set::<Seq<u8>>::empty());
        assert(old(self).identity_set().union(accepted_keys(*id, 0)) =~= old(self).identity_set());
        while i < id.identities.len()
            invariant
                i <= id.identities@.len(),
                digest@ == identifier_digest(*id),
                self.identity_set() == old(self).identity_set().union(accepted_keys(*id, i as int)),
                self.phase == old(self).phase,
                self.stream == old(self).stream,
            decreases id.identities@.len() - i,
        {
            let mut key = id.identities[i].key;
            let outcome = digest.verify(&mut key, &id.identities[i].signature);
            let accepted = match outcome {
                Ok(valid) => valid,
                Err(_) => false,
            };
            if accepted {
                self.insert_identity(key);
            }
            proof {
                let next = accepted_keys(*id, i + 1);
                let prev = accepted_keys(*id, i as int);
                assert(claim_accepted(*id, i as int) == accepted);
                if accepted {
                    assert(next =~= prev.insert(id.identities@[i as int].key@));
                } else {
                    assert(next =~= prev);
                }
                assert(self.identity_set() =~= old(self).identity_set().union(next));
            }
            i = i + 1;
        }
    }

    /// Handles one outcome of a receive and says whether to go on. Once the
    /// connection is closed nothing changes any more.
    pub fn step(&mut self, event: ConnectionEvent) -> (r: ConnectionAction)
        ensures
            final(self).identity_set() == identities_after(old(self).identity_set(), old(self).phase(), event),
            final(self).phase() == phase_after(old(self).identity_set(), old(self).phase(), event),
            final(self).stream() == stream_after(old(self).stream(), old(self).phase(), event),
            r == (if final(self).phase() == ConnectionPhase::Closed {
                ConnectionAction::Close
            } else {
                ConnectionAction::Continue
            }),
    {
        proof {
            use_type_invariant(&*self);
        }
        if self.phase == ConnectionPhase::Closed {
            return ConnectionAction::Close;
        }
        match event {
            ConnectionEvent::Failed(_) => {
                self.phase = ConnectionPhase::Closed;
                ConnectionAction::Close
            },
            ConnectionEvent::StreamIdentify(s) => {
                self.stream = Some(s);
                if self.phase != ConnectionPhase::Identified {
                    self.phase = ConnectionPhase::Identifying;
                }
                ConnectionAction::Continue
            },
            ConnectionEvent::Identify(id) => {
                self.process_identifier(&id);
                proof {
                    use_type_invariant(&*self);
                }
                if self.identity_count() > 0 {
                    self.phase = ConnectionPhase::Identified;
                }
                ConnectionAction::Continue
            },
            _ => ConnectionAction::Continue,
        }
    }
}

/// A claim with a valid signature and one without, over distinct keys,
/// leave exactly the valid claim's key in a fresh identity set.
pub proof fn lemma_claim_isolation(id: Identifier)
    requires
        id.identities@.len() == 2,
        claim_accepted(id, 0),
        !claim_accepted(id, 1),
        id.identities@[0].key@ != id.identities@[1].key@,
    ensures
        identities_after(Set::empty(), ConnectionPhase::Connected, ConnectionEvent::Identify(id))
            == Set::empty().insert(id.identities@[0].key@),
        !identities_after(Set::empty(), ConnectionPhase::Connected, ConnectionEvent::Identify(id))
            .contains(id.identities@[1].key@),
{
    let got = identities_after(Set::empty(), ConnectionPhase::Connected, ConnectionEvent::Identify(id));
    assert forall|k: Seq<u8>| #[trigger] got.contains(k) <==> k == id.identities@[0].key@ by {
        if k == id.identities@[0].key@ {
            assert(accepted_keys(id, 2).contains(k));
        }
    }
    assert(got =~= Set::empty().insert(id.identities@[0].key@));
}

/// A connection's identity set only grows: no event takes a proved key away.
pub proof fn lemma_identities_only_grow(set: Set<Seq<u8>>, phase: ConnectionPhase, event: ConnectionEvent)
    ensures
        set.subset_of(identities_after(set, phase, event)),
{
}

/// Once a receive has been cancelled the connection is closed, and no later
/// message is processed: it changes neither the keys nor the phase.
pub proof fn lemma_cancellation_ends(set: Set<Seq<u8>>, phase: ConnectionPhase, later: ConnectionEvent)
    ensures
        ({
            let cancelled = ConnectionEvent::Failed(ReceiveError::Cancelled(CancelError));
            let set1 = identities_after(set, phase, cancelled);
            let phase1 = phase_after(set, phase, cancelled);
            &&& phase1 == ConnectionPhase::Closed
            &&& set1 == set
            &&& identities_after(set1, phase1, later) == set1
            &&& phase_after(set1, phase1, later) == ConnectionPhase::Closed
        }),
{
}

} // verus!
