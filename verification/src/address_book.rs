//! Which session each open connection speaks for: a one-to-one pairing of
//! peer addresses with session identifiers, kept in a `bimap::BiHashMap`.
use vstd::prelude::*;

use bimap::BiHashMap;
use std::collections::hash_map::RandomState;

use crate::protocol::{PeerAddress, SessionID};

verus! {

/// `bimap::BiHashMap`, whose contents Verus sees through [`pairs_of`].
#[verifier::external_type_specification]
#[verifier::external_body]
#[verifier::reject_recursive_types(L)]
#[verifier::reject_recursive_types(R)]
#[verifier::reject_recursive_types(LS)]
#[verifier::reject_recursive_types(RS)]
pub struct ExBiHashMap<L, R, LS, RS>(BiHashMap<L, R, LS, RS>);

/// A bimap of peer addresses and sessions.
pub type PairMap = BiHashMap<PeerAddress, SessionID, RandomState, RandomState>;

/// The pairs a bimap of addresses and sessions holds, as a map from address
/// to session.
pub uninterp spec fn pairs_of(m: PairMap) -> Map<PeerAddress, SessionID>;

/// Whether no session is paired with two addresses.
pub open spec fn one_to_one(m: Map<PeerAddress, SessionID>) -> bool {
    forall|a: PeerAddress, b: PeerAddress|
        #[trigger] m.contains_key(a) && #[trigger] m.contains_key(b) && m[a] == m[b] ==> a == b
}

/// `m` after pairing `address` with `id`: every pair that held `address` or
/// `id` is dropped, then the new pair is added.
pub open spec fn rebind(m: Map<PeerAddress, SessionID>, address: PeerAddress, id: SessionID) -> Map<
    PeerAddress,
    SessionID,
> {
    Map::new(
        |a: PeerAddress| a == address || (m.contains_key(a) && m[a] != id),
        |a: PeerAddress| if a == address { id } else { m[a] },
    )
}

/// An empty bimap (`BiHashMap::new`).
#[verifier::external_body]
fn bimap_new() -> (fresh: PairMap)
    ensures
        pairs_of(fresh).is_empty(),
{
    BiHashMap::new()
}

/// The session paired with `address` (`BiHashMap::get_by_left`).
#[verifier::external_body]
fn bimap_get_by_left(m: &PairMap, address: &PeerAddress) -> (r: Option<SessionID>)
    ensures
        r == (if pairs_of(*m).contains_key(*address) {
            Some(pairs_of(*m)[*address])
        } else {
            None
        }),
{
    m.get_by_left(address).copied()
}

/// The address paired with `id` (`BiHashMap::get_by_right`).
#[verifier::external_body]
fn bimap_get_by_right(m: &PairMap, id: &SessionID) -> (r: Option<PeerAddress>)
    ensures
        match r {
            Some(a) => pairs_of(*m).contains_key(a) && pairs_of(*m)[a] == *id,
            None => forall|a: PeerAddress| #[trigger] pairs_of(*m).contains_key(a) ==> pairs_of(*m)[a] != *id,
        },
{
    m.get_by_right(id).copied()
}

/// Pairs `address` with `id`, dropping any pair that held either
/// (`BiHashMap::insert`; what it reports of the dropped pairs is not kept).
#[verifier::external_body]
fn bimap_insert(m: &mut PairMap, address: PeerAddress, id: SessionID)
    ensures
        pairs_of(*final(m)) == rebind(pairs_of(*old(m)), address, id),
{
    m.insert(address, id);
}

/// Drops the pair that holds `address` (`BiHashMap::remove_by_left`),
/// returning it.
#[verifier::external_body]
fn bimap_remove_by_left(m: &mut PairMap, address: &PeerAddress) -> (r: Option<(PeerAddress, SessionID)>)
    ensures
        pairs_of(*final(m)) == pairs_of(*old(m)).remove(*address),
        r == (if pairs_of(*old(m)).contains_key(*address) {
            Some((*address, pairs_of(*old(m))[*address]))
        } else {
            None
        }),
{
    m.remove_by_left(address)
}

/// The sessions of all pairs (`BiHashMap::right_values`), in the order the
/// underlying hash map is walked, which this contract leaves open.
#[verifier::external_body]
fn bimap_right_values(m: &PairMap) -> (r: Vec<SessionID>)
    ensures
        r@.to_set() == pairs_of(*m).values(),
        r@.len() == pairs_of(*m).len(),
{
    m.right_values().copied().collect()
}

/// The pairing of open connections with sessions.
pub struct AddressSessions {
    pairs: PairMap,
}

impl View for AddressSessions {
    type V = Map<PeerAddress, SessionID>;

    closed spec fn view(&self) -> Map<PeerAddress, SessionID> {
        pairs_of(self.pairs)
    }
}

impl AddressSessions {
    /// The pairing's invariant: it is one-to-one and finite.
    #[verifier::type_invariant]
    spec fn one_to_one_and_finite(&self) -> bool {
        one_to_one(pairs_of(self.pairs)) && pairs_of(self.pairs).dom().finite()
    }

    /// An empty pairing.
    pub fn new() -> (book: Self)
        ensures
            book@ == Map::<PeerAddress, SessionID>::empty(),
    {
        AddressSessions { pairs: bimap_new() }
    }

    /// The session the connection from `address` speaks for, if any.
    pub fn get_session_id(&self, address: &PeerAddress) -> (r: Option<SessionID>)
        ensures
            r == (if self@.contains_key(*address) {
                Some(self@[*address])
            } else {
                None
            }),
    {
        bimap_get_by_left(&self.pairs, address)
    }

    /// The address of the connection that speaks for `id`, if any.
    pub fn get_address(&self, id: &SessionID) -> (r: Option<PeerAddress>)
        ensures
            match r {
                Some(a) => self@.contains_key(a) && self@[a] == *id,
                None => !self@.values().contains(*id),
            },
    {
        proof {
            use_type_invariant(self);
        }
        bimap_get_by_right(&self.pairs, id)
    }

    /// Records that the connection from `address` speaks for `id`; any
    /// earlier pairing of either is dropped.
    pub fn bind(&mut self, address: PeerAddress, id: SessionID)
        ensures
            final(self)@ == rebind(old(self)@, address, id),
    {
        proof {
            use_type_invariant(&*self);
        }
        let ghost m = self@;
        let mut pairs = bimap_new();
        std::mem::swap(&mut pairs, &mut self.pairs);
        bimap_insert(&mut pairs, address, id);
        proof {
            let n = pairs_of(pairs);
            assert(n.dom() =~= m.dom().filter(|a: PeerAddress| m[a] != id).insert(address));
            lemma_rebind(m, address, id);
        }
        self.pairs = pairs;
    }

    /// Forgets the connection from `address`, returning the session it
    /// spoke for, if any.
    pub fn unbind(&mut self, address: &PeerAddress) -> (r: Option<SessionID>)
        ensures
            final(self)@ == old(self)@.remove(*address),
            r == (if old(self)@.contains_key(*address) {
                Some(old(self)@[*address])
            } else {
                None
            }),
    {
        proof {
            use_type_invariant(&*self);
        }
        let mut pairs = bimap_new();
        std::mem::swap(&mut pairs, &mut self.pairs);
        let removed = bimap_remove_by_left(&mut pairs, address);
        self.pairs = pairs;
        match removed {
            Some((_, id)) => Some(id),
            None => None,
        }
    }

    /// Every session some connection speaks for, each once, in no promised
    /// order.
    pub fn bound_sessions(&self) -> (ids: Vec<SessionID>)
        ensures
            ids@.no_duplicates(),
            ids@.to_set() == self@.values(),
    {
        proof {
            use_type_invariant(self);
        }
        let ids = bimap_right_values(&self.pairs);
        proof {
            lemma_values_len(self@);
            ids@.lemma_no_dup_set_cardinality();
        }
        ids
    }
}

/// After pairing `address` with `id`: the connection at `address` speaks
/// for `id` and no other connection does; pairs that involved neither stay;
/// the pairing is still one-to-one.
pub proof fn lemma_rebind(m: Map<PeerAddress, SessionID>, address: PeerAddress, id: SessionID)
    requires
        one_to_one(m),
    ensures
        rebind(m, address, id).contains_key(address),
        rebind(m, address, id)[address] == id,
        forall|b: PeerAddress| #[trigger] rebind(m, address, id).contains_key(b) && rebind(m, address, id)[b] == id ==> b == address,
        forall|b: PeerAddress|
            #[trigger] m.contains_key(b) && b != address && m[b] != id ==> rebind(m, address, id).contains_key(b)
                && rebind(m, address, id)[b] == m[b],
        one_to_one(rebind(m, address, id)),
{
}

/// Pairing a new connection with a session that no connection spoke for,
/// then forgetting the connection, gives back the pairing as it was.
pub proof fn lemma_bind_then_unbind(m: Map<PeerAddress, SessionID>, address: PeerAddress, id: SessionID)
    requires
        !m.contains_key(address),
        !m.values().contains(id),
    ensures
        rebind(m, address, id).remove(address) == m,
{
    assert forall|a: PeerAddress| #[trigger] m.contains_key(a) implies m[a] != id by {
        if m[a] == id {
            assert(m.values().contains(m[a]));
        }
    }
    assert(rebind(m, address, id).remove(address) =~= m);
}

/// A one-to-one finite map has as many values as keys.
proof fn lemma_values_len(m: Map<PeerAddress, SessionID>)
    requires
        one_to_one(m),
        m.dom().finite(),
    ensures
        m.values().len() == m.len(),
        m.values().finite(),
    decreases m.len(),
{
    if m.len() == 0 {
        assert(m.values() =~= Set::<SessionID>::empty());
    } else {
        let a = m.dom().choose();
        let rest = m.remove(a);
        assert(one_to_one(rest));
        lemma_values_len(rest);
        assert(m.values() =~= rest.values().insert(m[a]));
        assert(!rest.values().contains(m[a]));
    }
}

} // verus!
