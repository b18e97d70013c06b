//! The session table: sessions filed by identifier, in ascending order of
//! identifier.
use vstd::prelude::*;

use std::collections::BTreeMap;
use vstd::std_specs::cmp::OrdSpec;
use vstd::std_specs::iter::IteratorSpec;

use crate::protocol::SessionID;
use crate::session::{Session, Sessions};

verus! {

/// A session record that a table files by identifier.
pub trait SessionRecord {
    /// Whether the record is valid as a value: no transport listed twice.
    spec fn valid(&self) -> bool;

    /// The identifier the record carries.
    spec fn record_id(&self) -> SessionID;

    /// Whether the record is valid ([`SessionRecord::valid`]).
    fn is_valid(&self) -> (b: bool)
        ensures
            b == self.valid(),
    ;
}

/// Every record of the table is valid.
pub open spec fn table_valid<S: SessionRecord>(m: Map<SessionID, S>) -> bool {
    forall|k: SessionID| #[trigger] m.contains_key(k) ==> m[k].valid()
}

/// Every record of the table is filed under the identifier it carries.
pub open spec fn table_filed<S: SessionRecord>(m: Map<SessionID, S>) -> bool {
    forall|k: SessionID| #[trigger] m.contains_key(k) ==> m[k].record_id() == k
}

/// Whether a sequence of identifiers is strictly increasing (so it lists
/// each identifier once, in ascending order).
pub open spec fn ascending(s: Seq<SessionID>) -> bool {
    forall|i: int, j: int| 0 <= i < j < s.len() ==> s[i] < s[j]
}

/// The identifiers of all sessions, in ascending order.
pub fn session_ids(sessions: &Sessions) -> (ids: Vec<SessionID>)
    ensures
        ascending(ids@),
        ids@.to_set() == sessions@.dom(),
{
    let mut ids: Vec<SessionID> = Vec::new();
    let entries = sessions.iter();
    let ghost remaining = IteratorSpec::remaining(&entries);
    let ghost all = remaining.map_values(|kv: (&SessionID, &Session)| *kv.0);
    for entry in it: entries
        invariant
            it.seq() == remaining,
            all == remaining.map_values(|kv: (&SessionID, &Session)| *kv.0),
            ids@ == all.take(it.index()),
    {
        let (id, _) = entry;
        ids.push(*id);
        proof {
            assert(ids@ =~= all.take(it.index() + 1));
        }
    }
    proof {
        assert(ids@ =~= all);
        assert(vstd::std_specs::btree::increasing_seq(all));
        assert(vstd::laws_cmp::obeys_cmp::<u32>());
        assert forall|i: int, j: int| 0 <= i < j < all.len() implies all[i] < all[j] by {
            assert(all[i].cmp_spec(&all[j]) is Less);
        }
        assert(ids@.to_set() =~= sessions@.dom()) by {
            assert forall|k: SessionID| #[trigger] ids@.contains(k) <==> sessions@.contains_key(k) by {
                if ids@.contains(k) {
                    let i = choose|i: int| 0 <= i < ids@.len() && ids@[i] == k;
                    assert(all[i] == *remaining[i].0);
                }
                if sessions@.contains_key(k) {
                    assert(remaining.contains((&k, &sessions@[k])));
                    let i = choose|i: int| 0 <= i < remaining.len() && remaining[i] == (&k, &sessions@[k]);
                    assert(all[i] == k);
                }
            }
        }
    }
    ids
}

/// Whether every record of the table is valid ([`table_valid`]).
pub fn table_is_valid<S: SessionRecord>(sessions: &BTreeMap<SessionID, S>) -> (b: bool)
    ensures
        b == table_valid(sessions@),
{
    let entries = sessions.iter();
    let ghost remaining = IteratorSpec::remaining(&entries);
    let mut ok = true;
    for entry in it: entries
        invariant
            it.seq() == remaining,
            ok == forall|i: int| 0 <= i < it.index() ==> #[trigger] remaining[i].1.valid(),
    {
        let (_, session) = entry;
        proof {
            let i = it.index();
            assert(entry == remaining[i]);
            assert(0 <= i < remaining.len());
        }
        let good = session.is_valid();
        ok = ok && good;
    }
    if !ok {
        proof {
            let i = choose|i: int| 0 <= i < remaining.len() && !remaining[i].1.valid();
            let k = *remaining[i].0;
            assert(sessions@.contains_key(k) && sessions@[k] == *remaining[i].1);
        }
        return false;
    }
    proof {
        assert forall|k: SessionID| #[trigger] sessions@.contains_key(k) implies sessions@[k].valid() by {
            assert(remaining.contains((&k, &sessions@[k])));
            let i = choose|i: int| 0 <= i < remaining.len() && remaining[i] == (&k, &sessions@[k]);
            assert(remaining[i].1.valid());
        }
    }
    true
}

} // verus!
