//! A session's set of transports, kept as a vector that lists each
//! transport at most once.
//!
//! A vector stands in for an ordered set here: vstd's `BTreeSet`
//! specification only holds for keys whose ordering is proved lawful, which
//! a derived `Ord` on [`Transport`] does not give. With two transports, a
//! scan is as cheap as a lookup.
use vstd::prelude::*;

use crate::session::Transport;

verus! {

/// Whether `transports` lists `transport`.
pub fn holds(transports: &Vec<Transport>, transport: &Transport) -> (b: bool)
    ensures
        b == transports@.contains(*transport),
{
    let mut i: usize = 0;
    while i < transports.len()
        invariant
            i <= transports@.len(),
            forall|j: int| 0 <= j < i ==> transports@[j] != *transport,
        decreases transports@.len() - i,
    {
        if transports[i] == *transport {
            return true;
        }
        i = i + 1;
    }
    false
}

/// Whether `transports` lists no transport twice.
pub fn has_no_repeats(transports: &Vec<Transport>) -> (b: bool)
    ensures
        b == transports@.no_duplicates(),
{
    let n = transports.len();
    let mut i: usize = 0;
    while i < n
        invariant
            n == transports@.len(),
            i <= n,
            forall|a: int, b: int| 0 <= a < b < n && a < i ==> transports@[a] != transports@[b],
        decreases n - i,
    {
        let mut j: usize = i + 1;
        while j < n
            invariant
                n == transports@.len(),
                i < n,
                i < j <= n,
                forall|a: int, b: int| 0 <= a < b < n && a < i ==> transports@[a] != transports@[b],
                forall|b: int| i < b < j ==> transports@[i as int] != transports@[b],
            decreases n - j,
        {
            if transports[i] == transports[j] {
                return false;
            }
            j = j + 1;
        }
        i = i + 1;
    }
    true
}

/// Adds `transport` unless it is listed already. Returns whether it was new.
pub fn insert(transports: &mut Vec<Transport>, transport: Transport) -> (added: bool)
    requires
        old(transports)@.no_duplicates(),
    ensures
        final(transports)@.no_duplicates(),
        added == !old(transports)@.contains(transport),
        final(transports)@.to_set() == old(transports)@.to_set().insert(transport),
{
    if holds(transports, &transport) {
        proof {
            assert(old(transports)@.to_set().insert(transport) =~= old(transports)@.to_set());
        }
        false
    } else {
        transports.push(transport);
        proof {
            let s = old(transports)@;
            assert(transports@ == s.push(transport));
            assert(transports@.to_set() =~= s.to_set().insert(transport)) by {
                assert forall|t: Transport| #[trigger] transports@.contains(t) <==> (s.contains(t) || t
                    == transport) by {
                    if s.contains(t) {
                        let j = choose|j: int| 0 <= j < s.len() && s[j] == t;
                        assert(transports@[j] == t);
                    }
                    if t == transport {
                        assert(transports@[s.len() as int] == t);
                    }
                }
            }
        }
        true
    }
}

/// Removes `transport` if it is listed. Returns whether it was.
pub fn remove(transports: &mut Vec<Transport>, transport: &Transport) -> (removed: bool)
    requires
        old(transports)@.no_duplicates(),
    ensures
        final(transports)@.no_duplicates(),
        removed == old(transports)@.contains(*transport),
        final(transports)@.to_set() == old(transports)@.to_set().remove(*transport),
{
    let mut i: usize = 0;
    while i < transports.len()
        invariant
            *transports == *old(transports),
            old(transports)@.no_duplicates(),
            i <= transports@.len(),
            forall|j: int| 0 <= j < i ==> transports@[j] != *transport,
        decreases transports@.len() - i,
    {
        if transports[i] == *transport {
            let ghost s = transports@;
            transports.remove(i);
            proof {
                let r = transports@;
                assert(r =~= s.subrange(0, i as int) + s.subrange(i as int + 1, s.len() as int));
                assert forall|a: int, b: int| 0 <= a < b < r.len() implies r[a] != r[b] by {
                    let a0 = if a < i { a } else { a + 1 };
                    let b0 = if b < i { b } else { b + 1 };
                    assert(r[a] == s[a0] && r[b] == s[b0]);
                }
                assert(r.to_set() =~= s.to_set().remove(*transport)) by {
                    assert forall|t: Transport| #[trigger] r.contains(t) <==> (s.contains(t) && t
                        != *transport) by {
                        if r.contains(t) {
                            let j = choose|j: int| 0 <= j < r.len() && r[j] == t;
                            let j0 = if j < i { j } else { j + 1 };
                            assert(s[j0] == t);
                            assert(j0 != i);
                        }
                        if s.contains(t) && t != *transport {
                            let j = choose|j: int| 0 <= j < s.len() && s[j] == t;
                            assert(j != i);
                            let j1 = if j < i { j } else { j - 1 };
                            assert(r[j1] == t);
                        }
                    }
                }
            }
            return true;
        }
        i = i + 1;
    }
    proof {
        assert(!transports@.contains(*transport));
        assert(old(transports)@.to_set().remove(*transport) =~= old(transports)@.to_set());
    }
    false
}

} // verus!
