use vstd::prelude::*;
use vstd::relations::{sorted_by, total_ordering};
use vstd::seq_lib::{
    lemma_sorted_unique, to_multiset_build, to_multiset_contains, to_multiset_insert,
    to_multiset_len,
};

use crate::state::TicketEntry;

verus! {

/// The canonical entry order: purchase time ascending, buyer identity
/// ascending as the tie-break.
pub open spec fn entry_le(a: TicketEntry, b: TicketEntry) -> bool {
    a.purchased_at < b.purchased_at || (a.purchased_at == b.purchased_at && a.buyer <= b.buyer)
}

/// `entry_le` as a relation value, for the ordering lemmas of vstd.
pub open spec fn entry_order() -> spec_fn(TicketEntry, TicketEntry) -> bool {
    |a: TicketEntry, b: TicketEntry| entry_le(a, b)
}

pub proof fn lemma_entry_order_total()
    ensures
        total_ordering(entry_order()),
{
}

/// The registry in canonical order, independent of physical storage order.
pub open spec fn canonical_order(s: Seq<TicketEntry>) -> Seq<TicketEntry> {
    s.sort_by(entry_order())
}

/// The selection seed: the current time reinterpreted as an unsigned value.
pub open spec fn time_seed(now: i64) -> u64 {
    now as u64
}

/// The entry index the selector picks from a registry of length `len` at
/// time `now`.
pub open spec fn spec_winner_index(len: int, now: i64) -> int
    recommends
        len > 0,
{
    time_seed(now) as int % len
}

/// The winner the selector picks from registry contents `s` at time `now`.
pub open spec fn spec_winner(s: Seq<TicketEntry>, now: i64) -> u64
    recommends
        s.len() > 0,
{
    canonical_order(s)[spec_winner_index(s.len() as int, now)].buyer
}

/// Exec comparison deciding the canonical entry order.
fn le(a: &TicketEntry, b: &TicketEntry) -> (r: bool)
    ensures
        r == entry_le(*a, *b),
{
    a.purchased_at < b.purchased_at || (a.purchased_at == b.purchased_at && a.buyer <= b.buyer)
}

/// Copies the registry and sorts the copy into canonical order, by
/// insertion into an already sorted prefix.
pub fn sorted_entries(v: &Vec<TicketEntry>) -> (r: Vec<TicketEntry>)
    ensures
        r@ == canonical_order(v@),
{
    let mut r: Vec<TicketEntry> = Vec::new();
    let mut i: usize = 0;
    proof {
        assert(v@.subrange(0, 0) =~= r@);
    }
    while i < v.len()
        invariant
            i <= v@.len(),
            r@.to_multiset() == v@.subrange(0, i as int).to_multiset(),
            forall|a: int, b: int|
                0 <= a < b < r@.len() ==> entry_le(#[trigger] r@[a], #[trigger] r@[b]),
        decreases v@.len() - i,
    {
        let x = v[i];
        let mut j: usize = 0;
        while j < r.len() && le(&r[j], &x)
            invariant
                j <= r@.len(),
                forall|k: int| 0 <= k < j ==> entry_le(#[trigger] r@[k], x),
            decreases r@.len() - j,
        {
            j += 1;
        }
        proof {
            to_multiset_insert(r@, j as int, x);
            to_multiset_build(v@.subrange(0, i as int), v@[i as int]);
            assert(v@.subrange(0, i + 1) =~= v@.subrange(0, i as int).push(v@[i as int]));
        }
        let ghost old_r = r@;
        r.insert(j, x);
        proof {
            assert(r@.to_multiset() == v@.subrange(0, i + 1).to_multiset());
            assert forall|a: int, b: int| 0 <= a < b < r@.len() implies entry_le(
                r@[a],
                r@[b],
            ) by {
                if b < j {
                    assert(entry_le(old_r[a], old_r[b]));
                } else if b == j {
                    assert(entry_le(old_r[a], x));
                } else if a == j {
                    // the displaced entry did not come before `x`, so `x`
                    // comes no later than it, nor than anything after it
                    assert(!entry_le(old_r[j as int], x));
                    if b - 1 > j {
                        assert(entry_le(old_r[j as int], old_r[b - 1]));
                    }
                } else if a < j {
                    assert(entry_le(old_r[a], old_r[b - 1]));
                } else {
                    assert(entry_le(old_r[a - 1], old_r[b - 1]));
                }
            }
        }
        i += 1;
    }
    proof {
        assert(v@.subrange(0, v@.len() as int) =~= v@);
        lemma_entry_order_total();
        v@.lemma_sort_by_ensures(entry_order());
        let c = canonical_order(v@);
        let leq = entry_order();
        assert forall|a: int, b: int| 0 <= a < b < r@.len() implies #[trigger] leq(
            r@[a],
            r@[b],
        ) by {
            assert(entry_le(r@[a], r@[b]));
        }
        assert(sorted_by(r@, leq));
        lemma_sorted_unique(r@, c, leq);
        assert(r@ =~= c);
    }
    r
}

/// The selected winner always holds an entry of the registry.
pub proof fn lemma_winner_is_an_entrant(s: Seq<TicketEntry>, now: i64)
    requires
        s.len() > 0,
    ensures
        exists|i: int| 0 <= i < s.len() && s[i].buyer == spec_winner(s, now),
{
    lemma_entry_order_total();
    s.lemma_sort_by_ensures(entry_order());
    let c = canonical_order(s);
    to_multiset_len(s);
    to_multiset_len(c);
    let idx = spec_winner_index(s.len() as int, now);
    assert(0 <= idx < c.len());
    assert(c.contains(c[idx]));
    to_multiset_contains(c, c[idx]);
    to_multiset_contains(s, c[idx]);
    assert(s.contains(c[idx]));
}

/// Winner selection is deterministic: two registries holding the same
/// entries, in any physical order, yield the same winner at the same time.
pub proof fn lemma_winner_deterministic(s1: Seq<TicketEntry>, s2: Seq<TicketEntry>, now: i64)
    requires
        s1.to_multiset() == s2.to_multiset(),
        s1.len() > 0,
    ensures
        s2.len() == s1.len(),
        spec_winner(s1, now) == spec_winner(s2, now),
{
    to_multiset_len(s1);
    to_multiset_len(s2);
    lemma_entry_order_total();
    s1.lemma_sort_by_ensures(entry_order());
    s2.lemma_sort_by_ensures(entry_order());
    lemma_sorted_unique(canonical_order(s1), canonical_order(s2), entry_order());
    assert(canonical_order(s1) =~= canonical_order(s2));
}

} // verus!
