//! Read-only projections over the store: fetch by id, list all, filter by
//! sender, recipient, liveness or expiry, and count. None of them mutates.

use vstd::prelude::*;
use crate::store::SwapStore;
use crate::swap::{is_open, Swap};

verus! {

/// A swap that has expired without being claimed or refunded.
pub open spec fn is_expired_unclaimed(s: Swap, now: u64) -> bool {
    now >= s.timelock && is_open(s)
}

/// Advancing a filtered prefix by one element keeps or appends it, by the
/// head element's verdict.
proof fn lemma_filter_step<A>(s: Seq<A>, pred: spec_fn(A) -> bool, i: int)
    requires
        0 <= i < s.len(),
    ensures
        s.subrange(0, i + 1).filter(pred) == if pred(s[i]) {
            s.subrange(0, i).filter(pred).push(s[i])
        } else {
            s.subrange(0, i).filter(pred)
        },
{
    reveal(Seq::filter);
    let t = s.subrange(0, i + 1);
    assert(t.drop_last() =~= s.subrange(0, i));
    assert(t.last() == s[i]);
    if pred(s[i]) {
        assert(t.filter(pred) =~= s.subrange(0, i).filter(pred).push(s[i]));
    } else {
        assert(t.filter(pred) =~= s.subrange(0, i).filter(pred));
    }
}

/// A snapshot copy of the record under this id, if any.
pub fn get_swap(store: &SwapStore, swap_id: String) -> (r: Option<Swap>)
    requires
        store.wf(),
    ensures
        match r {
            Some(s) => store.has_id(swap_id@) && s == store.swap_of(swap_id@),
            None => !store.has_id(swap_id@),
        },
{
    store.get(&swap_id)
}

/// A snapshot of every entry, in insertion order.
pub fn get_all_swaps(store: &SwapStore) -> (r: Vec<(String, Swap)>)
    ensures
        r@ == store@,
{
    let n = store.len();
    let mut r: Vec<(String, Swap)> = Vec::new();
    let mut i: usize = 0;
    while i < n
        invariant
            n == store@.len(),
            i <= n,
            r@ =~= store@.subrange(0, i as int),
        decreases n - i,
    {
        r.push(store.entry_at(i));
        i += 1;
    }
    proof {
        assert(r@ =~= store@);
    }
    r
}

/// The entries whose record's sender equals the given one, in insertion
/// order.
#[verifier::loop_isolation(false)]
pub fn get_swaps_by_sender(store: &SwapStore, sender: String) -> (r: Vec<(String, Swap)>)
    ensures
        r@ == store@.filter(|e: (String, Swap)| e.1.sender@ == sender@),
{
    let ghost pred = |e: (String, Swap)| e.1.sender@ == sender@;
    let n = store.len();
    let mut r: Vec<(String, Swap)> = Vec::new();
    let mut i: usize = 0;
    while i < n
        invariant
            n == store@.len(),
            i <= n,
            r@ == store@.subrange(0, i as int).filter(pred),
        decreases n - i,
    {
        let entry = store.entry_at(i);
        proof {
            lemma_filter_step(store@, pred, i as int);
            assert(entry == store@[i as int]);
        }
        if entry.1.sender == sender {
            r.push(entry);
        }
        i += 1;
    }
    proof {
        assert(store@.subrange(0, n as int) =~= store@);
    }
    r
}

/// The entries whose record's recipient equals the given one, in insertion
/// order.
#[verifier::loop_isolation(false)]
pub fn get_swaps_by_recipient(store: &SwapStore, recipient: String) -> (r: Vec<(String, Swap)>)
    ensures
        r@ == store@.filter(|e: (String, Swap)| e.1.recipient@ == recipient@),
{
    let ghost pred = |e: (String, Swap)| e.1.recipient@ == recipient@;
    let n = store.len();
    let mut r: Vec<(String, Swap)> = Vec::new();
    let mut i: usize = 0;
    while i < n
        invariant
            n == store@.len(),
            i <= n,
            r@ == store@.subrange(0, i as int).filter(pred),
        decreases n - i,
    {
        let entry = store.entry_at(i);
        proof {
            lemma_filter_step(store@, pred, i as int);
            assert(entry == store@[i as int]);
        }
        if entry.1.recipient == recipient {
            r.push(entry);
        }
        i += 1;
    }
    proof {
        assert(store@.subrange(0, n as int) =~= store@);
    }
    r
}

/// The entries whose record is still open: neither withdrawn nor refunded.
/// Every terminal record is excluded; every open one is included.
#[verifier::loop_isolation(false)]
pub fn get_active_swaps(store: &SwapStore) -> (r: Vec<(String, Swap)>)
    ensures
        r@ == store@.filter(|e: (String, Swap)| is_open(e.1)),
        forall|j: int| 0 <= j < r@.len() ==> is_open(#[trigger] r@[j].1),
        forall|i: int|
            0 <= i < store@.len() && is_open(#[trigger] store@[i].1) ==> r@.contains(store@[i]),
{
    let ghost pred = |e: (String, Swap)| is_open(e.1);
    let n = store.len();
    let mut r: Vec<(String, Swap)> = Vec::new();
    let mut i: usize = 0;
    while i < n
        invariant
            n == store@.len(),
            i <= n,
            r@ == store@.subrange(0, i as int).filter(pred),
        decreases n - i,
    {
        let entry = store.entry_at(i);
        proof {
            lemma_filter_step(store@, pred, i as int);
            assert(entry == store@[i as int]);
        }
        if !entry.1.withdrawn && !entry.1.refunded {
            r.push(entry);
        }
        i += 1;
    }
    proof {
        assert(store@.subrange(0, n as int) =~= store@);
        broadcast use vstd::seq_lib::group_filter_ensures;

        assert forall|j: int| 0 <= j < r@.len() implies is_open(#[trigger] r@[j].1) by {
            assert(pred(store@.filter(pred)[j]));
        }
        assert forall|k: int|
            0 <= k < store@.len() && is_open(#[trigger] store@[k].1) implies r@.contains(
            store@[k],
        ) by {
            assert(store@.filter(pred).contains(store@[k]));
        }
    }
    r
}

/// The entries whose record has expired while still open. Exactly the
/// records with `now >= timelock` and neither terminal flag are included.
#[verifier::loop_isolation(false)]
pub fn get_expired_swaps(store: &SwapStore, now: u64) -> (r: Vec<(String, Swap)>)
    ensures
        r@ == store@.filter(|e: (String, Swap)| is_expired_unclaimed(e.1, now)),
        forall|j: int| 0 <= j < r@.len() ==> is_expired_unclaimed(#[trigger] r@[j].1, now),
        forall|i: int|
            0 <= i < store@.len() && is_expired_unclaimed(#[trigger] store@[i].1, now)
                ==> r@.contains(store@[i]),
{
    let ghost pred = |e: (String, Swap)| is_expired_unclaimed(e.1, now);
    let n = store.len();
    let mut r: Vec<(String, Swap)> = Vec::new();
    let mut i: usize = 0;
    while i < n
        invariant
            n == store@.len(),
            i <= n,
            r@ == store@.subrange(0, i as int).filter(pred),
        decreases n - i,
    {
        let entry = store.entry_at(i);
        proof {
            lemma_filter_step(store@, pred, i as int);
            assert(entry == store@[i as int]);
        }
        if now >= entry.1.timelock && !entry.1.withdrawn && !entry.1.refunded {
            r.push(entry);
        }
        i += 1;
    }
    proof {
        assert(store@.subrange(0, n as int) =~= store@);
        broadcast use vstd::seq_lib::group_filter_ensures;

        assert forall|j: int| 0 <= j < r@.len() implies is_expired_unclaimed(
            #[trigger] r@[j].1,
            now,
        ) by {
            assert(pred(store@.filter(pred)[j]));
        }
        assert forall|k: int|
            0 <= k < store@.len() && is_expired_unclaimed(#[trigger] store@[k].1, now)
            implies r@.contains(store@[k]) by {
            assert(store@.filter(pred).contains(store@[k]));
        }
    }
    r
}

/// How many records the store holds.
pub fn get_swap_count(store: &SwapStore) -> (r: u64)
    ensures
        r == store@.len(),
{
    store.len() as u64
}

/// The interface version string.
pub fn get_version() -> (r: String)
    ensures
        r@ == "1.0.0"@,
{
    "1.0.0".to_owned()
}

} // verus!
