//! Cross-function laws of the lifecycle, proved over the same spec functions
//! that the transition contracts speak of.

use vstd::prelude::*;
use crate::commitment::verifies;
use crate::identity::spec_swap_id;
use crate::lifecycle::{
    create_allowed, finalize_rejection, refund_rejection, withdraw_rejection,
};
use crate::store::SwapStore;
use crate::swap::{is_open, CreateSwapRequest, Swap};

verus! {

/// The already-terminal message a record reports: which terminal flag won.
pub open spec fn terminal_message(s: Swap) -> Seq<char> {
    if s.withdrawn {
        "Already withdrawn"@
    } else {
        "Already refunded"@
    }
}

/// Duplicate protection: while a swap is stored under a (sender, hashlock)
/// key, no create by that sender with that hashlock can succeed, whatever
/// the rest of the request or the clock says.
pub proof fn lemma_duplicate_create_blocked(
    store: SwapStore,
    caller: String,
    request: CreateSwapRequest,
    now: u64,
)
    requires
        store.has_id(spec_swap_id(caller@, request.hashlock@)),
    ensures
        !create_allowed(store, caller@, request, now),
{
}

/// Mutual exclusion: a terminal record rejects every later transition —
/// withdraw in either phase, and refund — whatever the caller, the clock or
/// the preimage. When the transition fails on no earlier precondition, the
/// rejection is the already-terminal message of the flag that won.
pub proof fn lemma_terminal_is_final(
    store: SwapStore,
    caller: Seq<char>,
    now: u64,
    swap_id: Seq<char>,
    preimage: Seq<char>,
    transfer_result: Option<u64>,
)
    requires
        store.has_id(swap_id),
        !is_open(store.swap_of(swap_id)),
    ensures
        withdraw_rejection(store, caller, now, swap_id, preimage) is Some,
        finalize_rejection(store, swap_id, preimage, transfer_result) is Some,
        refund_rejection(store, caller, now, swap_id) is Some,
        ({
            let s = store.swap_of(swap_id);
            now < s.timelock && caller == s.recipient@ && verifies(preimage, s.hashlock@)
                ==> withdraw_rejection(store, caller, now, swap_id, preimage) == Some(
                terminal_message(s),
            )
        }),
        ({
            let s = store.swap_of(swap_id);
            transfer_result is Some && verifies(preimage, s.hashlock@) ==> finalize_rejection(
                store,
                swap_id,
                preimage,
                transfer_result,
            ) == Some(terminal_message(s))
        }),
        ({
            let s = store.swap_of(swap_id);
            now >= s.timelock && caller == s.sender@ ==> refund_rejection(
                store,
                caller,
                now,
                swap_id,
            ) == Some(terminal_message(s))
        }),
{
}

/// An uninterrupted withdraw commits: when phase one passed against a store
/// and no other request touched it during the suspension, a successful
/// transfer is all the phase-two commit still requires.
pub proof fn lemma_uninterrupted_withdraw_commits(
    store: SwapStore,
    caller: Seq<char>,
    now: u64,
    swap_id: Seq<char>,
    preimage: Seq<char>,
    block: u64,
)
    requires
        withdraw_rejection(store, caller, now, swap_id, preimage) is None,
    ensures
        finalize_rejection(store, swap_id, preimage, Some(block)) is None,
{
}

/// One winning writer per swap: a store produced by committing a terminal
/// record under a key still holds that key, now terminal, so the commit
/// point of any other transition on the same key — a second withdraw
/// resuming from its suspension, or a refund — observes a rejection rather
/// than overwriting the winner.
pub proof fn lemma_single_winner(
    pre: SwapStore,
    post: SwapStore,
    swap_id: Seq<char>,
    winner: Swap,
    caller: Seq<char>,
    now: u64,
    preimage: Seq<char>,
    transfer_result: Option<u64>,
)
    requires
        pre.wf(),
        pre.has_id(swap_id),
        !is_open(winner),
        post@ == pre@.update(
            pre.idx_of(swap_id),
            ((pre@[pre.idx_of(swap_id)].0, winner)),
        ),
    ensures
        post.has_id(swap_id),
        post.swap_of(swap_id) == winner,
        withdraw_rejection(post, caller, now, swap_id, preimage) is Some,
        finalize_rejection(post, swap_id, preimage, transfer_result) is Some,
        refund_rejection(post, caller, now, swap_id) is Some,
{
    let i = pre.idx_of(swap_id);
    assert(0 <= i < pre@.len() && pre@[i].0@ == swap_id);
    assert(post@[i].0@ == swap_id);
    assert(post.ids_unique()) by {
        assert(forall|k: int|
            0 <= k < post@.len() ==> (#[trigger] post@[k].0) == pre@[k].0);
    }
    post.lemma_idx_of_unique(swap_id, i);
    lemma_terminal_is_final(post, caller, now, swap_id, preimage, transfer_result);
}

} // verus!
