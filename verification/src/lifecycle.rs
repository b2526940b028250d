//! The swap lifecycle state machine: `create`, the two-phase `withdraw`
//! protocol around the asynchronous ledger transfer, and the synchronous
//! `refund`. Each transition states exactly when it succeeds, which message
//! it reports otherwise, and that a failed transition leaves the store
//! untouched.

use vstd::prelude::*;
use crate::commitment::verifies;
use crate::identity::{generate_swap_id, spec_swap_id};
use crate::store::SwapStore;
use crate::swap::{
    created_swap, failure, is_failure, withdrawn_version, refunded_version, CreateSwapRequest,
    RefundRequest, Swap, SwapResponse, TransferOrder, WithdrawRequest,
};

verus! {

/// The first violated create rule, with its message; `None` when the request
/// is valid. Rules are checked in order: recipient, amount, hashlock
/// presence, hashlock length, timelock.
pub open spec fn create_rejection(request: CreateSwapRequest, now: u64) -> Option<Seq<char>> {
    if request.recipient@.len() == 0 {
        Some("Recipient cannot be empty"@)
    } else if request.amount == 0 {
        Some("Amount must be greater than 0"@)
    } else if request.hashlock@.len() == 0 {
        Some("Hashlock cannot be empty"@)
    } else if request.hashlock@.len() != 64 {
        Some("Hashlock must be a valid SHA-256 hash (64 characters)"@)
    } else if request.timelock <= now {
        Some("Timelock must be in the future"@)
    } else {
        None
    }
}

/// A create goes through exactly when the request is valid and no swap is
/// stored yet under the derived (sender, hashlock) key.
pub open spec fn create_allowed(
    store: SwapStore,
    caller: Seq<char>,
    request: CreateSwapRequest,
    now: u64,
) -> bool {
    create_rejection(request, now) is None && !store.has_id(
        spec_swap_id(caller, request.hashlock@),
    )
}

/// Validate a create request against the current instant: the first violated
/// rule is reported as the error message.
pub fn validate_create_swap_request(request: &CreateSwapRequest, now: u64) -> (r: Result<
    (),
    String,
>)
    ensures
        match r {
            Ok(_) => create_rejection(*request, now) is None,
            Err(m) => create_rejection(*request, now) == Some(m@),
        },
{
    if request.recipient.as_str().is_empty() {
        return Err("Recipient cannot be empty".to_owned());
    }
    if request.amount == 0 {
        return Err("Amount must be greater than 0".to_owned());
    }
    if request.hashlock.as_str().is_empty() {
        return Err("Hashlock cannot be empty".to_owned());
    }
    if request.hashlock.as_str().unicode_len() != 64 {
        return Err("Hashlock must be a valid SHA-256 hash (64 characters)".to_owned());
    }
    if request.timelock <= now {
        return Err("Timelock must be in the future".to_owned());
    }
    Ok(())
}

/// Open a swap: validate the request, derive the key from the caller and the
/// hashlock, and store the open record unless the key is taken.
pub fn create_swap(
    store: &mut SwapStore,
    caller: String,
    now: u64,
    request: CreateSwapRequest,
) -> (r: SwapResponse)
    requires
        old(store).wf(),
    ensures
        final(store).wf(),
        r.success == create_allowed(*old(store), caller@, request, now),
        !r.success ==> final(store)@ == old(store)@ && is_failure(r, r.message@),
        (create_rejection(request, now) matches Some(m) ==> r.message@ == m),
        create_rejection(request, now) is None && old(store).has_id(
            spec_swap_id(caller@, request.hashlock@),
        ) ==> r.message@ == "Swap already exists"@,
        r.success ==> {
            let id = spec_swap_id(caller@, request.hashlock@);
            let stored = created_swap(caller, request);
            &&& final(store)@ == old(store)@.push((final(store)@.last().0, stored))
            &&& final(store)@.last().0@ == id
            &&& final(store).has_id(id)
            &&& r.message@ == "Swap created successfully"@
            &&& (r.swap_id matches Some(s) && s@ == id)
            &&& r.swap == Some(stored)
            &&& r.transfer_result is None
        },
{
    match validate_create_swap_request(&request, now) {
        Err(message) => {
            return SwapResponse {
                success: false,
                message,
                swap_id: None,
                swap: None,
                transfer_result: None,
            };
        },
        Ok(_) => {},
    }
    let swap_id = generate_swap_id(&caller, &request.hashlock);
    let swap = Swap {
        sender: caller,
        recipient: request.recipient,
        amount: request.amount,
        hashlock: request.hashlock,
        timelock: request.timelock,
        withdrawn: false,
        refunded: false,
        preimage: None,
        ledger_id: request.ledger_id,
    };
    let snapshot = swap.clone();
    let id_copy = swap_id.clone();
    let inserted = store.insert_if_absent(swap_id, swap);
    if !inserted {
        return failure("Swap already exists");
    }
    SwapResponse {
        success: true,
        message: "Swap created successfully".to_owned(),
        swap_id: Some(id_copy),
        swap: Some(snapshot),
        transfer_result: None,
    }
}

/// The first failed withdraw precondition, with its message; `None` when the
/// withdraw may proceed to the transfer. Checks in order: presence, expiry,
/// caller, preimage, the two terminal flags.
pub open spec fn withdraw_rejection(
    store: SwapStore,
    caller: Seq<char>,
    now: u64,
    swap_id: Seq<char>,
    preimage: Seq<char>,
) -> Option<Seq<char>> {
    if !store.has_id(swap_id) {
        Some("Swap not found"@)
    } else {
        let s = store.swap_of(swap_id);
        if now >= s.timelock {
            Some("Timelock has expired"@)
        } else if caller != s.recipient@ {
            Some("Only recipient can withdraw"@)
        } else if !verifies(preimage, s.hashlock@) {
            Some("Invalid preimage"@)
        } else if s.withdrawn {
            Some("Already withdrawn"@)
        } else if s.refunded {
            Some("Already refunded"@)
        } else {
            None
        }
    }
}

/// The transfer a successful phase-one withdraw orders: the stored amount, to
/// the stored recipient, on the stored ledger.
pub open spec fn transfer_order_of(s: Swap) -> TransferOrder {
    TransferOrder { ledger_id: s.ledger_id, amount: s.amount, recipient: s.recipient }
}

/// Withdraw, phase one (synchronous): validate against a snapshot and, when
/// every precondition holds, order the ledger transfer. Nothing is mutated;
/// the commit happens in `withdraw_finalize` once the transfer resolves.
pub fn withdraw_prepare(
    store: &SwapStore,
    caller: &String,
    now: u64,
    request: &WithdrawRequest,
) -> (r: Result<TransferOrder, SwapResponse>)
    requires
        store.wf(),
    ensures
        match r {
            Ok(order) => withdraw_rejection(*store, caller@, now, request.swap_id@,
                request.preimage@) is None && order == transfer_order_of(
                store.swap_of(request.swap_id@),
            ),
            Err(resp) => withdraw_rejection(*store, caller@, now, request.swap_id@,
                request.preimage@) matches Some(m) && is_failure(resp, m),
        },
{
    let looked_up = store.get(&request.swap_id);
    match looked_up {
        None => Err(failure("Swap not found")),
        Some(swap) => {
            if now >= swap.timelock {
                Err(failure("Timelock has expired"))
            } else if !(*caller == swap.recipient) {
                Err(failure("Only recipient can withdraw"))
            } else if !crate::commitment::verify_preimage(
                request.preimage.as_str(),
                &swap.hashlock,
            ) {
                Err(failure("Invalid preimage"))
            } else if swap.withdrawn {
                Err(failure("Already withdrawn"))
            } else if swap.refunded {
                Err(failure("Already refunded"))
            } else {
                Ok(TransferOrder {
                    ledger_id: swap.ledger_id,
                    amount: swap.amount,
                    recipient: swap.recipient,
                })
            }
        },
    }
}

/// Why a phase-two commit is rejected, with its message; `None` when the
/// commit goes through. A failed transfer is reported first; then the live
/// record is re-read: the commit is refused if the record is gone, the
/// preimage does not match its hashlock, or another transition already made
/// it terminal during the suspension.
pub open spec fn finalize_rejection(
    store: SwapStore,
    swap_id: Seq<char>,
    preimage: Seq<char>,
    transfer_result: Option<u64>,
) -> Option<Seq<char>> {
    if transfer_result is None {
        Some("Transfer failed"@)
    } else if !store.has_id(swap_id) {
        Some("Swap not found"@)
    } else {
        let s = store.swap_of(swap_id);
        if !verifies(preimage, s.hashlock@) {
            Some("Invalid preimage"@)
        } else if s.withdrawn {
            Some("Already withdrawn"@)
        } else if s.refunded {
            Some("Already refunded"@)
        } else {
            None
        }
    }
}

/// Withdraw, phase two (on resume): commit the withdraw if the transfer
/// succeeded and the live record still allows it. The guard re-reads the
/// current record, not the phase-one snapshot, so a transition that won
/// during the suspension makes this commit report the terminal state instead
/// of overwriting it. On any failure the store is untouched.
pub fn withdraw_finalize(
    store: &mut SwapStore,
    request: &WithdrawRequest,
    transfer_result: Option<u64>,
) -> (r: SwapResponse)
    requires
        old(store).wf(),
    ensures
        final(store).wf(),
        r.success == (finalize_rejection(*old(store), request.swap_id@, request.preimage@,
            transfer_result) is None),
        (finalize_rejection(*old(store), request.swap_id@, request.preimage@, transfer_result)
            matches Some(m) ==> is_failure(r, m) && final(store)@ == old(store)@),
        r.success ==> {
            let i = old(store).idx_of(request.swap_id@);
            let updated = withdrawn_version(old(store)@[i].1, request.preimage);
            &&& final(store)@ == old(store)@.update(i, ((old(store)@[i].0, updated)))
            &&& r.message@ == "Withdrawal successful"@
            &&& (r.swap_id matches Some(s) && s@ == request.swap_id@)
            &&& r.swap == Some(updated)
            &&& r.transfer_result == transfer_result
        },
{
    let block_index: u64 = match transfer_result {
        None => {
            return failure("Transfer failed");
        },
        Some(b) => b,
    };
    let found = store.find_index(&request.swap_id);
    match found {
        None => failure("Swap not found"),
        Some(i) => {
            let entry = store.entry_at(i);
            if !crate::commitment::verify_preimage(request.preimage.as_str(), &entry.1.hashlock) {
                failure("Invalid preimage")
            } else if entry.1.withdrawn {
                failure("Already withdrawn")
            } else if entry.1.refunded {
                failure("Already refunded")
            } else {
                let preimage_copy = request.preimage.clone();
                store.set_withdrawn_at(i, preimage_copy);
                let updated = store.entry_at(i);
                SwapResponse {
                    success: true,
                    message: "Withdrawal successful".to_owned(),
                    swap_id: Some(request.swap_id.clone()),
                    swap: Some(updated.1),
                    transfer_result: Some(block_index),
                }
            }
        },
    }
}

/// The first failed refund precondition, with its message; `None` when the
/// refund goes through. Checks in order: presence, expiry reached, caller,
/// the two terminal flags.
pub open spec fn refund_rejection(
    store: SwapStore,
    caller: Seq<char>,
    now: u64,
    swap_id: Seq<char>,
) -> Option<Seq<char>> {
    if !store.has_id(swap_id) {
        Some("Swap not found"@)
    } else {
        let s = store.swap_of(swap_id);
        if now < s.timelock {
            Some("Timelock has not expired yet"@)
        } else if caller != s.sender@ {
            Some("Only sender can refund"@)
        } else if s.withdrawn {
            Some("Already withdrawn"@)
        } else if s.refunded {
            Some("Already refunded"@)
        } else {
            None
        }
    }
}

/// Refund a swap after expiry: fully synchronous, so the check and the
/// commit are one step. The record's refunded flag is set; no funds move
/// here. On any failure the store is untouched.
pub fn refund(
    store: &mut SwapStore,
    caller: &String,
    now: u64,
    request: &RefundRequest,
) -> (r: SwapResponse)
    requires
        old(store).wf(),
    ensures
        final(store).wf(),
        r.success == (refund_rejection(*old(store), caller@, now, request.swap_id@) is None),
        (refund_rejection(*old(store), caller@, now, request.swap_id@) matches Some(m) ==>
            is_failure(r, m) && final(store)@ == old(store)@),
        r.success ==> {
            let i = old(store).idx_of(request.swap_id@);
            let updated = refunded_version(old(store)@[i].1);
            &&& final(store)@ == old(store)@.update(i, ((old(store)@[i].0, updated)))
            &&& r.message@ == "Refund successful"@
            &&& (r.swap_id matches Some(s) && s@ == request.swap_id@)
            &&& r.swap == Some(updated)
            &&& r.transfer_result is None
        },
{
    let found = store.find_index(&request.swap_id);
    match found {
        None => failure("Swap not found"),
        Some(i) => {
            let entry = store.entry_at(i);
            if now < entry.1.timelock {
                failure("Timelock has not expired yet")
            } else if !(*caller == entry.1.sender) {
                failure("Only sender can refund")
            } else if entry.1.withdrawn {
                failure("Already withdrawn")
            } else if entry.1.refunded {
                failure("Already refunded")
            } else {
                store.set_refunded_at(i);
                let updated = store.entry_at(i);
                SwapResponse {
                    success: true,
                    message: "Refund successful".to_owned(),
                    swap_id: Some(request.swap_id.clone()),
                    swap: Some(updated.1),
                    transfer_result: None,
                }
            }
        },
    }
}

} // verus!
