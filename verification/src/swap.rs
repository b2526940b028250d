//! The swap record, the request and response envelopes, and the record-level
//! well-formedness that the store maintains for every entry.

use vstd::prelude::*;
use crate::commitment::verifies;

verus! {

/// A stored escrow record.
#[derive(Debug)]
pub struct Swap {
    pub sender: String,
    pub recipient: String,
    pub amount: u64,
    pub hashlock: String,
    pub timelock: u64,
    pub withdrawn: bool,
    pub refunded: bool,
    pub preimage: Option<String>,
    pub ledger_id: String,
}

/// Request to open a new swap.
#[derive(Debug)]
pub struct CreateSwapRequest {
    pub recipient: String,
    pub amount: u64,
    pub hashlock: String,
    pub timelock: u64,
    pub ledger_id: String,
}

/// Request to withdraw a swap by revealing its preimage.
#[derive(Debug)]
pub struct WithdrawRequest {
    pub swap_id: String,
    pub preimage: String,
}

/// Request to refund a swap after its expiry.
#[derive(Debug)]
pub struct RefundRequest {
    pub swap_id: String,
}

/// The response envelope shared by all three transitions.
#[derive(Debug)]
pub struct SwapResponse {
    pub success: bool,
    pub message: String,
    pub swap_id: Option<String>,
    pub swap: Option<Swap>,
    pub transfer_result: Option<u64>,
}

/// What a withdraw hands to the ledger: which ledger, how much, to whom.
#[derive(Debug)]
pub struct TransferOrder {
    pub ledger_id: String,
    pub amount: u64,
    pub recipient: String,
}

/// Record-level well-formedness, held by every stored swap: a positive
/// amount, a 64-character hashlock, at most one terminal flag, and a revealed
/// preimage exactly when withdrawn, in which case it matches the hashlock.
pub open spec fn swap_wf(s: Swap) -> bool {
    &&& s.amount > 0
    &&& s.hashlock@.len() == 64
    &&& !(s.withdrawn && s.refunded)
    &&& (s.preimage is Some <==> s.withdrawn)
    &&& match s.preimage {
        Some(p) => verifies(p@, s.hashlock@),
        None => true,
    }
}

/// The record as it stands right after a successful create.
pub open spec fn created_swap(sender: String, request: CreateSwapRequest) -> Swap {
    Swap {
        sender: sender,
        recipient: request.recipient,
        amount: request.amount,
        hashlock: request.hashlock,
        timelock: request.timelock,
        withdrawn: false,
        refunded: false,
        preimage: None,
        ledger_id: request.ledger_id,
    }
}

/// The record after a committed withdraw: the withdrawn flag set and the
/// revealed preimage recorded; everything else unchanged.
pub open spec fn withdrawn_version(s: Swap, preimage: String) -> Swap {
    Swap { withdrawn: true, preimage: Some(preimage), ..s }
}

/// The record after a committed refund: the refunded flag set; everything
/// else unchanged.
pub open spec fn refunded_version(s: Swap) -> Swap {
    Swap { refunded: true, ..s }
}

/// A swap that admits a transition: neither terminal flag is set.
pub open spec fn is_open(s: Swap) -> bool {
    !s.withdrawn && !s.refunded
}

impl Clone for Swap {
    /// An exact copy, field for field.
    fn clone(&self) -> (s: Self)
        ensures
            s == *self,
    {
        Swap {
            sender: self.sender.clone(),
            recipient: self.recipient.clone(),
            amount: self.amount,
            hashlock: self.hashlock.clone(),
            timelock: self.timelock,
            withdrawn: self.withdrawn,
            refunded: self.refunded,
            preimage: match &self.preimage {
                Some(p) => Some(p.clone()),
                None => None,
            },
            ledger_id: self.ledger_id.clone(),
        }
    }
}

/// A failure envelope: unsuccessful, carrying only a message.
pub open spec fn is_failure(r: SwapResponse, msg: Seq<char>) -> bool {
    &&& r.success == false
    &&& r.message@ == msg
    &&& r.swap_id is None
    &&& r.swap is None
    &&& r.transfer_result is None
}

/// Build the failure envelope for a message.
pub(crate) fn failure(message: &str) -> (r: SwapResponse)
    ensures
        is_failure(r, message@),
{
    SwapResponse {
        success: false,
        message: message.to_owned(),
        swap_id: None,
        swap: None,
        transfer_result: None,
    }
}

} // verus!
