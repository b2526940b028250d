//! Hashed time-locked contract (HTLC) escrow logic.
//!
//! A sender commits funds to a recipient under a SHA-256 hash commitment and
//! an absolute expiry instant. The recipient may withdraw before expiry by
//! revealing the preimage of the commitment; after expiry the sender may
//! reclaim. The state machine, its store, and the hash verification are
//! verified; the hosting environment supplies caller identity, the clock,
//! and the asynchronous ledger transfer.

mod commitment;
mod identity;
mod laws;
mod lifecycle;
mod queries;
mod store;
mod swap;

pub use commitment::{
    hash_hex_of, hash_preimage, is_hex_char, lemma_verify_round_trip, sha256_hash, verifies,
    verify_preimage, verify_preimage_hash,
};
pub use identity::{generate_swap_id, lemma_swap_id_injective, spec_swap_id};
pub use laws::{
    lemma_duplicate_create_blocked, lemma_single_winner, lemma_terminal_is_final,
    lemma_uninterrupted_withdraw_commits,
    terminal_message,
};
pub use lifecycle::{
    create_allowed, create_rejection, create_swap, finalize_rejection, refund, refund_rejection,
    transfer_order_of, validate_create_swap_request, withdraw_finalize, withdraw_prepare,
    withdraw_rejection,
};
pub use queries::{
    get_active_swaps, get_all_swaps, get_expired_swaps, get_swap, get_swap_count,
    get_swaps_by_recipient, get_swaps_by_sender, get_version, is_expired_unclaimed,
};
pub use store::SwapStore;
pub use swap::{
    created_swap, is_failure, is_open, refunded_version, swap_wf, withdrawn_version,
    CreateSwapRequest, RefundRequest, Swap, SwapResponse, TransferOrder, WithdrawRequest,
};
