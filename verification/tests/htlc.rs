use htlc::{
    create_swap, generate_swap_id, get_active_swaps, get_all_swaps, get_expired_swaps, get_swap,
    get_swap_count, get_swaps_by_recipient, get_swaps_by_sender, get_version, hash_preimage,
    refund, verify_preimage_hash, withdraw_finalize, withdraw_prepare, CreateSwapRequest,
    RefundRequest, SwapStore, WithdrawRequest,
};
use sha2::Digest;

fn s(text: &str) -> String {
    text.to_owned()
}

fn valid_request(hashlock: String) -> CreateSwapRequest {
    CreateSwapRequest {
        recipient: s("bob"),
        amount: 100,
        hashlock,
        timelock: 4600,
        ledger_id: s("ledger-1"),
    }
}

/// A store holding alice's swap for "secret", created at instant 1000.
fn store_with_alice_swap() -> (SwapStore, String) {
    let mut store = SwapStore::new();
    let hashlock = hash_preimage(s("secret"));
    let r = create_swap(&mut store, s("alice"), 1000, valid_request(hashlock.clone()));
    assert!(r.success);
    (store, r.swap_id.unwrap())
}

#[test]
fn hash_matches_reference_implementation() {
    let ours = hash_preimage(s("secret"));
    let theirs = hex::encode(sha2::Sha256::digest("secret".as_bytes()));
    assert_eq!(ours, theirs);
}

#[test]
fn hash_known_vectors() {
    assert_eq!(
        hash_preimage(s("")),
        "e3b0c44298fc1c149afbf4c8996fb92427ae41e4649b934ca495991b7852b855"
    );
    assert_eq!(
        hash_preimage(s("abc")),
        "ba7816bf8f01cfea414140de5dae2223b00361a396177a9cb410ff61f20015ad"
    );
}

#[test]
fn verify_round_trip_holds() {
    let commitment = hash_preimage(s("secret"));
    assert!(verify_preimage_hash(s("secret"), commitment.clone()));
    assert!(!verify_preimage_hash(s("wrong"), commitment));
    let other = hash_preimage(s("other"));
    assert!(!verify_preimage_hash(s("secret"), other));
}

#[test]
fn swap_id_is_sender_underscore_hashlock() {
    let hashlock = hash_preimage(s("secret"));
    let id = generate_swap_id(&s("alice"), &hashlock);
    let mut expected = s("alice");
    expected.push('_');
    expected.push_str(&hashlock);
    assert_eq!(id, expected);
}

#[test]
fn create_stores_an_open_record() {
    let (store, id) = store_with_alice_swap();
    let stored = get_swap(&store, id).expect("stored swap");
    assert_eq!(stored.sender, "alice");
    assert_eq!(stored.recipient, "bob");
    assert_eq!(stored.amount, 100);
    assert_eq!(stored.timelock, 4600);
    assert!(!stored.withdrawn);
    assert!(!stored.refunded);
    assert!(stored.preimage.is_none());
    assert_eq!(stored.ledger_id, "ledger-1");
}

#[test]
fn create_response_carries_id_and_snapshot() {
    let mut store = SwapStore::new();
    let hashlock = hash_preimage(s("secret"));
    let r = create_swap(&mut store, s("alice"), 1000, valid_request(hashlock.clone()));
    assert!(r.success);
    assert_eq!(r.message, "Swap created successfully");
    assert_eq!(r.swap_id.unwrap(), generate_swap_id(&s("alice"), &hashlock));
    assert!(r.swap.is_some());
    assert!(r.transfer_result.is_none());
}

#[test]
fn create_rejects_empty_recipient() {
    let mut store = SwapStore::new();
    let mut request = valid_request(hash_preimage(s("secret")));
    request.recipient = s("");
    let r = create_swap(&mut store, s("alice"), 1000, request);
    assert!(!r.success);
    assert_eq!(r.message, "Recipient cannot be empty");
    assert_eq!(store.len(), 0);
}

#[test]
fn create_rejects_zero_amount() {
    let mut store = SwapStore::new();
    let mut request = valid_request(hash_preimage(s("secret")));
    request.amount = 0;
    let r = create_swap(&mut store, s("alice"), 1000, request);
    assert!(!r.success);
    assert_eq!(r.message, "Amount must be greater than 0");
}

#[test]
fn create_rejects_empty_hashlock() {
    let mut store = SwapStore::new();
    let r = create_swap(&mut store, s("alice"), 1000, valid_request(s("")));
    assert!(!r.success);
    assert_eq!(r.message, "Hashlock cannot be empty");
}

#[test]
fn create_rejects_short_hashlock() {
    let mut store = SwapStore::new();
    let r = create_swap(&mut store, s("alice"), 1000, valid_request(s("abc123")));
    assert!(!r.success);
    assert_eq!(
        r.message,
        "Hashlock must be a valid SHA-256 hash (64 characters)"
    );
}

#[test]
fn create_rejects_past_timelock() {
    let mut store = SwapStore::new();
    let mut request = valid_request(hash_preimage(s("secret")));
    request.timelock = 1000;
    let r = create_swap(&mut store, s("alice"), 1000, request);
    assert!(!r.success);
    assert_eq!(r.message, "Timelock must be in the future");
}

#[test]
fn duplicate_create_fails_without_mutation() {
    let (mut store, id) = store_with_alice_swap();
    let before = get_swap(&store, id.clone()).unwrap();
    let hashlock = hash_preimage(s("secret"));
    let mut second = valid_request(hashlock);
    second.recipient = s("carol");
    second.amount = 999;
    let r = create_swap(&mut store, s("alice"), 1000, second);
    assert!(!r.success);
    assert_eq!(r.message, "Swap already exists");
    assert_eq!(store.len(), 1);
    let after = get_swap(&store, id).unwrap();
    assert_eq!(after.recipient, before.recipient);
    assert_eq!(after.amount, before.amount);
    assert!(!after.withdrawn && !after.refunded);
}

#[test]
fn distinct_hashlocks_do_not_collide() {
    let (mut store, _) = store_with_alice_swap();
    let r = create_swap(
        &mut store,
        s("alice"),
        1000,
        valid_request(hash_preimage(s("another"))),
    );
    assert!(r.success);
    assert_eq!(store.len(), 2);
}

#[test]
fn withdraw_happy_path() {
    let (mut store, id) = store_with_alice_swap();
    let request = WithdrawRequest { swap_id: id.clone(), preimage: s("secret") };
    let order = withdraw_prepare(&store, &s("bob"), 2000, &request).expect("transfer ordered");
    assert_eq!(order.ledger_id, "ledger-1");
    assert_eq!(order.amount, 100);
    assert_eq!(order.recipient, "bob");
    let r = withdraw_finalize(&mut store, &request, Some(7));
    assert!(r.success);
    assert_eq!(r.message, "Withdrawal successful");
    assert_eq!(r.transfer_result, Some(7));
    let stored = get_swap(&store, id).unwrap();
    assert!(stored.withdrawn);
    assert!(!stored.refunded);
    assert_eq!(stored.preimage.as_deref(), Some("secret"));
}

#[test]
fn withdraw_rejects_unknown_id() {
    let (store, _) = store_with_alice_swap();
    let request = WithdrawRequest { swap_id: s("nobody_nothing"), preimage: s("secret") };
    let r = withdraw_prepare(&store, &s("bob"), 2000, &request).unwrap_err();
    assert_eq!(r.message, "Swap not found");
}

#[test]
fn withdraw_rejects_after_expiry() {
    let (store, id) = store_with_alice_swap();
    let request = WithdrawRequest { swap_id: id, preimage: s("secret") };
    let r = withdraw_prepare(&store, &s("bob"), 4600, &request).unwrap_err();
    assert_eq!(r.message, "Timelock has expired");
}

#[test]
fn withdraw_rejects_wrong_caller() {
    let (store, id) = store_with_alice_swap();
    let request = WithdrawRequest { swap_id: id, preimage: s("secret") };
    let r = withdraw_prepare(&store, &s("mallory"), 2000, &request).unwrap_err();
    assert_eq!(r.message, "Only recipient can withdraw");
}

#[test]
fn withdraw_rejects_wrong_preimage() {
    let (store, id) = store_with_alice_swap();
    let request = WithdrawRequest { swap_id: id, preimage: s("wrong") };
    let r = withdraw_prepare(&store, &s("bob"), 2000, &request).unwrap_err();
    assert_eq!(r.message, "Invalid preimage");
}

#[test]
fn failed_transfer_leaves_record_untouched() {
    let (mut store, id) = store_with_alice_swap();
    let request = WithdrawRequest { swap_id: id.clone(), preimage: s("secret") };
    withdraw_prepare(&store, &s("bob"), 2000, &request).expect("transfer ordered");
    let r = withdraw_finalize(&mut store, &request, None);
    assert!(!r.success);
    assert_eq!(r.message, "Transfer failed");
    let stored = get_swap(&store, id).unwrap();
    assert!(!stored.withdrawn && !stored.refunded);
    assert!(stored.preimage.is_none());
}

#[test]
fn second_withdraw_reports_already_withdrawn() {
    let (mut store, id) = store_with_alice_swap();
    let request = WithdrawRequest { swap_id: id, preimage: s("secret") };
    withdraw_prepare(&store, &s("bob"), 2000, &request).expect("transfer ordered");
    assert!(withdraw_finalize(&mut store, &request, Some(1)).success);
    let r = withdraw_prepare(&store, &s("bob"), 2000, &request).unwrap_err();
    assert_eq!(r.message, "Already withdrawn");
}

#[test]
fn suspended_withdraw_loses_to_completed_withdraw() {
    let (mut store, id) = store_with_alice_swap();
    let first = WithdrawRequest { swap_id: id.clone(), preimage: s("secret") };
    let second = WithdrawRequest { swap_id: id, preimage: s("secret") };
    // Both withdraws pass phase one against the same open snapshot.
    withdraw_prepare(&store, &s("bob"), 2000, &first).expect("transfer ordered");
    withdraw_prepare(&store, &s("bob"), 2000, &second).expect("transfer ordered");
    // The second resumes first and commits.
    assert!(withdraw_finalize(&mut store, &second, Some(2)).success);
    // The first's transfer also succeeded, but its commit must observe the
    // terminal state, not overwrite it.
    let r = withdraw_finalize(&mut store, &first, Some(3));
    assert!(!r.success);
    assert_eq!(r.message, "Already withdrawn");
}

#[test]
fn suspended_withdraw_loses_to_refund() {
    let (mut store, id) = store_with_alice_swap();
    let request = WithdrawRequest { swap_id: id.clone(), preimage: s("secret") };
    // Phase one passes before expiry; the transfer suspends.
    withdraw_prepare(&store, &s("bob"), 2000, &request).expect("transfer ordered");
    // Time passes during the suspension and the sender refunds.
    let refund_request = RefundRequest { swap_id: id.clone() };
    assert!(refund(&mut store, &s("alice"), 5000, &refund_request).success);
    // The withdraw's commit must lose, even with a successful transfer.
    let r = withdraw_finalize(&mut store, &request, Some(4));
    assert!(!r.success);
    assert_eq!(r.message, "Already refunded");
    let stored = get_swap(&store, id).unwrap();
    assert!(stored.refunded && !stored.withdrawn);
}

#[test]
fn refund_happy_path_after_expiry() {
    let (mut store, id) = store_with_alice_swap();
    let request = RefundRequest { swap_id: id.clone() };
    let r = refund(&mut store, &s("alice"), 4600, &request);
    assert!(r.success);
    assert_eq!(r.message, "Refund successful");
    assert!(r.transfer_result.is_none());
    let stored = get_swap(&store, id).unwrap();
    assert!(stored.refunded && !stored.withdrawn);
    assert!(stored.preimage.is_none());
}

#[test]
fn refund_rejects_unknown_id() {
    let (mut store, _) = store_with_alice_swap();
    let request = RefundRequest { swap_id: s("nobody_nothing") };
    let r = refund(&mut store, &s("alice"), 5000, &request);
    assert!(!r.success);
    assert_eq!(r.message, "Swap not found");
}

#[test]
fn refund_rejects_before_expiry() {
    let (mut store, id) = store_with_alice_swap();
    let request = RefundRequest { swap_id: id };
    let r = refund(&mut store, &s("alice"), 4599, &request);
    assert!(!r.success);
    assert_eq!(r.message, "Timelock has not expired yet");
}

#[test]
fn refund_rejects_wrong_caller() {
    let (mut store, id) = store_with_alice_swap();
    let request = RefundRequest { swap_id: id };
    let r = refund(&mut store, &s("bob"), 5000, &request);
    assert!(!r.success);
    assert_eq!(r.message, "Only sender can refund");
}

#[test]
fn refund_rejects_withdrawn_swap() {
    let (mut store, id) = store_with_alice_swap();
    let withdraw_request = WithdrawRequest { swap_id: id.clone(), preimage: s("secret") };
    withdraw_prepare(&store, &s("bob"), 2000, &withdraw_request).expect("transfer ordered");
    assert!(withdraw_finalize(&mut store, &withdraw_request, Some(5)).success);
    let r = refund(&mut store, &s("alice"), 5000, &RefundRequest { swap_id: id });
    assert!(!r.success);
    assert_eq!(r.message, "Already withdrawn");
}

#[test]
fn second_refund_reports_already_refunded() {
    let (mut store, id) = store_with_alice_swap();
    assert!(refund(&mut store, &s("alice"), 5000, &RefundRequest { swap_id: id.clone() }).success);
    let r = refund(&mut store, &s("alice"), 5000, &RefundRequest { swap_id: id });
    assert!(!r.success);
    assert_eq!(r.message, "Already refunded");
}

#[test]
fn full_scenario() {
    // sender alice, preimage "secret", amount 100, timelock now + 3600.
    let now = 1000;
    let mut store = SwapStore::new();
    let hashlock = hash_preimage(s("secret"));
    let r = create_swap(
        &mut store,
        s("alice"),
        now,
        CreateSwapRequest {
            recipient: s("bob"),
            amount: 100,
            hashlock: hashlock.clone(),
            timelock: now + 3600,
            ledger_id: s("ledger-1"),
        },
    );
    assert!(r.success);
    let id = r.swap_id.unwrap();
    assert_eq!(id, generate_swap_id(&s("alice"), &hashlock));

    // Withdraw by the designated recipient before expiry, transfer succeeds.
    let withdraw_request = WithdrawRequest { swap_id: id.clone(), preimage: s("secret") };
    withdraw_prepare(&store, &s("bob"), now + 10, &withdraw_request).expect("transfer ordered");
    let r = withdraw_finalize(&mut store, &withdraw_request, Some(42));
    assert!(r.success);
    assert!(get_swap(&store, id.clone()).unwrap().withdrawn);

    // A second withdraw fails terminally.
    let r = withdraw_prepare(&store, &s("bob"), now + 20, &withdraw_request).unwrap_err();
    assert_eq!(r.message, "Already withdrawn");

    // A wrong preimage on a fresh swap fails with the preimage message.
    let fresh_hashlock = hash_preimage(s("fresh"));
    let r = create_swap(
        &mut store,
        s("alice"),
        now,
        CreateSwapRequest {
            recipient: s("bob"),
            amount: 100,
            hashlock: fresh_hashlock.clone(),
            timelock: now + 3600,
            ledger_id: s("ledger-1"),
        },
    );
    assert!(r.success);
    let fresh_id = r.swap_id.unwrap();
    let wrong = WithdrawRequest { swap_id: fresh_id.clone(), preimage: s("wrong") };
    let r = withdraw_prepare(&store, &s("bob"), now + 30, &wrong).unwrap_err();
    assert_eq!(r.message, "Invalid preimage");

    // Refund before expiry fails; after expiry, by alice, it succeeds.
    let refund_request = RefundRequest { swap_id: fresh_id.clone() };
    let r = refund(&mut store, &s("alice"), now + 40, &refund_request);
    assert_eq!(r.message, "Timelock has not expired yet");
    let r = refund(&mut store, &s("alice"), now + 3600, &refund_request);
    assert!(r.success);
    assert!(get_swap(&store, fresh_id).unwrap().refunded);
}

#[test]
fn queries_project_the_store() {
    let mut store = SwapStore::new();
    let h1 = hash_preimage(s("one"));
    let h2 = hash_preimage(s("two"));
    let h3 = hash_preimage(s("three"));
    assert!(create_swap(&mut store, s("alice"), 1000, valid_request(h1.clone())).success);
    assert!(
        create_swap(
            &mut store,
            s("carol"),
            1000,
            CreateSwapRequest {
                recipient: s("dave"),
                amount: 5,
                hashlock: h2,
                timelock: 2000,
                ledger_id: s("ledger-2"),
            },
        )
        .success
    );
    assert!(create_swap(&mut store, s("alice"), 1000, valid_request(h3)).success);
    assert_eq!(get_swap_count(&store), 3);
    assert_eq!(get_all_swaps(&store).len(), 3);
    assert_eq!(get_swaps_by_sender(&store, s("alice")).len(), 2);
    assert_eq!(get_swaps_by_sender(&store, s("carol")).len(), 1);
    assert_eq!(get_swaps_by_sender(&store, s("nobody")).len(), 0);
    assert_eq!(get_swaps_by_recipient(&store, s("bob")).len(), 2);
    assert_eq!(get_swaps_by_recipient(&store, s("dave")).len(), 1);

    // Withdraw the first swap; it leaves the active listing.
    let id1 = generate_swap_id(&s("alice"), &h1);
    let withdraw_request = WithdrawRequest { swap_id: id1.clone(), preimage: s("one") };
    withdraw_prepare(&store, &s("bob"), 1500, &withdraw_request).expect("transfer ordered");
    assert!(withdraw_finalize(&mut store, &withdraw_request, Some(9)).success);
    let active = get_active_swaps(&store);
    assert_eq!(active.len(), 2);
    assert!(active.iter().all(|e| !e.1.withdrawn && !e.1.refunded));
    assert!(active.iter().all(|e| e.0 != id1));

    // At instant 2000 only carol's open swap has expired.
    let expired = get_expired_swaps(&store, 2000);
    assert_eq!(expired.len(), 1);
    assert_eq!(expired[0].1.sender, "carol");

    // At instant 4600 both open swaps have expired; the withdrawn one never
    // appears.
    let expired = get_expired_swaps(&store, 4600);
    assert_eq!(expired.len(), 2);
    assert!(expired.iter().all(|e| e.0 != id1));
}

#[test]
fn version_string() {
    assert_eq!(get_version(), "1.0.0");
}
