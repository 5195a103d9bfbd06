use smart_wallet::error::ErrorCode;
use smart_wallet::key::Pubkey;
use smart_wallet::state::{SmartWallet, TXInstruction, Transaction};
use smart_wallet::transaction::{
    approve, create_transaction, create_transaction_with_timelock, execute_transaction,
    unapprove, validate_execute,
};
use smart_wallet::wallet::{create_smart_wallet, set_owners};
use smart_wallet::{MAX_DELAY_SECONDS, NO_ETA};

fn key(n: u64) -> Pubkey {
    Pubkey::new(n, 0, 0, 0)
}

fn keys(ns: &[u64]) -> Vec<Pubkey> {
    ns.iter().map(|&n| key(n)).collect()
}

fn ix(tag: u64) -> TXInstruction {
    TXInstruction { program_id: key(tag), keys: Vec::new(), data: vec![1, 2, 3] }
}

fn wallet_of(owner_tags: &[u64], threshold: u64, minimum_delay: i64) -> SmartWallet {
    let (wallet, _) =
        create_smart_wallet(key(90), key(1), 0, keys(owner_tags), threshold, minimum_delay, 1000)
            .unwrap();
    wallet
}

fn propose(wallet: &mut SmartWallet, proposer: Pubkey, eta: i64, now: i64) -> Transaction {
    let (tx, _) = create_transaction_with_timelock(
        wallet,
        key(90),
        key(80),
        0,
        proposer,
        vec![ix(42)],
        eta,
        now,
    )
    .unwrap();
    tx
}

#[test]
fn create_transaction_auto_approves_proposer() {
    let mut wallet = wallet_of(&[1, 2, 3], 2, 0);
    let (tx, event) =
        create_transaction(&mut wallet, key(90), key(80), 5, key(2), vec![ix(42)], 1000).unwrap();
    assert_eq!(tx.smart_wallet, key(90));
    assert_eq!(tx.index, 0);
    assert_eq!(tx.bump, 5);
    assert_eq!(tx.proposer, key(2));
    assert_eq!(tx.instructions, vec![ix(42)]);
    assert_eq!(tx.signers, vec![false, true, false]);
    assert_eq!(tx.owner_set_seqno, 0);
    assert_eq!(tx.eta, NO_ETA);
    assert_eq!(tx.executor, Pubkey::default());
    assert_eq!(tx.executed_at, -1);
    assert_eq!(tx.num_signers(), 1);
    assert_eq!(wallet.num_transactions, 1);
    assert_eq!(event.proposer, key(2));
    assert_eq!(event.eta, NO_ETA);
}

#[test]
fn transaction_indices_count_up() {
    let mut wallet = wallet_of(&[1, 2], 1, 0);
    let first = propose(&mut wallet, key(1), NO_ETA, 1000);
    let second = propose(&mut wallet, key(2), NO_ETA, 1000);
    assert_eq!(first.index, 0);
    assert_eq!(second.index, 1);
    assert_eq!(wallet.num_transactions, 2);
}

#[test]
fn create_transaction_rejects_non_owner() {
    let mut wallet = wallet_of(&[1, 2], 1, 0);
    let r = create_transaction(&mut wallet, key(90), key(80), 0, key(5), vec![ix(42)], 1000);
    assert_eq!(r.unwrap_err(), ErrorCode::InvalidOwner);
    assert_eq!(wallet.num_transactions, 0);
}

#[test]
fn minimum_delay_forces_eta() {
    let mut wallet = wallet_of(&[1, 2], 1, 600);
    let r = create_transaction_with_timelock(
        &mut wallet,
        key(90),
        key(80),
        0,
        key(1),
        vec![ix(42)],
        1599,
        1000,
    );
    assert_eq!(r.unwrap_err(), ErrorCode::InvalidETA);
    let ok = create_transaction_with_timelock(
        &mut wallet,
        key(90),
        key(80),
        0,
        key(1),
        vec![ix(42)],
        1600,
        1000,
    );
    assert!(ok.is_ok());
}

#[test]
fn minimum_delay_rejects_no_eta_sentinel() {
    let mut wallet = wallet_of(&[1, 2], 1, 600);
    let r = create_transaction_with_timelock(
        &mut wallet,
        key(90),
        key(80),
        0,
        key(1),
        vec![ix(42)],
        NO_ETA,
        1000,
    );
    assert_eq!(r.unwrap_err(), ErrorCode::InvalidETA);
}

#[test]
fn eta_must_not_lie_in_the_past() {
    let mut wallet = wallet_of(&[1, 2], 1, 0);
    let r = create_transaction_with_timelock(
        &mut wallet,
        key(90),
        key(80),
        0,
        key(1),
        vec![ix(42)],
        999,
        1000,
    );
    assert_eq!(r.unwrap_err(), ErrorCode::InvalidETA);
}

#[test]
fn eta_must_not_lie_too_far_ahead() {
    let mut wallet = wallet_of(&[1, 2], 1, 0);
    let r = create_transaction_with_timelock(
        &mut wallet,
        key(90),
        key(80),
        0,
        key(1),
        vec![ix(42)],
        1000 + MAX_DELAY_SECONDS + 1,
        1000,
    );
    assert_eq!(r.unwrap_err(), ErrorCode::DelayTooHigh);
    let ok = create_transaction_with_timelock(
        &mut wallet,
        key(90),
        key(80),
        0,
        key(1),
        vec![ix(42)],
        1000 + MAX_DELAY_SECONDS,
        1000,
    );
    assert!(ok.is_ok());
}

#[test]
fn approve_then_unapprove_restores_the_vector() {
    let mut wallet = wallet_of(&[1, 2, 3], 2, 0);
    let mut tx = propose(&mut wallet, key(1), NO_ETA, 1000);
    let original = tx.signers.clone();
    approve(&wallet, key(90), &mut tx, key(80), key(3), 1100).unwrap();
    assert_eq!(tx.signers, vec![true, false, true]);
    unapprove(&wallet, key(90), &mut tx, key(80), key(3), 1200).unwrap();
    assert_eq!(tx.signers, original);
}

#[test]
fn approve_twice_does_not_accumulate() {
    let mut wallet = wallet_of(&[1, 2, 3], 2, 0);
    let mut tx = propose(&mut wallet, key(1), NO_ETA, 1000);
    approve(&wallet, key(90), &mut tx, key(80), key(2), 1100).unwrap();
    approve(&wallet, key(90), &mut tx, key(80), key(2), 1200).unwrap();
    assert_eq!(tx.signers, vec![true, true, false]);
    assert_eq!(tx.num_signers(), 2);
}

#[test]
fn approve_rejects_non_owner() {
    let mut wallet = wallet_of(&[1, 2], 1, 0);
    let mut tx = propose(&mut wallet, key(1), NO_ETA, 1000);
    let r = approve(&wallet, key(90), &mut tx, key(80), key(7), 1100);
    assert_eq!(r.unwrap_err(), ErrorCode::InvalidOwner);
    assert_eq!(tx.signers, vec![true, false]);
}

#[test]
fn owner_set_change_invalidates_old_transaction() {
    // Owners [A, B, C], threshold 2; A and B approve; then the owner set
    // becomes [A, D]: the old transaction can neither be approved nor
    // executed, even though it had enough approvals.
    let mut wallet = wallet_of(&[1, 2, 3], 2, 0);
    let mut tx = propose(&mut wallet, key(1), NO_ETA, 1000);
    approve(&wallet, key(90), &mut tx, key(80), key(2), 1100).unwrap();
    assert_eq!(tx.num_signers(), 2);
    set_owners(&mut wallet, key(90), keys(&[1, 4]), 1200);
    let r = approve(&wallet, key(90), &mut tx, key(80), key(1), 1300);
    assert_eq!(r.unwrap_err(), ErrorCode::OwnerSetChanged);
    let r = execute_transaction(&wallet, key(90), &mut tx, key(80), key(1), 1300);
    assert_eq!(r.unwrap_err(), ErrorCode::OwnerSetChanged);
    assert_eq!(tx.executed_at, -1);
}

#[test]
fn execute_needs_quorum_then_succeeds_once() {
    // Owners [A, B], threshold 2, no minimum delay. A proposes with no ETA
    // floor and has auto-approved (1 of 2): execution fails NotEnoughSigners.
    // B approves (2 of 2): execution succeeds exactly once.
    let mut wallet = wallet_of(&[1, 2], 2, 0);
    let mut tx = propose(&mut wallet, key(1), NO_ETA, 1000);
    let r = execute_transaction(&wallet, key(90), &mut tx, key(80), key(1), 1100);
    assert_eq!(r.unwrap_err(), ErrorCode::NotEnoughSigners);
    assert_eq!(tx.executed_at, -1);
    approve(&wallet, key(90), &mut tx, key(80), key(2), 1200).unwrap();
    let event = execute_transaction(&wallet, key(90), &mut tx, key(80), key(1), 1300).unwrap();
    assert_eq!(tx.executed_at, 1300);
    assert_eq!(tx.executor, key(1));
    assert_eq!(event.executor, key(1));
    assert_eq!(event.timestamp, 1300);
    // The instruction set is still there, untouched, for the host to invoke.
    assert_eq!(tx.instructions, vec![ix(42)]);
}

#[test]
fn execute_twice_fails_already_executed() {
    let mut wallet = wallet_of(&[1, 2], 1, 0);
    let mut tx = propose(&mut wallet, key(1), NO_ETA, 1000);
    execute_transaction(&wallet, key(90), &mut tx, key(80), key(1), 1100).unwrap();
    let instructions_after_first = tx.instructions.clone();
    let r = execute_transaction(&wallet, key(90), &mut tx, key(80), key(2), 1200);
    assert_eq!(r.unwrap_err(), ErrorCode::AlreadyExecuted);
    assert_eq!(tx.executed_at, 1100);
    assert_eq!(tx.executor, key(1));
    assert_eq!(tx.instructions, instructions_after_first);
}

#[test]
fn approve_rejects_executed_transaction() {
    let mut wallet = wallet_of(&[1, 2], 1, 0);
    let mut tx = propose(&mut wallet, key(1), NO_ETA, 1000);
    execute_transaction(&wallet, key(90), &mut tx, key(80), key(1), 1100).unwrap();
    let r = approve(&wallet, key(90), &mut tx, key(80), key(2), 1200);
    assert_eq!(r.unwrap_err(), ErrorCode::AlreadyExecuted);
    let r = unapprove(&wallet, key(90), &mut tx, key(80), key(1), 1200);
    assert_eq!(r.unwrap_err(), ErrorCode::AlreadyExecuted);
}

#[test]
fn execute_respects_the_timelock() {
    let mut wallet = wallet_of(&[1, 2], 1, 0);
    let mut tx = propose(&mut wallet, key(1), 2000, 1000);
    let r = execute_transaction(&wallet, key(90), &mut tx, key(80), key(1), 1999);
    assert_eq!(r.unwrap_err(), ErrorCode::TransactionNotReady);
    let event = execute_transaction(&wallet, key(90), &mut tx, key(80), key(1), 2000);
    assert!(event.is_ok());
}

#[test]
fn execute_rejects_stale_transaction() {
    let mut wallet = wallet_of(&[1, 2], 1, 0);
    let mut tx = propose(&mut wallet, key(1), 2000, 1000);
    let grace = wallet.grace_period;
    let r = execute_transaction(&wallet, key(90), &mut tx, key(80), key(1), 2000 + grace + 1);
    assert_eq!(r.unwrap_err(), ErrorCode::TransactionIsStale);
    assert_eq!(tx.executed_at, -1);
}

#[test]
fn no_eta_transaction_never_goes_stale() {
    let mut wallet = wallet_of(&[1, 2], 1, 0);
    let mut tx = propose(&mut wallet, key(1), NO_ETA, 1000);
    let far = 1000 + 100 * MAX_DELAY_SECONDS;
    let r = execute_transaction(&wallet, key(90), &mut tx, key(80), key(1), far);
    assert!(r.is_ok());
}

#[test]
fn execute_rejects_non_owner_executor() {
    let mut wallet = wallet_of(&[1, 2], 1, 0);
    let mut tx = propose(&mut wallet, key(1), NO_ETA, 1000);
    let r = execute_transaction(&wallet, key(90), &mut tx, key(80), key(7), 1100);
    assert_eq!(r.unwrap_err(), ErrorCode::InvalidOwner);
    assert_eq!(tx.executed_at, -1);
}

#[test]
fn validate_execute_reports_without_mutating() {
    let mut wallet = wallet_of(&[1, 2], 2, 0);
    let tx = propose(&mut wallet, key(1), NO_ETA, 1000);
    let r = validate_execute(&wallet, &tx, key(1), 1100);
    assert_eq!(r.unwrap_err(), ErrorCode::NotEnoughSigners);
    assert_eq!(tx.executed_at, -1);
}
