use smart_wallet::error::ErrorCode;
use smart_wallet::key::Pubkey;
use smart_wallet::wallet::{change_threshold, create_smart_wallet, set_owners};
use smart_wallet::{DEFAULT_GRACE_PERIOD, MAX_DELAY_SECONDS};

fn key(n: u64) -> Pubkey {
    Pubkey::new(n, 0, 0, 0)
}

fn keys(ns: &[u64]) -> Vec<Pubkey> {
    ns.iter().map(|&n| key(n)).collect()
}

#[test]
fn create_wallet_sets_every_field() {
    let (wallet, event) =
        create_smart_wallet(key(90), key(1), 3, keys(&[1, 2, 3]), 2, 60, 1000).unwrap();
    assert_eq!(wallet.base, key(1));
    assert_eq!(wallet.bump, 3);
    assert_eq!(wallet.threshold, 2);
    assert_eq!(wallet.minimum_delay, 60);
    assert_eq!(wallet.grace_period, DEFAULT_GRACE_PERIOD);
    assert_eq!(wallet.owner_set_seqno, 0);
    assert_eq!(wallet.num_transactions, 0);
    assert_eq!(wallet.owners, keys(&[1, 2, 3]));
    assert_eq!(event.smart_wallet, key(90));
    assert_eq!(event.owners, keys(&[1, 2, 3]));
    assert_eq!(event.threshold, 2);
    assert_eq!(event.minimum_delay, 60);
    assert_eq!(event.timestamp, 1000);
}

#[test]
fn create_wallet_rejects_zero_threshold() {
    let r = create_smart_wallet(key(90), key(1), 0, keys(&[1, 2]), 0, 0, 1000);
    assert_eq!(r.unwrap_err(), ErrorCode::InvalidThreshold);
}

#[test]
fn create_wallet_rejects_threshold_over_owner_count() {
    let r = create_smart_wallet(key(90), key(1), 0, keys(&[1, 2]), 3, 0, 1000);
    assert_eq!(r.unwrap_err(), ErrorCode::InvalidThreshold);
}

#[test]
fn create_wallet_rejects_negative_delay() {
    let r = create_smart_wallet(key(90), key(1), 0, keys(&[1, 2]), 2, -1, 1000);
    assert_eq!(r.unwrap_err(), ErrorCode::DelayTooHigh);
}

#[test]
fn create_wallet_rejects_delay_at_ceiling() {
    let r = create_smart_wallet(key(90), key(1), 0, keys(&[1, 2]), 2, MAX_DELAY_SECONDS, 1000);
    assert_eq!(r.unwrap_err(), ErrorCode::DelayTooHigh);
    let ok = create_smart_wallet(key(90), key(1), 0, keys(&[1, 2]), 2, MAX_DELAY_SECONDS - 1, 1000);
    assert!(ok.is_ok());
}

#[test]
fn set_owners_replaces_list_and_bumps_seqno() {
    let (mut wallet, _) =
        create_smart_wallet(key(90), key(1), 0, keys(&[1, 2, 3]), 2, 0, 1000).unwrap();
    let event = set_owners(&mut wallet, key(90), keys(&[1, 4]), 2000);
    assert_eq!(wallet.owners, keys(&[1, 4]));
    assert_eq!(wallet.owner_set_seqno, 1);
    assert_eq!(wallet.threshold, 2);
    assert_eq!(event.smart_wallet, key(90));
    assert_eq!(event.owners, keys(&[1, 4]));
    assert_eq!(event.timestamp, 2000);
}

#[test]
fn set_owners_clamps_threshold_to_new_length() {
    let (mut wallet, _) =
        create_smart_wallet(key(90), key(1), 0, keys(&[1, 2, 3]), 3, 0, 1000).unwrap();
    set_owners(&mut wallet, key(90), keys(&[5]), 2000);
    assert_eq!(wallet.threshold, 1);
    assert_eq!(wallet.owner_set_seqno, 1);
}

#[test]
fn change_threshold_updates_within_bounds() {
    let (mut wallet, _) =
        create_smart_wallet(key(90), key(1), 0, keys(&[1, 2, 3]), 2, 0, 1000).unwrap();
    let event = change_threshold(&mut wallet, key(90), 3, 2000).unwrap();
    assert_eq!(wallet.threshold, 3);
    assert_eq!(event.threshold, 3);
    assert_eq!(event.timestamp, 2000);
}

#[test]
fn change_threshold_rejects_more_than_owners() {
    let (mut wallet, _) =
        create_smart_wallet(key(90), key(1), 0, keys(&[1, 2, 3]), 2, 0, 1000).unwrap();
    let r = change_threshold(&mut wallet, key(90), 4, 2000);
    assert_eq!(r.unwrap_err(), ErrorCode::InvalidThreshold);
    assert_eq!(wallet.threshold, 2);
}

#[test]
fn owner_index_finds_first_occurrence() {
    let (wallet, _) =
        create_smart_wallet(key(90), key(1), 0, keys(&[7, 8, 9]), 2, 0, 1000).unwrap();
    assert_eq!(wallet.owner_index(key(7)).unwrap(), 0);
    assert_eq!(wallet.owner_index(key(9)).unwrap(), 2);
    assert_eq!(wallet.owner_index(key(5)).unwrap_err(), ErrorCode::InvalidOwner);
}

#[test]
fn set_owners_to_empty_list_clamps_threshold_to_zero() {
    let (mut wallet, _) =
        create_smart_wallet(key(90), key(1), 0, keys(&[1, 2]), 2, 0, 1000).unwrap();
    set_owners(&mut wallet, key(90), Vec::new(), 2000);
    assert!(wallet.owners.is_empty());
    assert_eq!(wallet.threshold, 0);
    assert_eq!(wallet.owner_set_seqno, 1);
}

#[test]
fn error_messages_name_the_failure() {
    assert_eq!(
        ErrorCode::NotEnoughSigners.message(),
        "Not enough owners signed this transaction."
    );
    assert_eq!(
        ErrorCode::OwnerSetChanged.message(),
        "Owner set has changed since the creation of the transaction."
    );
    assert_eq!(ErrorCode::BufferFinalized.message(), "The buffer is already finalized.");
}
