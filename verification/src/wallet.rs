//! Wallet lifecycle: creation, ownership changes, threshold changes.
//!
//! [`set_owners`] and [`change_threshold`] amend the wallet itself. The host
//! runtime must only reach them through a successfully executed transaction
//! that targets the wallet (self-amendment); that caller-identity check lives
//! at the boundary, not in this component.

use vstd::prelude::*;

use crate::error::ErrorCode;
use crate::events::{WalletChangeThresholdEvent, WalletCreateEvent, WalletSetOwnersEvent};
use crate::key::{copy_keys, Pubkey};
use crate::state::{unique_keys, SmartWallet};
use crate::{DEFAULT_GRACE_PERIOD, MAX_DELAY_SECONDS};

verus! {

/// Creates a new [`SmartWallet`] with a set of owners and a threshold.
///
/// Fails with [`ErrorCode::DelayTooHigh`] when `minimum_delay` is negative or
/// reaches [`MAX_DELAY_SECONDS`], and with [`ErrorCode::InvalidThreshold`]
/// when `threshold` lies outside `1 ..= owners.len()`.
pub fn create_smart_wallet(
    smart_wallet_key: Pubkey,
    base: Pubkey,
    bump: u8,
    owners: Vec<Pubkey>,
    threshold: u64,
    minimum_delay: i64,
    now: i64,
) -> (r: Result<(SmartWallet, WalletCreateEvent), ErrorCode>)
    requires
        unique_keys(owners@),
    ensures
        match r {
            Ok((wallet, event)) => {
                &&& 0 <= minimum_delay < MAX_DELAY_SECONDS
                &&& 1 <= threshold <= owners@.len()
                &&& wallet.base == base
                &&& wallet.bump == bump
                &&& wallet.threshold == threshold
                &&& wallet.minimum_delay == minimum_delay
                &&& wallet.grace_period == DEFAULT_GRACE_PERIOD
                &&& wallet.owner_set_seqno == 0
                &&& wallet.num_transactions == 0
                &&& wallet.owners@ == owners@
                &&& wallet.wf()
                &&& event.smart_wallet == smart_wallet_key
                &&& event.owners@ == owners@
                &&& event.threshold == threshold
                &&& event.minimum_delay == minimum_delay
                &&& event.timestamp == now
            },
            Err(ErrorCode::DelayTooHigh) => !(0 <= minimum_delay < MAX_DELAY_SECONDS),
            Err(ErrorCode::InvalidThreshold) => {
                &&& 0 <= minimum_delay < MAX_DELAY_SECONDS
                &&& !(1 <= threshold <= owners@.len())
            },
            Err(_) => false,
        },
{
    if minimum_delay < 0 || minimum_delay >= MAX_DELAY_SECONDS {
        return Err(ErrorCode::DelayTooHigh);
    }
    if threshold < 1 || threshold > owners.len() as u64 {
        return Err(ErrorCode::InvalidThreshold);
    }
    let event_owners = copy_keys(&owners);
    let wallet = SmartWallet {
        base,
        bump,
        threshold,
        minimum_delay,
        grace_period: DEFAULT_GRACE_PERIOD,
        owner_set_seqno: 0,
        num_transactions: 0,
        owners,
    };
    let event = WalletCreateEvent {
        smart_wallet: smart_wallet_key,
        owners: event_owners,
        threshold,
        minimum_delay,
        timestamp: now,
    };
    Ok((wallet, event))
}

/// Replaces the owner list.
///
/// Never fails: when the new list is shorter than the current threshold, the
/// threshold is clamped down to the new length. Bumps the ownership sequence
/// number, permanently invalidating every in-flight transaction and buffer
/// bound to the previous owner set.
pub fn set_owners(
    smart_wallet: &mut SmartWallet,
    smart_wallet_key: Pubkey,
    owners: Vec<Pubkey>,
    now: i64,
) -> (event: WalletSetOwnersEvent)
    requires
        old(smart_wallet).wf(),
        unique_keys(owners@),
        old(smart_wallet).owner_set_seqno < u32::MAX,
    ensures
        final(smart_wallet).owners@ == owners@,
        final(smart_wallet).threshold == if owners@.len() < old(smart_wallet).threshold {
            owners@.len() as u64
        } else {
            old(smart_wallet).threshold
        },
        final(smart_wallet).owner_set_seqno == old(smart_wallet).owner_set_seqno + 1,
        final(smart_wallet).base == old(smart_wallet).base,
        final(smart_wallet).bump == old(smart_wallet).bump,
        final(smart_wallet).minimum_delay == old(smart_wallet).minimum_delay,
        final(smart_wallet).grace_period == old(smart_wallet).grace_period,
        final(smart_wallet).num_transactions == old(smart_wallet).num_transactions,
        final(smart_wallet).wf(),
        event.smart_wallet == smart_wallet_key,
        event.owners@ == owners@,
        event.timestamp == now,
{
    if (owners.len() as u64) < smart_wallet.threshold {
        smart_wallet.threshold = owners.len() as u64;
    }
    let event_owners = copy_keys(&owners);
    smart_wallet.owners = owners;
    smart_wallet.owner_set_seqno = smart_wallet.owner_set_seqno + 1;
    WalletSetOwnersEvent { smart_wallet: smart_wallet_key, owners: event_owners, timestamp: now }
}

/// Changes the execution threshold of the wallet.
///
/// Fails with [`ErrorCode::InvalidThreshold`], and changes nothing, when the
/// new threshold exceeds the number of owners — regardless of who asks.
pub fn change_threshold(
    smart_wallet: &mut SmartWallet,
    smart_wallet_key: Pubkey,
    threshold: u64,
    now: i64,
) -> (r: Result<WalletChangeThresholdEvent, ErrorCode>)
    requires
        old(smart_wallet).wf(),
    ensures
        match r {
            Ok(event) => {
                &&& threshold <= old(smart_wallet).owners@.len()
                &&& *final(smart_wallet) == (SmartWallet { threshold, ..*old(smart_wallet) })
                &&& final(smart_wallet).wf()
                &&& event == (WalletChangeThresholdEvent {
                    smart_wallet: smart_wallet_key,
                    threshold,
                    timestamp: now,
                })
            },
            Err(e) => {
                &&& e == ErrorCode::InvalidThreshold
                &&& threshold > old(smart_wallet).owners@.len()
                &&& *final(smart_wallet) == *old(smart_wallet)
            },
        },
{
    if threshold > smart_wallet.owners.len() as u64 {
        return Err(ErrorCode::InvalidThreshold);
    }
    smart_wallet.threshold = threshold;
    Ok(WalletChangeThresholdEvent { smart_wallet: smart_wallet_key, threshold, timestamp: now })
}

} // verus!
