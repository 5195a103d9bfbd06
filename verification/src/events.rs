//! Receipts the wallet and transaction operations hand back on success.
//!
//! The engine does not talk to a telemetry sink itself; each mutating
//! operation returns the event value describing what happened, and the host
//! runtime emits it.

use vstd::prelude::*;

use crate::key::Pubkey;

verus! {

/// Emitted when a smart wallet is created.
#[derive(Clone, Debug, PartialEq)]
pub struct WalletCreateEvent {
    /// The wallet.
    pub smart_wallet: Pubkey,
    /// The owners of the created wallet.
    pub owners: Vec<Pubkey>,
    /// The threshold at the time of creation.
    pub threshold: u64,
    /// The minimum delay at the time of creation.
    pub minimum_delay: i64,
    /// The Unix timestamp when the event was emitted.
    pub timestamp: i64,
}

/// Emitted when the owners of a smart wallet are changed.
#[derive(Clone, Debug, PartialEq)]
pub struct WalletSetOwnersEvent {
    /// The wallet.
    pub smart_wallet: Pubkey,
    /// The new owners of the wallet.
    pub owners: Vec<Pubkey>,
    /// The Unix timestamp when the event was emitted.
    pub timestamp: i64,
}

/// Emitted when the threshold of a smart wallet is changed.
#[derive(Clone, Copy, Debug, PartialEq, Eq, Structural)]
pub struct WalletChangeThresholdEvent {
    /// The wallet.
    pub smart_wallet: Pubkey,
    /// The new threshold.
    pub threshold: u64,
    /// The Unix timestamp when the event was emitted.
    pub timestamp: i64,
}

/// Emitted when a transaction is proposed.
#[derive(Clone, Copy, Debug, PartialEq, Eq, Structural)]
pub struct TransactionCreateEvent {
    /// The wallet.
    pub smart_wallet: Pubkey,
    /// The transaction.
    pub transaction: Pubkey,
    /// The owner that proposed the transaction.
    pub proposer: Pubkey,
    /// The transaction's ETA.
    pub eta: i64,
    /// The Unix timestamp when the event was emitted.
    pub timestamp: i64,
}

/// Emitted when a transaction is approved.
#[derive(Clone, Copy, Debug, PartialEq, Eq, Structural)]
pub struct TransactionApproveEvent {
    /// The wallet.
    pub smart_wallet: Pubkey,
    /// The transaction.
    pub transaction: Pubkey,
    /// The owner that approved.
    pub owner: Pubkey,
    /// The Unix timestamp when the event was emitted.
    pub timestamp: i64,
}

/// Emitted when a transaction approval is withdrawn.
#[derive(Clone, Copy, Debug, PartialEq, Eq, Structural)]
pub struct TransactionUnapproveEvent {
    /// The wallet.
    pub smart_wallet: Pubkey,
    /// The transaction.
    pub transaction: Pubkey,
    /// The owner that withdrew the approval.
    pub owner: Pubkey,
    /// The Unix timestamp when the event was emitted.
    pub timestamp: i64,
}

/// Emitted when a transaction is executed.
#[derive(Clone, Copy, Debug, PartialEq, Eq, Structural)]
pub struct TransactionExecuteEvent {
    /// The wallet.
    pub smart_wallet: Pubkey,
    /// The transaction.
    pub transaction: Pubkey,
    /// The identity that executed the transaction.
    pub executor: Pubkey,
    /// The Unix timestamp when the event was emitted.
    pub timestamp: i64,
}

} // verus!
