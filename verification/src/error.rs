//! Program errors.

use vstd::prelude::*;

verus! {

/// Every way an operation of this crate can fail.
///
/// Authorization errors ([`ErrorCode::InvalidOwner`],
/// [`ErrorCode::BufferRoleInvalid`]) are fatal to the call; staleness errors
/// ([`ErrorCode::OwnerSetChanged`], [`ErrorCode::TransactionIsStale`],
/// [`ErrorCode::AlreadyExecuted`]) mean the transaction or buffer is
/// permanently dead; [`ErrorCode::TransactionNotReady`] is transient and the
/// caller may retry after the ETA; the rest are defects in the caller's
/// input.
#[derive(Clone, Copy, Debug, PartialEq, Eq, Structural)]
pub enum ErrorCode {
    /// The given owner is not part of this smart wallet.
    InvalidOwner,
    /// Estimated execution time does not satisfy the delay.
    InvalidETA,
    /// Delay greater than the maximum.
    DelayTooHigh,
    /// Not enough owners signed this transaction.
    NotEnoughSigners,
    /// Transaction is past the grace period.
    TransactionIsStale,
    /// Transaction hasn't surpassed the time lock.
    TransactionNotReady,
    /// The given transaction has already been executed.
    AlreadyExecuted,
    /// Threshold must be less than or equal to the number of owners.
    InvalidThreshold,
    /// Owner set has changed since the creation of the transaction.
    OwnerSetChanged,
    /// Subaccount does not belong to the smart wallet.
    SubaccountOwnerMismatch,
    /// The given byte names no buffer role.
    InvalidBufferRole,
    /// The caller does not hold the buffer role this operation needs,
    /// the roles are frozen, or the executor role was already assigned.
    BufferRoleInvalid,
    /// The buffer is already finalized; no further writes are permitted.
    BufferFinalized,
    /// The buffer is not finalized yet; nothing may be executed off it.
    BufferNotFinalized,
    /// The addressed bundle lies past the writable range of the buffer.
    BufferBundleOutOfRange,
    /// The addressed bundle does not exist.
    BufferBundleNotFound,
    /// The addressed bundle is already fully executed.
    BufferBundleExecuted,
}

impl ErrorCode {
    /// What [`ErrorCode::message`] returns for each error.
    pub open spec fn message_spec(self) -> Seq<char> {
        match self {
            ErrorCode::InvalidOwner => "The given owner is not part of this smart wallet."@,
            ErrorCode::InvalidETA => "Estimated execution block must satisfy delay."@,
            ErrorCode::DelayTooHigh => "Delay greater than the maximum."@,
            ErrorCode::NotEnoughSigners => "Not enough owners signed this transaction."@,
            ErrorCode::TransactionIsStale => "Transaction is past the grace period."@,
            ErrorCode::TransactionNotReady => "Transaction hasn't surpassed time lock."@,
            ErrorCode::AlreadyExecuted => "The given transaction has already been executed."@,
            ErrorCode::InvalidThreshold => "Threshold must be less than or equal to the number of owners."@,
            ErrorCode::OwnerSetChanged => "Owner set has changed since the creation of the transaction."@,
            ErrorCode::SubaccountOwnerMismatch => "Subaccount does not belong to smart wallet."@,
            ErrorCode::InvalidBufferRole => "Invalid buffer role."@,
            ErrorCode::BufferRoleInvalid => "The caller does not hold the buffer role this operation needs."@,
            ErrorCode::BufferFinalized => "The buffer is already finalized."@,
            ErrorCode::BufferNotFinalized => "The buffer is not finalized yet."@,
            ErrorCode::BufferBundleOutOfRange => "The bundle index is past the writable range."@,
            ErrorCode::BufferBundleNotFound => "The bundle does not exist."@,
            ErrorCode::BufferBundleExecuted => "The bundle is already fully executed."@,
        }
    }

    /// The human-readable message of the error.
    pub fn message(&self) -> (r: &'static str)
        ensures
            r@ == self.message_spec(),
    {
        match self {
            ErrorCode::InvalidOwner => "The given owner is not part of this smart wallet.",
            ErrorCode::InvalidETA => "Estimated execution block must satisfy delay.",
            ErrorCode::DelayTooHigh => "Delay greater than the maximum.",
            ErrorCode::NotEnoughSigners => "Not enough owners signed this transaction.",
            ErrorCode::TransactionIsStale => "Transaction is past the grace period.",
            ErrorCode::TransactionNotReady => "Transaction hasn't surpassed time lock.",
            ErrorCode::AlreadyExecuted => "The given transaction has already been executed.",
            ErrorCode::InvalidThreshold => "Threshold must be less than or equal to the number of owners.",
            ErrorCode::OwnerSetChanged => "Owner set has changed since the creation of the transaction.",
            ErrorCode::SubaccountOwnerMismatch => "Subaccount does not belong to smart wallet.",
            ErrorCode::InvalidBufferRole => "Invalid buffer role.",
            ErrorCode::BufferRoleInvalid => "The caller does not hold the buffer role this operation needs.",
            ErrorCode::BufferFinalized => "The buffer is already finalized.",
            ErrorCode::BufferNotFinalized => "The buffer is not finalized yet.",
            ErrorCode::BufferBundleOutOfRange => "The bundle index is past the writable range.",
            ErrorCode::BufferBundleNotFound => "The bundle does not exist.",
            ErrorCode::BufferBundleExecuted => "The bundle is already fully executed.",
        }
    }
}

} // verus!
