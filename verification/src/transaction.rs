//! Transaction lifecycle: propose, approve, unapprove, execute.
//!
//! A [`Transaction`] is proposed by an owner, collects approval bits, becomes
//! eligible once its ETA has passed and at least
//! [`SmartWallet::threshold`] owners approved, and is executed exactly once.
//! On a successful [`execute_transaction`] the host runtime invokes the
//! transaction's instructions in order under the wallet's authority; if any
//! invocation fails, the host rolls the whole call back, so no partial
//! execution is ever committed.

use vstd::prelude::*;

use crate::error::ErrorCode;
use crate::events::{
    TransactionApproveEvent, TransactionCreateEvent, TransactionExecuteEvent,
    TransactionUnapproveEvent,
};
use crate::key::Pubkey;
use crate::state::{count_true, first_index_of_owner, lemma_count_true_single,
    lemma_first_index_exists, lemma_first_index_unique, SmartWallet, Transaction, TXInstruction};
use crate::{MAX_DELAY_SECONDS, NO_ETA};

verus! {

/// What proposing a transaction decides, in check order: the proposer must
/// be an owner; a nonzero minimum delay forces `eta >= now + minimum_delay`;
/// a real ETA must be a timestamp no earlier than `now` and at most
/// [`MAX_DELAY_SECONDS`] in the future.
pub open spec fn propose_outcome(
    wallet: SmartWallet,
    proposer: Pubkey,
    eta: i64,
    now: i64,
) -> Result<(), ErrorCode> {
    if !wallet.owners@.contains(proposer) {
        Err(ErrorCode::InvalidOwner)
    } else if wallet.minimum_delay != 0 && eta < now + wallet.minimum_delay {
        Err(ErrorCode::InvalidETA)
    } else if eta != NO_ETA && eta < 0 {
        Err(ErrorCode::InvalidETA)
    } else if eta != NO_ETA && eta < now {
        Err(ErrorCode::InvalidETA)
    } else if eta != NO_ETA && eta - now > MAX_DELAY_SECONDS {
        Err(ErrorCode::DelayTooHigh)
    } else {
        Ok(())
    }
}

/// What approving or unapproving decides, in check order: the ownership
/// snapshot must still match, the transaction must not be executed yet, and
/// the caller must be a current owner.
pub open spec fn approve_outcome(
    wallet: SmartWallet,
    transaction: Transaction,
    owner: Pubkey,
) -> Result<(), ErrorCode> {
    if wallet.owner_set_seqno != transaction.owner_set_seqno {
        Err(ErrorCode::OwnerSetChanged)
    } else if transaction.executed_at != -1 {
        Err(ErrorCode::AlreadyExecuted)
    } else if !wallet.owners@.contains(owner) {
        Err(ErrorCode::InvalidOwner)
    } else {
        Ok(())
    }
}

/// What executing decides, in check order: the ownership snapshot must still
/// match; the transaction must not be executed yet; the ETA must have passed;
/// a real ETA must not be past the grace period; at least
/// [`SmartWallet::threshold`] owners must have approved; and the executor is
/// re-checked to be a current owner, so that an identity removed from the
/// wallet cannot force execution with stale authorization.
pub open spec fn execute_outcome(
    wallet: SmartWallet,
    transaction: Transaction,
    executor: Pubkey,
    now: i64,
) -> Result<(), ErrorCode> {
    if wallet.owner_set_seqno != transaction.owner_set_seqno {
        Err(ErrorCode::OwnerSetChanged)
    } else if transaction.executed_at != -1 {
        Err(ErrorCode::AlreadyExecuted)
    } else if now < transaction.eta {
        Err(ErrorCode::TransactionNotReady)
    } else if transaction.eta != NO_ETA && now > transaction.eta + wallet.grace_period {
        Err(ErrorCode::TransactionIsStale)
    } else if count_true(transaction.signers@) < wallet.threshold {
        Err(ErrorCode::NotEnoughSigners)
    } else if !wallet.owners@.contains(executor) {
        Err(ErrorCode::InvalidOwner)
    } else {
        Ok(())
    }
}

/// Creates a new [`Transaction`], automatically approved by its proposer,
/// with a time delay.
///
/// On success the transaction snapshots the wallet's ownership sequence
/// number, takes the next transaction index, and carries one approval bit
/// per current owner, all clear except the proposer's.
pub fn create_transaction_with_timelock(
    smart_wallet: &mut SmartWallet,
    smart_wallet_key: Pubkey,
    transaction_key: Pubkey,
    bump: u8,
    proposer: Pubkey,
    instructions: Vec<TXInstruction>,
    eta: i64,
    now: i64,
) -> (r: Result<(Transaction, TransactionCreateEvent), ErrorCode>)
    requires
        old(smart_wallet).wf(),
        0 <= now,
        now + MAX_DELAY_SECONDS <= i64::MAX,
        old(smart_wallet).num_transactions < u64::MAX,
    ensures
        match r {
            Ok((tx, event)) => {
                &&& propose_outcome(*old(smart_wallet), proposer, eta, now) is Ok
                &&& *final(smart_wallet) == (SmartWallet {
                    num_transactions: (old(smart_wallet).num_transactions + 1) as u64,
                    ..*old(smart_wallet)
                })
                &&& tx.smart_wallet == smart_wallet_key
                &&& tx.index == old(smart_wallet).num_transactions
                &&& tx.bump == bump
                &&& tx.proposer == proposer
                &&& tx.instructions@ == instructions@
                &&& tx.signers@.len() == old(smart_wallet).owners@.len()
                &&& forall|j: int|
                    0 <= j < tx.signers@.len() ==> (tx.signers@[j] <==> first_index_of_owner(
                        old(smart_wallet).owners@,
                        proposer,
                        j,
                    ))
                &&& tx.owner_set_seqno == old(smart_wallet).owner_set_seqno
                &&& tx.eta == eta
                &&& tx.executor == Pubkey::empty()
                &&& tx.executed_at == -1
                &&& count_true(tx.signers@) == 1
                &&& tx.consistent_with(*final(smart_wallet))
                &&& event == (TransactionCreateEvent {
                    smart_wallet: smart_wallet_key,
                    transaction: transaction_key,
                    proposer,
                    eta,
                    timestamp: now,
                })
            },
            Err(e) => {
                &&& propose_outcome(*old(smart_wallet), proposer, eta, now) == Err::<
                    (),
                    ErrorCode,
                >(e)
                &&& *final(smart_wallet) == *old(smart_wallet)
            },
        },
{
    let owner_index = match smart_wallet.owner_index(proposer) {
        Ok(i) => i,
        Err(e) => {
            return Err(e);
        },
    };
    if smart_wallet.minimum_delay != 0 && eta < now + smart_wallet.minimum_delay {
        return Err(ErrorCode::InvalidETA);
    }
    if eta != NO_ETA {
        if eta < 0 {
            return Err(ErrorCode::InvalidETA);
        }
        if eta < now {
            return Err(ErrorCode::InvalidETA);
        }
        if eta - now > MAX_DELAY_SECONDS {
            return Err(ErrorCode::DelayTooHigh);
        }
    }
    // The approval vector: all clear but the proposer's bit.
    let mut signers: Vec<bool> = Vec::new();
    let mut i: usize = 0;
    let owners_len = smart_wallet.owners.len();
    while i < owners_len
        invariant
            i <= owners_len,
            signers@.len() == i,
            forall|j: int| 0 <= j < i ==> (signers@[j] <==> j == owner_index as int),
        decreases owners_len - i,
    {
        signers.push(i == owner_index);
        i = i + 1;
    }
    proof {
        assert forall|j: int|
            0 <= j < signers@.len() implies (signers@[j] <==> first_index_of_owner(
            smart_wallet.owners@,
            proposer,
            j,
        )) by {
            if first_index_of_owner(smart_wallet.owners@, proposer, j) {
                lemma_first_index_unique(smart_wallet.owners@, proposer, j, owner_index as int);
            }
        }
        lemma_count_true_single(signers@, owner_index as int);
    }
    let index = smart_wallet.num_transactions;
    smart_wallet.num_transactions = index + 1;
    let tx = Transaction {
        smart_wallet: smart_wallet_key,
        index,
        bump,
        proposer,
        instructions,
        signers,
        owner_set_seqno: smart_wallet.owner_set_seqno,
        eta,
        executor: Pubkey::default(),
        executed_at: -1,
    };
    let event = TransactionCreateEvent {
        smart_wallet: smart_wallet_key,
        transaction: transaction_key,
        proposer,
        eta,
        timestamp: now,
    };
    Ok((tx, event))
}

/// Creates a new [`Transaction`] with no ETA floor; the proposer must still
/// be an owner, and the wallet's minimum delay must be disabled.
pub fn create_transaction(
    smart_wallet: &mut SmartWallet,
    smart_wallet_key: Pubkey,
    transaction_key: Pubkey,
    bump: u8,
    proposer: Pubkey,
    instructions: Vec<TXInstruction>,
    now: i64,
) -> (r: Result<(Transaction, TransactionCreateEvent), ErrorCode>)
    requires
        old(smart_wallet).wf(),
        0 <= now,
        now + MAX_DELAY_SECONDS <= i64::MAX,
        old(smart_wallet).num_transactions < u64::MAX,
    ensures
        match r {
            Ok((tx, event)) => {
                &&& propose_outcome(*old(smart_wallet), proposer, NO_ETA, now) is Ok
                &&& *final(smart_wallet) == (SmartWallet {
                    num_transactions: (old(smart_wallet).num_transactions + 1) as u64,
                    ..*old(smart_wallet)
                })
                &&& tx.smart_wallet == smart_wallet_key
                &&& tx.index == old(smart_wallet).num_transactions
                &&& tx.bump == bump
                &&& tx.proposer == proposer
                &&& tx.instructions@ == instructions@
                &&& tx.signers@.len() == old(smart_wallet).owners@.len()
                &&& forall|j: int|
                    0 <= j < tx.signers@.len() ==> (tx.signers@[j] <==> first_index_of_owner(
                        old(smart_wallet).owners@,
                        proposer,
                        j,
                    ))
                &&& tx.owner_set_seqno == old(smart_wallet).owner_set_seqno
                &&& tx.eta == NO_ETA
                &&& tx.executor == Pubkey::empty()
                &&& tx.executed_at == -1
                &&& count_true(tx.signers@) == 1
                &&& tx.consistent_with(*final(smart_wallet))
                &&& event == (TransactionCreateEvent {
                    smart_wallet: smart_wallet_key,
                    transaction: transaction_key,
                    proposer,
                    eta: NO_ETA,
                    timestamp: now,
                })
            },
            Err(e) => {
                &&& propose_outcome(*old(smart_wallet), proposer, NO_ETA, now) == Err::<
                    (),
                    ErrorCode,
                >(e)
                &&& *final(smart_wallet) == *old(smart_wallet)
            },
        },
{
    create_transaction_with_timelock(
        smart_wallet,
        smart_wallet_key,
        transaction_key,
        bump,
        proposer,
        instructions,
        NO_ETA,
        now,
    )
}

/// Sets the caller's approval bit on a transaction.
///
/// Re-approving an already-approved transaction is a no-op success.
pub fn approve(
    smart_wallet: &SmartWallet,
    smart_wallet_key: Pubkey,
    transaction: &mut Transaction,
    transaction_key: Pubkey,
    owner: Pubkey,
    now: i64,
) -> (r: Result<TransactionApproveEvent, ErrorCode>)
    requires
        old(transaction).consistent_with(*smart_wallet),
    ensures
        match r {
            Ok(event) => {
                &&& approve_outcome(*smart_wallet, *old(transaction), owner) is Ok
                &&& exists|i: int| first_index_of_owner(smart_wallet.owners@, owner, i)
                &&& forall|i: int|
                    first_index_of_owner(smart_wallet.owners@, owner, i)
                        ==> final(transaction).signers@ == old(transaction).signers@.update(
                        i,
                        true,
                    )
                &&& *final(transaction) == (Transaction {
                    signers: final(transaction).signers,
                    ..*old(transaction)
                })
                &&& event == (TransactionApproveEvent {
                    smart_wallet: smart_wallet_key,
                    transaction: transaction_key,
                    owner,
                    timestamp: now,
                })
            },
            Err(e) => {
                &&& approve_outcome(*smart_wallet, *old(transaction), owner) == Err::<
                    (),
                    ErrorCode,
                >(e)
                &&& *final(transaction) == *old(transaction)
            },
        },
{
    if smart_wallet.owner_set_seqno != transaction.owner_set_seqno {
        return Err(ErrorCode::OwnerSetChanged);
    }
    if transaction.executed_at != -1 {
        return Err(ErrorCode::AlreadyExecuted);
    }
    let owner_index = match smart_wallet.owner_index(owner) {
        Ok(i) => i,
        Err(e) => {
            return Err(e);
        },
    };
    transaction.signers.set(owner_index, true);
    proof {
        lemma_first_index_exists(smart_wallet.owners@, owner);
        assert forall|i: int|
            first_index_of_owner(smart_wallet.owners@, owner, i) implies transaction.signers@
            == old(transaction).signers@.update(i, true) by {
            lemma_first_index_unique(smart_wallet.owners@, owner, i, owner_index as int);
        }
    }
    Ok(
        TransactionApproveEvent {
            smart_wallet: smart_wallet_key,
            transaction: transaction_key,
            owner,
            timestamp: now,
        },
    )
}

/// Clears the caller's approval bit on a transaction.
///
/// Unapproving a transaction the caller had not approved is a no-op success.
pub fn unapprove(
    smart_wallet: &SmartWallet,
    smart_wallet_key: Pubkey,
    transaction: &mut Transaction,
    transaction_key: Pubkey,
    owner: Pubkey,
    now: i64,
) -> (r: Result<TransactionUnapproveEvent, ErrorCode>)
    requires
        old(transaction).consistent_with(*smart_wallet),
    ensures
        match r {
            Ok(event) => {
                &&& approve_outcome(*smart_wallet, *old(transaction), owner) is Ok
                &&& exists|i: int| first_index_of_owner(smart_wallet.owners@, owner, i)
                &&& forall|i: int|
                    first_index_of_owner(smart_wallet.owners@, owner, i)
                        ==> final(transaction).signers@ == old(transaction).signers@.update(
                        i,
                        false,
                    )
                &&& *final(transaction) == (Transaction {
                    signers: final(transaction).signers,
                    ..*old(transaction)
                })
                &&& event == (TransactionUnapproveEvent {
                    smart_wallet: smart_wallet_key,
                    transaction: transaction_key,
                    owner,
                    timestamp: now,
                })
            },
            Err(e) => {
                &&& approve_outcome(*smart_wallet, *old(transaction), owner) == Err::<
                    (),
                    ErrorCode,
                >(e)
                &&& *final(transaction) == *old(transaction)
            },
        },
{
    if smart_wallet.owner_set_seqno != transaction.owner_set_seqno {
        return Err(ErrorCode::OwnerSetChanged);
    }
    if transaction.executed_at != -1 {
        return Err(ErrorCode::AlreadyExecuted);
    }
    let owner_index = match smart_wallet.owner_index(owner) {
        Ok(i) => i,
        Err(e) => {
            return Err(e);
        },
    };
    transaction.signers.set(owner_index, false);
    proof {
        lemma_first_index_exists(smart_wallet.owners@, owner);
        assert forall|i: int|
            first_index_of_owner(smart_wallet.owners@, owner, i) implies transaction.signers@
            == old(transaction).signers@.update(i, false) by {
            lemma_first_index_unique(smart_wallet.owners@, owner, i, owner_index as int);
        }
    }
    Ok(
        TransactionUnapproveEvent {
            smart_wallet: smart_wallet_key,
            transaction: transaction_key,
            owner,
            timestamp: now,
        },
    )
}

/// Runs every check executing a transaction needs, without touching it.
pub fn validate_execute(
    smart_wallet: &SmartWallet,
    transaction: &Transaction,
    executor: Pubkey,
    now: i64,
) -> (r: Result<(), ErrorCode>)
    requires
        smart_wallet.wf(),
        0 <= now,
    ensures
        r == execute_outcome(*smart_wallet, *transaction, executor, now),
{
    if smart_wallet.owner_set_seqno != transaction.owner_set_seqno {
        return Err(ErrorCode::OwnerSetChanged);
    }
    if transaction.executed_at != -1 {
        return Err(ErrorCode::AlreadyExecuted);
    }
    if now < transaction.eta {
        return Err(ErrorCode::TransactionNotReady);
    }
    if transaction.eta != NO_ETA {
        // `now - grace_period > eta` is `now > eta + grace_period` without
        // the risk of overflowing the addition.
        if now - smart_wallet.grace_period > transaction.eta {
            return Err(ErrorCode::TransactionIsStale);
        }
    }
    let sig_count = transaction.num_signers();
    if (sig_count as u64) < smart_wallet.threshold {
        return Err(ErrorCode::NotEnoughSigners);
    }
    match smart_wallet.owner_index(executor) {
        Ok(_) => {},
        Err(e) => {
            return Err(e);
        },
    }
    Ok(())
}

/// Executes the given transaction if threshold owners have signed it.
///
/// On success the transaction is burned: `executed_at` and `executor` are
/// set, and by [`execute_outcome`] every later execution attempt fails. The
/// host runtime then invokes `transaction.instructions` in order; a failing
/// invocation rolls the whole call back.
pub fn execute_transaction(
    smart_wallet: &SmartWallet,
    smart_wallet_key: Pubkey,
    transaction: &mut Transaction,
    transaction_key: Pubkey,
    executor: Pubkey,
    now: i64,
) -> (r: Result<TransactionExecuteEvent, ErrorCode>)
    requires
        smart_wallet.wf(),
        0 <= now,
    ensures
        match r {
            Ok(event) => {
                &&& execute_outcome(*smart_wallet, *old(transaction), executor, now) is Ok
                &&& *final(transaction) == (Transaction {
                    executor,
                    executed_at: now,
                    ..*old(transaction)
                })
                &&& !final(transaction).not_executed()
                &&& event == (TransactionExecuteEvent {
                    smart_wallet: smart_wallet_key,
                    transaction: transaction_key,
                    executor,
                    timestamp: now,
                })
            },
            Err(e) => {
                &&& execute_outcome(*smart_wallet, *old(transaction), executor, now) == Err::<
                    (),
                    ErrorCode,
                >(e)
                &&& *final(transaction) == *old(transaction)
            },
        },
{
    match validate_execute(smart_wallet, transaction, executor, now) {
        Ok(_) => {},
        Err(e) => {
            return Err(e);
        },
    }
    transaction.executor = executor;
    transaction.executed_at = now;
    Ok(
        TransactionExecuteEvent {
            smart_wallet: smart_wallet_key,
            transaction: transaction_key,
            executor,
            timestamp: now,
        },
    )
}

/// A transaction can execute only with at least `threshold` approvals at
/// call time.
pub proof fn lemma_execute_needs_quorum(
    wallet: SmartWallet,
    transaction: Transaction,
    executor: Pubkey,
    now: i64,
)
    ensures
        execute_outcome(wallet, transaction, executor, now) is Ok ==> count_true(
            transaction.signers@,
        ) >= wallet.threshold,
{
}

/// An executed transaction can never execute again: when the ownership
/// snapshot still matches, the second attempt fails with
/// [`ErrorCode::AlreadyExecuted`]; it fails in every case.
pub proof fn lemma_execute_is_one_shot(
    wallet: SmartWallet,
    transaction: Transaction,
    executor: Pubkey,
    now: i64,
)
    requires
        !transaction.not_executed(),
    ensures
        execute_outcome(wallet, transaction, executor, now) is Err,
        wallet.owner_set_seqno == transaction.owner_set_seqno ==> execute_outcome(
            wallet,
            transaction,
            executor,
            now,
        ) == Err::<(), ErrorCode>(ErrorCode::AlreadyExecuted),
{
}

/// A transaction bound to an ownership snapshot that no longer matches the
/// wallet can neither be approved nor executed.
pub proof fn lemma_owner_set_change_invalidates(
    wallet: SmartWallet,
    transaction: Transaction,
    owner: Pubkey,
    now: i64,
)
    requires
        wallet.owner_set_seqno != transaction.owner_set_seqno,
    ensures
        approve_outcome(wallet, transaction, owner) == Err::<(), ErrorCode>(
            ErrorCode::OwnerSetChanged,
        ),
        execute_outcome(wallet, transaction, owner, now) == Err::<(), ErrorCode>(
            ErrorCode::OwnerSetChanged,
        ),
{
}

/// After the owner list changes — [`crate::wallet::set_owners`] bumps the
/// ownership sequence number — a transaction that snapshotted the previous
/// owner set fails both approval and execution with the epoch-mismatch
/// error, whoever had approved it before.
pub proof fn lemma_set_owners_invalidates(
    wallet_before: SmartWallet,
    wallet_after: SmartWallet,
    transaction: Transaction,
    owner: Pubkey,
    now: i64,
)
    requires
        transaction.owner_set_seqno == wallet_before.owner_set_seqno,
        wallet_after.owner_set_seqno == wallet_before.owner_set_seqno + 1,
    ensures
        approve_outcome(wallet_after, transaction, owner) == Err::<(), ErrorCode>(
            ErrorCode::OwnerSetChanged,
        ),
        execute_outcome(wallet_after, transaction, owner, now) == Err::<(), ErrorCode>(
            ErrorCode::OwnerSetChanged,
        ),
{
}

/// Approving and then unapproving an owner who had not yet approved returns
/// the approval vector to exactly its original state: toggling, not
/// accumulation.
pub proof fn lemma_approve_unapprove_restores(
    signers: Seq<bool>,
    owners: Seq<Pubkey>,
    owner: Pubkey,
    i: int,
)
    requires
        first_index_of_owner(owners, owner, i),
        signers.len() == owners.len(),
        !signers[i],
    ensures
        signers.update(i, true).update(i, false) =~= signers,
{
}

/// Approving twice is the same as approving once: approval bits do not
/// accumulate.
pub proof fn lemma_approve_idempotent(signers: Seq<bool>, i: int)
    requires
        0 <= i < signers.len(),
    ensures
        signers.update(i, true).update(i, true) =~= signers.update(i, true),
{
}

/// Each owner only ever writes their own approval bit, so two owners'
/// approvals and unapprovals commute: however two such calls are ordered
/// across calls, no update is lost.
pub proof fn lemma_approvals_commute(signers: Seq<bool>, i: int, j: int, a: bool, b: bool)
    requires
        0 <= i < signers.len(),
        0 <= j < signers.len(),
        i != j,
    ensures
        signers.update(i, a).update(j, b) =~= signers.update(j, b).update(i, a),
{
}

} // verus!
