//! State structs and the spec-level vocabulary the contracts are written in.

use vstd::prelude::*;

use crate::error::ErrorCode;
use crate::key::Pubkey;
use crate::MAX_DELAY_SECONDS;

verus! {

/// True when no key occurs twice in `keys`.
pub open spec fn unique_keys(keys: Seq<Pubkey>) -> bool {
    forall|i: int, j: int| 0 <= i < j < keys.len() ==> keys[i] != keys[j]
}

/// Number of `true` entries of an approval vector.
pub open spec fn count_true(s: Seq<bool>) -> int
    decreases s.len(),
{
    if s.len() == 0 {
        0
    } else {
        count_true(s.drop_last()) + if s.last() {
            1int
        } else {
            0int
        }
    }
}

/// An approval vector with no bit set counts zero approvals.
pub proof fn lemma_count_true_none(s: Seq<bool>)
    requires
        forall|j: int| 0 <= j < s.len() ==> !s[j],
    ensures
        count_true(s) == 0,
    decreases s.len(),
{
    if s.len() > 0 {
        lemma_count_true_none(s.drop_last());
    }
}

/// An approval vector with exactly one bit set counts one approval.
pub proof fn lemma_count_true_single(s: Seq<bool>, i: int)
    requires
        0 <= i < s.len(),
        s[i],
        forall|j: int| 0 <= j < s.len() && j != i ==> !s[j],
    ensures
        count_true(s) == 1,
    decreases s.len(),
{
    if i == s.len() - 1 {
        lemma_count_true_none(s.drop_last());
    } else {
        lemma_count_true_single(s.drop_last(), i);
    }
}

/// `i` is the index of the first occurrence of `key` in `owners`.
pub open spec fn first_index_of_owner(owners: Seq<Pubkey>, key: Pubkey, i: int) -> bool {
    &&& 0 <= i < owners.len()
    &&& owners[i] == key
    &&& forall|j: int| 0 <= j < i ==> owners[j] != key
}

/// An owner that occurs in the list has a first index.
pub proof fn lemma_first_index_exists(owners: Seq<Pubkey>, key: Pubkey)
    requires
        owners.contains(key),
    ensures
        exists|i: int| first_index_of_owner(owners, key, i),
{
    owners.index_of_first_ensures(key);
    let i = owners.index_of_first(key)->Some_0;
    assert(first_index_of_owner(owners, key, i));
}

/// At most one index is the first index of `key`.
pub proof fn lemma_first_index_unique(owners: Seq<Pubkey>, key: Pubkey, i: int, j: int)
    requires
        first_index_of_owner(owners, key, i),
        first_index_of_owner(owners, key, j),
    ensures
        i == j,
{
}

/// A multisig wallet with timelock capabilities.
///
/// The wallet is the sole shared mutable resource of the engine: every
/// [`Transaction`] and every instruction buffer holds a snapshot of
/// [`SmartWallet::owner_set_seqno`] and is permanently invalidated when the
/// owner set changes.
#[derive(Clone, Debug, PartialEq)]
pub struct SmartWallet {
    /// Base key used to derive the wallet's address.
    pub base: Pubkey,
    /// Bump seed of the wallet's derived address.
    pub bump: u8,
    /// Minimum number of owner approvals needed to execute a [`Transaction`].
    pub threshold: u64,
    /// Minimum delay between proposal and ETA, in seconds. 0 disables the floor.
    pub minimum_delay: i64,
    /// Time after the ETA until a [`Transaction`] expires, in seconds.
    pub grace_period: i64,
    /// Sequence number of the ownership set, bumped on every owner change.
    pub owner_set_seqno: u32,
    /// Total number of [`Transaction`]s proposed on this wallet.
    pub num_transactions: u64,
    /// Owners of the wallet; their order gives the approval-vector indices.
    pub owners: Vec<Pubkey>,
}

impl SmartWallet {
    /// Well-formedness: every operation of this crate preserves it.
    pub open spec fn wf(self) -> bool {
        &&& 0 <= self.minimum_delay < MAX_DELAY_SECONDS
        &&& 0 <= self.grace_period <= MAX_DELAY_SECONDS
        &&& self.threshold <= self.owners@.len()
        &&& unique_keys(self.owners@)
    }

    /// Index of `key` in the owner list, or [`ErrorCode::InvalidOwner`].
    pub fn owner_index(&self, key: Pubkey) -> (r: Result<usize, ErrorCode>)
        ensures
            match r {
                Ok(i) => first_index_of_owner(self.owners@, key, i as int),
                Err(e) => e == ErrorCode::InvalidOwner && !self.owners@.contains(key),
            },
    {
        let mut i: usize = 0;
        while i < self.owners.len()
            invariant
                i <= self.owners@.len(),
                forall|j: int| 0 <= j < i ==> self.owners@[j] != key,
            decreases self.owners@.len() - i,
        {
            if self.owners[i] == key {
                return Ok(i);
            }
            i = i + 1;
        }
        Err(ErrorCode::InvalidOwner)
    }
}

/// A series of instructions executed by a [`SmartWallet`] after it has
/// collected [`SmartWallet::threshold`] approvals and its ETA has passed.
#[derive(Clone, Debug, PartialEq)]
pub struct Transaction {
    /// The wallet this transaction belongs to.
    pub smart_wallet: Pubkey,
    /// The auto-incremented index of the transaction on its wallet.
    pub index: u64,
    /// Bump seed of the transaction's derived address.
    pub bump: u8,
    /// The owner that proposed the transaction.
    pub proposer: Pubkey,
    /// The instructions to invoke, fixed at creation.
    pub instructions: Vec<TXInstruction>,
    /// `signers[i]` is true iff the owner at index `i` approved.
    pub signers: Vec<bool>,
    /// Snapshot of [`SmartWallet::owner_set_seqno`] at creation time.
    pub owner_set_seqno: u32,
    /// Earliest execution time, or [`crate::NO_ETA`] for no floor.
    pub eta: i64,
    /// The identity that executed the transaction; the sentinel key until then.
    pub executor: Pubkey,
    /// When the transaction was executed; -1 until then.
    pub executed_at: i64,
}

impl Transaction {
    /// True while the transaction has not been executed yet.
    pub open spec fn not_executed(self) -> bool {
        self.executed_at == -1
    }

    /// The approval vector is indexed by the wallet's owner list whenever the
    /// ownership snapshots agree. Operations that write an approval bit
    /// require this; every transaction this crate creates satisfies it.
    pub open spec fn consistent_with(self, wallet: SmartWallet) -> bool {
        self.owner_set_seqno == wallet.owner_set_seqno ==> self.signers@.len()
            == wallet.owners@.len()
    }

    /// Number of owners that approved the transaction.
    pub fn num_signers(&self) -> (r: usize)
        ensures
            r == count_true(self.signers@),
    {
        let mut count: usize = 0;
        let mut i: usize = 0;
        while i < self.signers.len()
            invariant
                i <= self.signers@.len(),
                count <= i,
                count == count_true(self.signers@.take(i as int)),
            decreases self.signers@.len() - i,
        {
            proof {
                assert(self.signers@.take(i + 1).drop_last() =~= self.signers@.take(i as int));
                assert(self.signers@.take(i + 1).last() == self.signers@[i as int]);
            }
            if self.signers[i] {
                count = count + 1;
            }
            i = i + 1;
        }
        proof {
            assert(self.signers@.take(self.signers@.len() as int) =~= self.signers@);
        }
        count
    }
}

/// One instruction to forward verbatim to the host runtime's invoker.
#[derive(Clone, Debug, PartialEq)]
pub struct TXInstruction {
    /// Key of the program that executes this instruction.
    pub program_id: Pubkey,
    /// Metadata for the accounts to pass to the program.
    pub keys: Vec<TXAccountMeta>,
    /// Opaque data passed to the program.
    pub data: Vec<u8>,
}

/// Account metadata used to define [`TXInstruction`]s.
#[derive(Clone, Copy, Debug, PartialEq, Eq, Structural)]
pub struct TXAccountMeta {
    /// An account's key.
    pub pubkey: Pubkey,
    /// True if the instruction requires a signature matching `pubkey`.
    pub is_signer: bool,
    /// True if the account may be written to.
    pub is_writable: bool,
}

} // verus!
