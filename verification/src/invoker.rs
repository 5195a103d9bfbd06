//! Account preparation for invoking an instruction as a derived identity.
//!
//! An "owner invoker" (or the token signer's NFT identity) is an address the
//! host runtime signs for; the accounts handed to the invoked instruction
//! must mark that address as a signer. The marking is the computable part;
//! the signing and the invocation belong to the host.

use vstd::prelude::*;

use crate::key::Pubkey;
use crate::state::TXAccountMeta;

verus! {

/// Marks `invoker` as a required signer wherever it occurs among `accounts`,
/// keeping every other key and flag as it was.
pub fn mark_invoker_signer(accounts: &Vec<TXAccountMeta>, invoker: Pubkey) -> (r: Vec<
    TXAccountMeta,
>)
    ensures
        r@.len() == accounts@.len(),
        forall|i: int|
            0 <= i < accounts@.len() ==> r@[i] == (TXAccountMeta {
                pubkey: accounts@[i].pubkey,
                is_signer: accounts@[i].pubkey == invoker || accounts@[i].is_signer,
                is_writable: accounts@[i].is_writable,
            }),
{
    let mut out: Vec<TXAccountMeta> = Vec::new();
    let mut i: usize = 0;
    while i < accounts.len()
        invariant
            i <= accounts@.len(),
            out@.len() == i,
            forall|j: int|
                0 <= j < i ==> out@[j] == (TXAccountMeta {
                    pubkey: accounts@[j].pubkey,
                    is_signer: accounts@[j].pubkey == invoker || accounts@[j].is_signer,
                    is_writable: accounts@[j].is_writable,
                }),
        decreases accounts@.len() - i,
    {
        let account = accounts[i];
        out.push(
            TXAccountMeta {
                pubkey: account.pubkey,
                is_signer: if account.pubkey == invoker {
                    true
                } else {
                    account.is_signer
                },
                is_writable: account.is_writable,
            },
        );
        i = i + 1;
    }
    out
}

} // verus!
