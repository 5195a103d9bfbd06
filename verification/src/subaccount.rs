//! Reverse mapping of a derived subaccount to its [`SmartWallet`].
//!
//! The host runtime owns the address-derivation oracle
//! (`derive(seed) -> identity`); it derives the expected address for the
//! claimed wallet, index and subaccount type, and hands it in. This module
//! holds the rule: the mapping is recorded only when the derived address is
//! exactly the claimed subaccount.
//!
//! [`SmartWallet`]: crate::state::SmartWallet

use vstd::prelude::*;

use crate::error::ErrorCode;
use crate::key::Pubkey;

verus! {

/// Type of subaccount.
#[derive(Clone, Copy, Debug, Eq, PartialEq, Structural)]
pub enum SubaccountType {
    /// Requires the normal multisig approval process.
    Derived,
    /// Any owner may sign an instruction as this address.
    OwnerInvoker,
}

impl Default for SubaccountType {
    /// The default subaccount type.
    fn default() -> (r: SubaccountType)
        ensures
            r == SubaccountType::Derived,
    {
        SubaccountType::Derived
    }
}

/// Mapping of a subaccount to its smart wallet.
#[derive(Clone, Copy, Debug, Eq, PartialEq, Structural)]
pub struct SubaccountInfo {
    /// Smart wallet of the subaccount.
    pub smart_wallet: Pubkey,
    /// Type of subaccount.
    pub subaccount_type: SubaccountType,
    /// Index of the subaccount.
    pub index: u64,
}

/// Records the reverse mapping of `subaccount` to `smart_wallet`, given the
/// address the host's derivation oracle produced for the claimed wallet,
/// index and type.
///
/// Fails with [`ErrorCode::SubaccountOwnerMismatch`] exactly when the derived
/// address is not the claimed subaccount.
pub fn create_subaccount_info(
    derived_address: Pubkey,
    subaccount: Pubkey,
    smart_wallet: Pubkey,
    index: u64,
    subaccount_type: SubaccountType,
) -> (r: Result<SubaccountInfo, ErrorCode>)
    ensures
        match r {
            Ok(info) => {
                &&& derived_address == subaccount
                &&& info == (SubaccountInfo { smart_wallet, subaccount_type, index })
            },
            Err(e) => {
                &&& e == ErrorCode::SubaccountOwnerMismatch
                &&& derived_address != subaccount
            },
        },
{
    if !(derived_address == subaccount) {
        return Err(ErrorCode::SubaccountOwnerMismatch);
    }
    Ok(SubaccountInfo { smart_wallet, subaccount_type, index })
}

} // verus!
