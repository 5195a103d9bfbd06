//! Executes one instruction off a bundle of a finalized
//! [`InstructionBuffer`].

use vstd::prelude::*;

use crate::buffer::{InstructionBuffer, InstructionBundle};
use crate::error::ErrorCode;
use crate::key::Pubkey;
use crate::state::SmartWallet;

verus! {

/// Inputs of [`handler`]: the buffer, the wallet it is bound to, and the
/// executor caller.
pub struct ExecuteBufferIX {
    /// The buffer to execute off.
    pub buffer: InstructionBuffer,
    /// The wallet the buffer is bound to.
    pub smart_wallet: SmartWallet,
    /// The wallet's key; must match [`InstructionBuffer::smart_wallet`].
    pub smart_wallet_key: Pubkey,
    /// The identity asking; must hold the buffer's executor role.
    pub executor: Pubkey,
}

/// What executing the next instruction of a bundle decides: only the
/// executor may execute, only off a finalized buffer, the addressed bundle
/// must exist and not be fully executed yet, the ownership snapshot must
/// still match the wallet, and the buffer's ETA must have passed.
pub open spec fn execute_ix_outcome(
    buffer: InstructionBuffer,
    wallet: SmartWallet,
    caller: Pubkey,
    bundle_index: u8,
    now: i64,
) -> Result<(), ErrorCode> {
    if caller != buffer.executor {
        Err(ErrorCode::BufferRoleInvalid)
    } else if !buffer.is_finalized() {
        Err(ErrorCode::BufferNotFinalized)
    } else if bundle_index >= buffer.bundles@.len() {
        Err(ErrorCode::BufferBundleNotFound)
    } else if buffer.bundles@[bundle_index as int].is_executed() {
        Err(ErrorCode::BufferBundleExecuted)
    } else if wallet.owner_set_seqno != buffer.owner_set_seqno {
        Err(ErrorCode::OwnerSetChanged)
    } else if now < buffer.eta {
        Err(ErrorCode::TransactionNotReady)
    } else {
        Ok(())
    }
}

/// Advances the addressed bundle by exactly one instruction.
///
/// On success the returned position is the bundle's previous execution
/// count; the host runtime invokes exactly the instruction at that position,
/// under the wallet's authority, and rolls the call back if the invocation
/// fails. No call ever hands out more than one position, so each instruction
/// of a bundle is invoked exactly once and strictly in order.
pub fn handler(ctx: &mut ExecuteBufferIX, bundle_index: u8, now: i64) -> (r: Result<
    u64,
    ErrorCode,
>)
    requires
        old(ctx).buffer.wf(),
        old(ctx).buffer.smart_wallet == old(ctx).smart_wallet_key,
    ensures
        match r {
            Ok(pos) => {
                &&& execute_ix_outcome(
                    old(ctx).buffer,
                    old(ctx).smart_wallet,
                    old(ctx).executor,
                    bundle_index,
                    now,
                ) is Ok
                &&& pos == old(ctx).buffer.bundles@[bundle_index as int].exec_count
                &&& pos < old(ctx).buffer.bundles@[bundle_index as int].instructions@.len()
                &&& final(ctx).buffer.bundles@.len() == old(ctx).buffer.bundles@.len()
                &&& final(ctx).buffer.bundles@[bundle_index as int].exec_count == pos + 1
                &&& final(ctx).buffer.bundles@[bundle_index as int].instructions@
                    == old(ctx).buffer.bundles@[bundle_index as int].instructions@
                &&& forall|j: int|
                    0 <= j < final(ctx).buffer.bundles@.len() && j != bundle_index as int
                        ==> final(ctx).buffer.bundles@[j] == old(ctx).buffer.bundles@[j]
                &&& final(ctx).buffer == (InstructionBuffer {
                    bundles: final(ctx).buffer.bundles,
                    ..old(ctx).buffer
                })
                &&& final(ctx).buffer.wf()
                &&& final(ctx).smart_wallet == old(ctx).smart_wallet
                &&& final(ctx).smart_wallet_key == old(ctx).smart_wallet_key
                &&& final(ctx).executor == old(ctx).executor
            },
            Err(e) => {
                &&& execute_ix_outcome(
                    old(ctx).buffer,
                    old(ctx).smart_wallet,
                    old(ctx).executor,
                    bundle_index,
                    now,
                ) == Err::<(), ErrorCode>(e)
                &&& *final(ctx) == *old(ctx)
            },
        },
{
    if ctx.executor != ctx.buffer.executor {
        return Err(ErrorCode::BufferRoleInvalid);
    }
    if ctx.buffer.finalized_at == 0 {
        return Err(ErrorCode::BufferNotFinalized);
    }
    let b_index = bundle_index as usize;
    if b_index >= ctx.buffer.bundles.len() {
        return Err(ErrorCode::BufferBundleNotFound);
    }
    let pos = ctx.buffer.bundles[b_index].exec_count;
    let total = ctx.buffer.bundles[b_index].instructions.len();
    if pos == total as u64 {
        return Err(ErrorCode::BufferBundleExecuted);
    }
    if ctx.smart_wallet.owner_set_seqno != ctx.buffer.owner_set_seqno {
        return Err(ErrorCode::OwnerSetChanged);
    }
    if now < ctx.buffer.eta {
        return Err(ErrorCode::TransactionNotReady);
    }
    let mut bundle = InstructionBundle::default();
    ctx.buffer.bundles.set_and_swap(b_index, &mut bundle);
    bundle.exec_count = bundle.exec_count + 1;
    ctx.buffer.bundles.set(b_index, bundle);
    Ok(pos)
}

/// Nothing can be executed off a buffer that is not finalized yet; with the
/// executor asking, precisely [`ErrorCode::BufferNotFinalized`].
pub proof fn lemma_no_execution_before_finalize(
    buffer: InstructionBuffer,
    wallet: SmartWallet,
    caller: Pubkey,
    bundle_index: u8,
    now: i64,
)
    requires
        !buffer.is_finalized(),
    ensures
        execute_ix_outcome(buffer, wallet, caller, bundle_index, now) is Err,
        caller == buffer.executor ==> execute_ix_outcome(buffer, wallet, caller, bundle_index, now)
            == Err::<(), ErrorCode>(ErrorCode::BufferNotFinalized),
{
}

/// A fully executed bundle never executes again: once its execution count
/// has reached its length, every further call fails.
pub proof fn lemma_bundle_executes_exactly_once(
    buffer: InstructionBuffer,
    wallet: SmartWallet,
    caller: Pubkey,
    bundle_index: u8,
    now: i64,
)
    requires
        bundle_index < buffer.bundles@.len(),
        buffer.bundles@[bundle_index as int].is_executed(),
    ensures
        execute_ix_outcome(buffer, wallet, caller, bundle_index, now) is Err,
        caller == buffer.executor && buffer.is_finalized() ==> execute_ix_outcome(
            buffer,
            wallet,
            caller,
            bundle_index,
            now,
        ) == Err::<(), ErrorCode>(ErrorCode::BufferBundleExecuted),
{
}

} // verus!
