//! Finalizes an [`InstructionBuffer`] for execution.

use vstd::prelude::*;

use crate::buffer::InstructionBuffer;
use crate::error::ErrorCode;
use crate::key::Pubkey;

verus! {

/// Inputs of [`handler`]: the buffer to finalize and the writer caller.
pub struct FinalizeBuffer {
    /// The buffer to finalize.
    pub buffer: InstructionBuffer,
    /// The buffer's own key, for the receipt.
    pub buffer_key: Pubkey,
    /// The identity asking; must hold the buffer's writer role.
    pub writer: Pubkey,
}

/// Emitted when an [`InstructionBuffer`] is finalized.
#[derive(Clone, Copy, Debug, PartialEq, Eq, Structural)]
pub struct FinalizeBufferEvent {
    /// The buffer.
    pub buffer: Pubkey,
    /// The time the buffer was finalized.
    pub time: i64,
}

/// What finalizing decides: only the writer may finalize, and only once.
pub open spec fn finalize_outcome(buffer: InstructionBuffer, caller: Pubkey) -> Result<
    (),
    ErrorCode,
> {
    if caller != buffer.writer {
        Err(ErrorCode::BufferRoleInvalid)
    } else if buffer.is_finalized() {
        Err(ErrorCode::BufferFinalized)
    } else {
        Ok(())
    }
}

/// Finalizes the buffer, recording the timestamp. From here on no append is
/// accepted and the executor may start draining the bundles.
pub fn handler(ctx: &mut FinalizeBuffer, now: i64) -> (r: Result<FinalizeBufferEvent, ErrorCode>)
    requires
        old(ctx).buffer.wf(),
        0 < now,
    ensures
        match r {
            Ok(event) => {
                &&& finalize_outcome(old(ctx).buffer, old(ctx).writer) is Ok
                &&& final(ctx).buffer == (InstructionBuffer {
                    finalized_at: now,
                    ..old(ctx).buffer
                })
                &&& final(ctx).buffer.is_finalized()
                &&& final(ctx).buffer.wf()
                &&& final(ctx).buffer_key == old(ctx).buffer_key
                &&& final(ctx).writer == old(ctx).writer
                &&& event == (FinalizeBufferEvent { buffer: old(ctx).buffer_key, time: now })
            },
            Err(e) => {
                &&& finalize_outcome(old(ctx).buffer, old(ctx).writer) == Err::<(), ErrorCode>(e)
                &&& *final(ctx) == *old(ctx)
            },
        },
{
    if ctx.writer != ctx.buffer.writer {
        return Err(ErrorCode::BufferRoleInvalid);
    }
    if ctx.buffer.finalized_at != 0 {
        return Err(ErrorCode::BufferFinalized);
    }
    ctx.buffer.finalized_at = now;
    Ok(FinalizeBufferEvent { buffer: ctx.buffer_key, time: now })
}

/// Finalizing is single-shot: a second finalize always fails; with the
/// writer asking, precisely with [`ErrorCode::BufferFinalized`].
pub proof fn lemma_finalize_is_one_shot(buffer: InstructionBuffer, caller: Pubkey)
    requires
        buffer.is_finalized(),
    ensures
        finalize_outcome(buffer, caller) is Err,
        caller == buffer.writer ==> finalize_outcome(buffer, caller) == Err::<(), ErrorCode>(
            ErrorCode::BufferFinalized,
        ),
{
}

} // verus!
