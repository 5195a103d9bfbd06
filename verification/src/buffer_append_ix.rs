//! Appends an instruction to a bundle of an [`InstructionBuffer`].

use vstd::prelude::*;

use crate::buffer::{InstructionBuffer, InstructionBundle};
use crate::error::ErrorCode;
use crate::key::Pubkey;
use crate::state::TXInstruction;

verus! {

/// Inputs of [`handler`]: the buffer to write to and the writer caller.
pub struct AppendBufferIX {
    /// The buffer to write to.
    pub buffer: InstructionBuffer,
    /// The buffer's own key, for the receipt.
    pub buffer_key: Pubkey,
    /// The identity asking; must hold the buffer's writer role.
    pub writer: Pubkey,
}

/// Emitted when an instruction is appended to an [`InstructionBuffer`].
#[derive(Clone, Copy, Debug, PartialEq, Eq, Structural)]
pub struct AppendIxEvent {
    /// The index of the bundle written to.
    pub bundle_index: u8,
    /// The buffer.
    pub buffer: Pubkey,
    /// The writer.
    pub writer: Pubkey,
}

/// What appending decides: only the writer may append, never after the
/// buffer was finalized, and only to an existing bundle or to the one right
/// past the end (which is then created).
pub open spec fn append_outcome(
    buffer: InstructionBuffer,
    caller: Pubkey,
    bundle_index: u8,
) -> Result<(), ErrorCode> {
    if caller != buffer.writer {
        Err(ErrorCode::BufferRoleInvalid)
    } else if buffer.is_finalized() {
        Err(ErrorCode::BufferFinalized)
    } else if bundle_index > buffer.bundles@.len() {
        Err(ErrorCode::BufferBundleOutOfRange)
    } else {
        Ok(())
    }
}

/// Appends `ix` to the bundle at `bundle_index`, creating that bundle lazily
/// when it addresses the slot right past the end of the buffer.
pub fn handler(ctx: &mut AppendBufferIX, bundle_index: u8, ix: TXInstruction) -> (r: Result<
    AppendIxEvent,
    ErrorCode,
>)
    requires
        old(ctx).buffer.wf(),
    ensures
        match r {
            Ok(event) => {
                &&& append_outcome(old(ctx).buffer, old(ctx).writer, bundle_index) is Ok
                &&& final(ctx).buffer.bundles@.len() == if bundle_index
                    == old(ctx).buffer.bundles@.len() {
                    old(ctx).buffer.bundles@.len() + 1
                } else {
                    old(ctx).buffer.bundles@.len()
                }
                &&& final(ctx).buffer.bundles@[bundle_index as int].instructions@
                    == if bundle_index == old(ctx).buffer.bundles@.len() {
                    seq![ix]
                } else {
                    old(ctx).buffer.bundles@[bundle_index as int].instructions@.push(ix)
                }
                &&& final(ctx).buffer.bundles@[bundle_index as int].exec_count == 0
                &&& forall|j: int|
                    0 <= j < final(ctx).buffer.bundles@.len() && j != bundle_index as int
                        ==> final(ctx).buffer.bundles@[j] == old(ctx).buffer.bundles@[j]
                &&& final(ctx).buffer == (InstructionBuffer {
                    bundles: final(ctx).buffer.bundles,
                    ..old(ctx).buffer
                })
                &&& final(ctx).buffer.wf()
                &&& final(ctx).buffer_key == old(ctx).buffer_key
                &&& final(ctx).writer == old(ctx).writer
                &&& event == (AppendIxEvent {
                    bundle_index,
                    buffer: old(ctx).buffer_key,
                    writer: old(ctx).writer,
                })
            },
            Err(e) => {
                &&& append_outcome(old(ctx).buffer, old(ctx).writer, bundle_index) == Err::<
                    (),
                    ErrorCode,
                >(e)
                &&& *final(ctx) == *old(ctx)
            },
        },
{
    if ctx.writer != ctx.buffer.writer {
        return Err(ErrorCode::BufferRoleInvalid);
    }
    if ctx.buffer.finalized_at != 0 {
        return Err(ErrorCode::BufferFinalized);
    }
    let b_index = bundle_index as usize;
    if b_index > ctx.buffer.bundles.len() {
        return Err(ErrorCode::BufferBundleOutOfRange);
    }
    if b_index == ctx.buffer.bundles.len() {
        // The addressed bundle does not exist yet: create it empty.
        ctx.buffer.bundles.push(InstructionBundle::default());
    }
    let ghost padded = ctx.buffer.bundles@;
    let mut bundle = InstructionBundle::default();
    ctx.buffer.bundles.set_and_swap(b_index, &mut bundle);
    proof {
        // The buffer is not finalized, so nothing has executed off it yet.
        assert(!old(ctx).buffer.exec_started());
        assert(bundle.exec_count == 0);
    }
    bundle.instructions.push(ix);
    ctx.buffer.bundles.set(b_index, bundle);
    proof {
        assert(ctx.buffer.bundles@[bundle_index as int].instructions@ =~= if bundle_index
            == old(ctx).buffer.bundles@.len() {
            seq![ix]
        } else {
            old(ctx).buffer.bundles@[bundle_index as int].instructions@.push(ix)
        });
    }
    Ok(AppendIxEvent { bundle_index, buffer: ctx.buffer_key, writer: ctx.writer })
}

/// Once a buffer is finalized, appending always fails; with the writer
/// asking, precisely with [`ErrorCode::BufferFinalized`].
pub proof fn lemma_append_after_finalize(
    buffer: InstructionBuffer,
    caller: Pubkey,
    bundle_index: u8,
)
    requires
        buffer.is_finalized(),
    ensures
        append_outcome(buffer, caller, bundle_index) is Err,
        caller == buffer.writer ==> append_outcome(buffer, caller, bundle_index) == Err::<
            (),
            ErrorCode,
        >(ErrorCode::BufferFinalized),
{
}

} // verus!
