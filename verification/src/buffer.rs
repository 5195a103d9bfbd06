//! The instruction buffer: a staged, incrementally writable container of
//! independently executable instruction bundles.
//!
//! A buffer is gated by three roles. The admin may reassign roles until
//! execution has begun; the writer appends instructions and finalizes the
//! buffer; the executor — assignable exactly once — executes instructions
//! off finalized bundles, one per call. Like a transaction, the buffer
//! snapshots the wallet's ownership sequence number and dies when the owner
//! set changes.

use vstd::prelude::*;

use crate::error::ErrorCode;
use crate::key::Pubkey;
use crate::state::{SmartWallet, TXInstruction};

verus! {

/// One independently executable, ordered batch of instructions.
#[derive(Clone, Debug, PartialEq)]
pub struct InstructionBundle {
    /// The instructions of the bundle, in execution order.
    pub instructions: Vec<TXInstruction>,
    /// How many of them have already been invoked.
    pub exec_count: u64,
}

impl InstructionBundle {
    /// The execution cursor never runs past the end of the bundle.
    pub open spec fn wf(self) -> bool {
        self.exec_count <= self.instructions@.len()
    }

    /// A bundle is executed once every instruction has been invoked.
    pub open spec fn is_executed(self) -> bool {
        self.exec_count == self.instructions@.len()
    }
}

impl Default for InstructionBundle {
    /// An empty bundle.
    fn default() -> (r: InstructionBundle)
        ensures
            r.instructions@.len() == 0,
            r.exec_count == 0,
    {
        InstructionBundle { instructions: Vec::new(), exec_count: 0 }
    }
}

/// A staged container of instruction bundles, bound to a [`SmartWallet`].
#[derive(Clone, Debug, PartialEq)]
pub struct InstructionBuffer {
    /// The wallet whose authority executes the buffer.
    pub smart_wallet: Pubkey,
    /// Snapshot of [`SmartWallet::owner_set_seqno`] at creation time.
    pub owner_set_seqno: u32,
    /// Earliest execution time of any instruction of the buffer.
    pub eta: i64,
    /// May reassign the writer and (once) the executor roles.
    pub admin: Pubkey,
    /// May append instructions and finalize the buffer.
    pub writer: Pubkey,
    /// May execute instructions off the finalized buffer; the sentinel key
    /// until assigned, and assignable exactly once.
    pub executor: Pubkey,
    /// When the buffer was finalized; 0 until then.
    pub finalized_at: i64,
    /// The bundles, each with its own execution progress.
    pub bundles: Vec<InstructionBundle>,
}

impl InstructionBuffer {
    /// A finalized buffer accepts no further appends.
    pub open spec fn is_finalized(self) -> bool {
        self.finalized_at != 0
    }

    /// True once any instruction of any bundle has been invoked.
    pub open spec fn exec_started(self) -> bool {
        exists|i: int| 0 <= i < self.bundles@.len() && self.bundles@[i].exec_count > 0
    }

    /// Well-formedness: every operation of this crate preserves it.
    pub open spec fn wf(self) -> bool {
        &&& 0 <= self.finalized_at
        &&& forall|i: int| 0 <= i < self.bundles@.len() ==> self.bundles@[i].wf()
        &&& (self.exec_started() ==> self.is_finalized())
    }

    /// The bundle at `index`, or `None` past the end of the buffer.
    pub fn get_bundle(&self, index: usize) -> (r: Option<&InstructionBundle>)
        ensures
            match r {
                Some(bundle) => index < self.bundles@.len() && *bundle == self.bundles@[index as int],
                None => index >= self.bundles@.len(),
            },
    {
        if index < self.bundles.len() {
            Some(&self.bundles[index])
        } else {
            None
        }
    }

    /// Whether any instruction of any bundle has been invoked yet.
    pub fn has_begun_execution(&self) -> (r: bool)
        ensures
            r == self.exec_started(),
    {
        let mut i: usize = 0;
        while i < self.bundles.len()
            invariant
                i <= self.bundles@.len(),
                forall|j: int| 0 <= j < i ==> self.bundles@[j].exec_count == 0,
            decreases self.bundles@.len() - i,
        {
            if self.bundles[i].exec_count > 0 {
                return true;
            }
            i = i + 1;
        }
        false
    }
}

/// The three roles gating an [`InstructionBuffer`].
#[derive(Clone, Copy, Debug, Eq, PartialEq, Structural)]
pub enum BufferRole {
    /// May reassign roles until execution has begun.
    Admin,
    /// May append instructions and finalize.
    Writer,
    /// May execute instructions off finalized bundles.
    Executer,
}

/// The byte encoding of a buffer role.
pub open spec fn role_byte(role: BufferRole) -> u8 {
    match role {
        BufferRole::Admin => 0,
        BufferRole::Writer => 1,
        BufferRole::Executer => 2,
    }
}

impl BufferRole {
    /// Decodes a role byte; bytes past 2 name no role.
    pub fn from_u8(value: u8) -> (r: Result<BufferRole, ErrorCode>)
        ensures
            match r {
                Ok(role) => role_byte(role) == value,
                Err(e) => e == ErrorCode::InvalidBufferRole && value > 2,
            },
    {
        match value {
            0 => Ok(BufferRole::Admin),
            1 => Ok(BufferRole::Writer),
            2 => Ok(BufferRole::Executer),
            _ => Err(ErrorCode::InvalidBufferRole),
        }
    }

    /// Encodes the role as a byte.
    pub fn as_u8(&self) -> (r: u8)
        ensures
            r == role_byte(*self),
    {
        match self {
            BufferRole::Admin => 0,
            BufferRole::Writer => 1,
            BufferRole::Executer => 2,
        }
    }
}

/// Emitted when an [`InstructionBuffer`] is initialized.
#[derive(Clone, Copy, Debug, PartialEq, Eq, Structural)]
pub struct InitBufferEvent {
    /// The admin (and initial writer) of the buffer.
    pub admin: Pubkey,
    /// The buffer.
    pub buffer: Pubkey,
}

/// Emitted when an [`InstructionBuffer`] is closed.
#[derive(Clone, Copy, Debug, PartialEq, Eq, Structural)]
pub struct CloseBufferEvent {
    /// The buffer.
    pub buffer: Pubkey,
    /// The identity that closed it.
    pub closer: Pubkey,
    /// Time when the buffer was closed.
    pub time: i64,
}

/// Emitted when a role of an [`InstructionBuffer`] is reassigned.
#[derive(Clone, Copy, Debug, PartialEq, Eq, Structural)]
pub struct SetBufferRoleEvent {
    /// The buffer.
    pub buffer: Pubkey,
    /// The byte encoding of the role that was set.
    pub role: u8,
    /// The key that held the role before.
    pub old_role_key: Pubkey,
    /// The key that holds the role now.
    pub new_role_key: Pubkey,
}

/// Inputs of [`handle_init`]: the buffer account to fill and its admin.
pub struct InitIxBuffer {
    /// The buffer to initialize; overwritten wholesale.
    pub buffer: InstructionBuffer,
    /// The buffer's own key, for the receipt.
    pub buffer_key: Pubkey,
    /// The identity that becomes admin and, initially, writer.
    pub admin: Pubkey,
}

/// Inputs of [`handle_close`]: the buffer to close and whoever asks.
pub struct CloseIxBuffer {
    /// The buffer to close.
    pub buffer: InstructionBuffer,
    /// The buffer's own key, for the receipt.
    pub buffer_key: Pubkey,
    /// The identity asking to close the buffer.
    pub caller: Pubkey,
}

/// Inputs of [`handle_set_role`]: the buffer and the admin caller.
pub struct SetBufferRole {
    /// The buffer whose role is reassigned.
    pub buffer: InstructionBuffer,
    /// The buffer's own key, for the receipt.
    pub buffer_key: Pubkey,
    /// The identity asking; must be the buffer's admin.
    pub admin: Pubkey,
}

/// Initializes an empty [`InstructionBuffer`] bound to `smart_wallet`. The
/// caller becomes admin and, by default, writer; the executor role starts
/// unassigned.
pub fn handle_init(
    ctx: &mut InitIxBuffer,
    smart_wallet: &SmartWallet,
    smart_wallet_key: Pubkey,
    eta: i64,
) -> (event: InitBufferEvent)
    ensures
        final(ctx).buffer.smart_wallet == smart_wallet_key,
        final(ctx).buffer.owner_set_seqno == smart_wallet.owner_set_seqno,
        final(ctx).buffer.eta == eta,
        final(ctx).buffer.admin == old(ctx).admin,
        final(ctx).buffer.writer == old(ctx).admin,
        final(ctx).buffer.executor == Pubkey::empty(),
        final(ctx).buffer.finalized_at == 0,
        final(ctx).buffer.bundles@.len() == 0,
        final(ctx).buffer.wf(),
        final(ctx).buffer_key == old(ctx).buffer_key,
        final(ctx).admin == old(ctx).admin,
        event == (InitBufferEvent { admin: old(ctx).admin, buffer: old(ctx).buffer_key }),
{
    init_internal(ctx, smart_wallet, smart_wallet_key, eta, 0)
}

/// Initializes an [`InstructionBuffer`] with `num_bundles` empty bundles
/// already allocated; otherwise exactly [`handle_init`].
pub fn handle_init_with_bundles(
    ctx: &mut InitIxBuffer,
    smart_wallet: &SmartWallet,
    smart_wallet_key: Pubkey,
    eta: i64,
    num_bundles: u8,
) -> (event: InitBufferEvent)
    ensures
        final(ctx).buffer.smart_wallet == smart_wallet_key,
        final(ctx).buffer.owner_set_seqno == smart_wallet.owner_set_seqno,
        final(ctx).buffer.eta == eta,
        final(ctx).buffer.admin == old(ctx).admin,
        final(ctx).buffer.writer == old(ctx).admin,
        final(ctx).buffer.executor == Pubkey::empty(),
        final(ctx).buffer.finalized_at == 0,
        final(ctx).buffer.bundles@.len() == num_bundles,
        forall|i: int|
            0 <= i < num_bundles ==> final(ctx).buffer.bundles@[i].instructions@.len() == 0
                && final(ctx).buffer.bundles@[i].exec_count == 0,
        final(ctx).buffer.wf(),
        final(ctx).buffer_key == old(ctx).buffer_key,
        final(ctx).admin == old(ctx).admin,
        event == (InitBufferEvent { admin: old(ctx).admin, buffer: old(ctx).buffer_key }),
{
    init_internal(ctx, smart_wallet, smart_wallet_key, eta, num_bundles)
}

/// Shared body of the two init entry points.
fn init_internal(
    ctx: &mut InitIxBuffer,
    smart_wallet: &SmartWallet,
    smart_wallet_key: Pubkey,
    eta: i64,
    num_bundles: u8,
) -> (event: InitBufferEvent)
    ensures
        final(ctx).buffer.smart_wallet == smart_wallet_key,
        final(ctx).buffer.owner_set_seqno == smart_wallet.owner_set_seqno,
        final(ctx).buffer.eta == eta,
        final(ctx).buffer.admin == old(ctx).admin,
        final(ctx).buffer.writer == old(ctx).admin,
        final(ctx).buffer.executor == Pubkey::empty(),
        final(ctx).buffer.finalized_at == 0,
        final(ctx).buffer.bundles@.len() == num_bundles,
        forall|i: int|
            0 <= i < num_bundles ==> final(ctx).buffer.bundles@[i].instructions@.len() == 0
                && final(ctx).buffer.bundles@[i].exec_count == 0,
        final(ctx).buffer.wf(),
        final(ctx).buffer_key == old(ctx).buffer_key,
        final(ctx).admin == old(ctx).admin,
        event == (InitBufferEvent { admin: old(ctx).admin, buffer: old(ctx).buffer_key }),
{
    let mut bundles: Vec<InstructionBundle> = Vec::new();
    let mut i: u8 = 0;
    while i < num_bundles
        invariant
            i <= num_bundles,
            bundles@.len() == i,
            forall|j: int|
                0 <= j < i ==> bundles@[j].instructions@.len() == 0 && bundles@[j].exec_count
                    == 0,
        decreases num_bundles - i,
    {
        bundles.push(InstructionBundle::default());
        i = i + 1;
    }
    ctx.buffer = InstructionBuffer {
        smart_wallet: smart_wallet_key,
        owner_set_seqno: smart_wallet.owner_set_seqno,
        eta,
        admin: ctx.admin,
        writer: ctx.admin,
        executor: Pubkey::default(),
        finalized_at: 0,
        bundles,
    };
    InitBufferEvent { admin: ctx.admin, buffer: ctx.buffer_key }
}

/// Who may close a buffer: the executor once it is finalized (the buffer is
/// theirs to drain), the admin before that.
pub open spec fn close_outcome(buffer: InstructionBuffer, caller: Pubkey) -> Result<
    (),
    ErrorCode,
> {
    if buffer.is_finalized() {
        if caller == buffer.executor {
            Ok(())
        } else {
            Err(ErrorCode::BufferRoleInvalid)
        }
    } else {
        if caller == buffer.admin {
            Ok(())
        } else {
            Err(ErrorCode::BufferRoleInvalid)
        }
    }
}

/// Validates that the caller may close the buffer; the host runtime then
/// reclaims the account.
pub fn handle_close(ctx: &CloseIxBuffer, now: i64) -> (r: Result<CloseBufferEvent, ErrorCode>)
    ensures
        match r {
            Ok(event) => {
                &&& close_outcome(ctx.buffer, ctx.caller) is Ok
                &&& event == (CloseBufferEvent {
                    buffer: ctx.buffer_key,
                    closer: ctx.caller,
                    time: now,
                })
            },
            Err(e) => close_outcome(ctx.buffer, ctx.caller) == Err::<(), ErrorCode>(e),
        },
{
    if ctx.buffer.finalized_at != 0 {
        if ctx.caller != ctx.buffer.executor {
            return Err(ErrorCode::BufferRoleInvalid);
        }
    } else {
        if ctx.caller != ctx.buffer.admin {
            return Err(ErrorCode::BufferRoleInvalid);
        }
    }
    Ok(CloseBufferEvent { buffer: ctx.buffer_key, closer: ctx.caller, time: now })
}

/// What reassigning a role decides: only the admin may reassign, roles are
/// frozen once execution has begun, and the executor role can be set exactly
/// once — never taken away from whoever holds it.
pub open spec fn set_role_outcome(
    buffer: InstructionBuffer,
    caller: Pubkey,
    role: BufferRole,
    key: Pubkey,
) -> Result<(), ErrorCode> {
    if caller != buffer.admin {
        Err(ErrorCode::BufferRoleInvalid)
    } else if buffer.exec_started() {
        Err(ErrorCode::BufferRoleInvalid)
    } else if role == BufferRole::Executer && buffer.executor != Pubkey::empty() {
        Err(ErrorCode::BufferRoleInvalid)
    } else {
        Ok(())
    }
}

/// Reassigns a buffer role to `key`.
pub fn handle_set_role(ctx: &mut SetBufferRole, role: BufferRole, key: Pubkey) -> (r: Result<
    SetBufferRoleEvent,
    ErrorCode,
>)
    requires
        old(ctx).buffer.wf(),
    ensures
        match r {
            Ok(event) => {
                &&& set_role_outcome(old(ctx).buffer, old(ctx).admin, role, key) is Ok
                &&& final(ctx).buffer == match role {
                    BufferRole::Admin => (InstructionBuffer { admin: key, ..old(ctx).buffer }),
                    BufferRole::Writer => (InstructionBuffer { writer: key, ..old(ctx).buffer }),
                    BufferRole::Executer => (InstructionBuffer {
                        executor: key,
                        ..old(ctx).buffer
                    }),
                }
                &&& final(ctx).buffer.wf()
                &&& final(ctx).buffer_key == old(ctx).buffer_key
                &&& final(ctx).admin == old(ctx).admin
                &&& event == (SetBufferRoleEvent {
                    buffer: old(ctx).buffer_key,
                    role: role_byte(role),
                    old_role_key: match role {
                        BufferRole::Admin => old(ctx).buffer.admin,
                        BufferRole::Writer => old(ctx).buffer.writer,
                        BufferRole::Executer => old(ctx).buffer.executor,
                    },
                    new_role_key: key,
                })
            },
            Err(e) => {
                &&& set_role_outcome(old(ctx).buffer, old(ctx).admin, role, key) == Err::<
                    (),
                    ErrorCode,
                >(e)
                &&& *final(ctx) == *old(ctx)
            },
        },
{
    if ctx.admin != ctx.buffer.admin {
        return Err(ErrorCode::BufferRoleInvalid);
    }
    if ctx.buffer.has_begun_execution() {
        return Err(ErrorCode::BufferRoleInvalid);
    }
    let role_as_byte = role.as_u8();
    let old_role_key: Pubkey;
    match role {
        BufferRole::Admin => {
            old_role_key = ctx.buffer.admin;
            ctx.buffer.admin = key;
        },
        BufferRole::Writer => {
            old_role_key = ctx.buffer.writer;
            ctx.buffer.writer = key;
        },
        BufferRole::Executer => {
            if !(ctx.buffer.executor == Pubkey::default()) {
                return Err(ErrorCode::BufferRoleInvalid);
            }
            old_role_key = ctx.buffer.executor;
            ctx.buffer.executor = key;
        },
    }
    Ok(
        SetBufferRoleEvent {
            buffer: ctx.buffer_key,
            role: role_as_byte,
            old_role_key,
            new_role_key: key,
        },
    )
}

/// The role a byte at most 2 names; meaningless past 2.
pub open spec fn decoded_role(value: u8) -> BufferRole {
    if value == 0 {
        BufferRole::Admin
    } else if value == 1 {
        BufferRole::Writer
    } else {
        BufferRole::Executer
    }
}

/// Byte-level entry of [`handle_set_role`]: decodes the role byte, then
/// reassigns the role. A byte past 2 names no role and fails with
/// [`ErrorCode::InvalidBufferRole`].
pub fn set_buffer_role(ctx: &mut SetBufferRole, role: u8, key: Pubkey) -> (r: Result<
    SetBufferRoleEvent,
    ErrorCode,
>)
    requires
        old(ctx).buffer.wf(),
    ensures
        match r {
            Ok(event) => {
                &&& role <= 2
                &&& set_role_outcome(old(ctx).buffer, old(ctx).admin, decoded_role(role), key) is Ok
                &&& final(ctx).buffer == match decoded_role(role) {
                    BufferRole::Admin => (InstructionBuffer { admin: key, ..old(ctx).buffer }),
                    BufferRole::Writer => (InstructionBuffer { writer: key, ..old(ctx).buffer }),
                    BufferRole::Executer => (InstructionBuffer {
                        executor: key,
                        ..old(ctx).buffer
                    }),
                }
                &&& final(ctx).buffer.wf()
                &&& final(ctx).buffer_key == old(ctx).buffer_key
                &&& final(ctx).admin == old(ctx).admin
                &&& event == (SetBufferRoleEvent {
                    buffer: old(ctx).buffer_key,
                    role,
                    old_role_key: match decoded_role(role) {
                        BufferRole::Admin => old(ctx).buffer.admin,
                        BufferRole::Writer => old(ctx).buffer.writer,
                        BufferRole::Executer => old(ctx).buffer.executor,
                    },
                    new_role_key: key,
                })
            },
            Err(e) => {
                &&& *final(ctx) == *old(ctx)
                &&& if role > 2 {
                    e == ErrorCode::InvalidBufferRole
                } else {
                    set_role_outcome(old(ctx).buffer, old(ctx).admin, decoded_role(role), key)
                        == Err::<(), ErrorCode>(e)
                }
            },
        },
{
    let decoded = match BufferRole::from_u8(role) {
        Ok(decoded) => decoded,
        Err(e) => {
            return Err(e);
        },
    };
    handle_set_role(ctx, decoded, key)
}

} // verus!
