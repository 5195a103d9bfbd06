//! Multisig smart wallet with timelock capabilities.
//!
//! A group of owner identities jointly controls a set of deferred action
//! sets. A [`state::Transaction`] is proposed by an owner, collects
//! approvals, becomes eligible once its ETA has passed, and is executed
//! exactly once. A [`buffer::InstructionBuffer`] lets a large action set be
//! staged incrementally, finalized, and then executed one action at a time
//! with resumable progress, gated by three roles (admin, writer, executor).
//!
//! The host runtime supplies the clock, signature verification and the
//! opaque action invoker; this crate holds the state machines and the rules
//! they enforce.

use vstd::prelude::*;

pub mod buffer;
pub mod buffer_append_ix;
pub mod buffer_execute_ix;
pub mod buffer_finalize;
pub mod error;
pub mod events;
pub mod invoker;
pub mod key;
pub mod state;
pub mod subaccount;
pub mod transaction;
pub mod wallet;

verus! {

/// Number of seconds in a day.
pub const SECONDS_PER_DAY: i64 = 60 * 60 * 24;

/// Maximum timelock delay, in seconds.
pub const MAX_DELAY_SECONDS: i64 = 365 * SECONDS_PER_DAY;

/// Default number of seconds until a transaction expires.
pub const DEFAULT_GRACE_PERIOD: i64 = 14 * SECONDS_PER_DAY;

/// Constant declaring that there is no ETA of the transaction.
pub const NO_ETA: i64 = -1;

} // verus!
