//! A buffered append-only time-series writer for machine telemetry.
//!
//! Each metric is recorded once per tick from a shared [`snapshot::Snapshot`]
//! and accumulated in an in-memory buffer; full buffers are handed out as
//! contiguous chunks to be appended to a pre-allocated storage column at the
//! writer's current offset.  The buffering, flush policy and index bookkeeping
//! are verified; performing the actual storage writes is left to the caller.

use vstd::prelude::*;

pub mod one_dimension;
pub mod sampling;
pub mod snapshot;
pub mod two_dimension;
pub mod types;

verus! {

/// Total time-axis capacity of every storage column, in samples.
pub const TARGET: usize = 10_800_000;

/// Number of samples a writer buffers between flushes.
pub const BUFFER_SIZE: usize = 120;

} // verus!
