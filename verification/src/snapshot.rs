//! One consistent view of machine telemetry at a tick boundary.
//!
//! The poll loop owns the snapshot, refreshes it exactly once per tick, and
//! passes an immutable reference into every writer's `update` call, so all
//! writers of one tick observe the same values.  The probe that fills it from
//! the running machine is outside the verified core; the writers only read
//! these plain fields.

use vstd::prelude::*;

verus! {

/// Plain-value view of the machine state for one tick.
///
/// Per-entity readings (one per processor core, one per disk) are indexed in
/// the order the probe enumerates them, which does not change within a run.
pub struct Snapshot {
    /// Number of measurement passes taken so far, this one included.
    pub measurements_taken: u64,
    /// Seconds since the epoch when this tick's refresh happened.
    pub system_time_secs: u64,
    /// Milliseconds elapsed since the run started.
    pub elapsed_millis: u64,
    /// Current frequency of each processor core, in MHz.
    pub cpu_frequencies: Vec<u64>,
    /// Total installed memory, in bytes.
    pub total_memory: u64,
    /// Memory currently in use, in bytes.
    pub used_memory: u64,
    /// Total swap space, in bytes.
    pub total_swap: u64,
    /// Swap space currently in use, in bytes.
    pub used_swap: u64,
    /// Available space of each disk, in bytes.
    pub disk_available_space: Vec<u64>,
    /// Total space of each disk, in bytes.
    pub disk_total_space: Vec<u64>,
    /// Whether each disk is removable.
    pub disk_removable: Vec<bool>,
}

} // verus!
