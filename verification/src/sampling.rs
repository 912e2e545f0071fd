//! Per-writer sampling: how a writer derives its value(s) from a snapshot.
//!
//! Instead of opaque closures, each writer owns a small tagged value — a
//! [`ScalarKind`] or [`VectorKind`], possibly carrying an entity index — and
//! the dispatch over those tags is a verified, inspectable function of the
//! snapshot alone.  That makes same-tick consistency a theorem: two writers
//! reading the same snapshot observe the same value for the same quantity.

use vstd::prelude::*;

use crate::snapshot::Snapshot;
use crate::types::copy_prefix;

verus! {

/// A sampling function from snapshot to one scalar value.
///
/// `sample` must return exactly `spec_sample` of the snapshot, so sampling is
/// deterministic within a tick: it reads the snapshot and nothing else.
pub trait Sampler<T> {
    /// The value this sampler derives from a snapshot.
    spec fn spec_sample(&self, s: Snapshot) -> T;

    /// Derives this writer's value from the given snapshot.
    fn sample(&self, s: &Snapshot) -> (r: T)
        ensures
            r == self.spec_sample(*s),
    ;
}

/// A sampling function from snapshot to one vector of values, one element per
/// tracked entity.  The writer, not the sampler, fits the vector to its
/// column's fixed arity.
pub trait VectorSampler<T> {
    /// The per-entity values this sampler derives from a snapshot.
    spec fn spec_sample(&self, s: Snapshot) -> Vec<T>;

    /// Derives this writer's per-entity values from the given snapshot.
    fn sample(&self, s: &Snapshot) -> (r: Vec<T>)
        ensures
            r@ == self.spec_sample(*s)@,
    ;
}

/// Which scalar quantity a writer records each tick.
#[derive(Clone, Copy, Debug, PartialEq, Eq, Structural)]
pub enum ScalarKind {
    /// Seconds since the epoch at this tick.
    SystemTime,
    /// Milliseconds since the run started.
    ElapsedMillis,
    /// Measurement passes taken so far, this one included.
    MeasurementsTaken,
    /// Measurement passes still to take before `target` is reached
    /// (zero once `target` has been passed).
    MeasurementsRemaining { target: u64 },
    /// Frequency of one processor core, in MHz.
    CpuFrequency { core: usize },
    /// Total installed memory, in bytes.
    TotalMemory,
    /// Memory in use, in bytes.
    UsedMemory,
    /// Total swap space, in bytes.
    TotalSwap,
    /// Swap space in use, in bytes.
    UsedSwap,
    /// Available space of one disk, in bytes.
    DiskAvailableSpace { disk: usize },
    /// Total space of one disk, in bytes.
    DiskTotalSpace { disk: usize },
    /// Whether one disk is removable: 1 if so, else 0.
    DiskRemovable { disk: usize },
}

/// Which per-entity vector quantity a writer records each tick.
#[derive(Clone, Copy, Debug, PartialEq, Eq, Structural)]
pub enum VectorKind {
    /// Frequency of every processor core, in MHz.
    CpuFrequencies,
    /// Available space of every disk, in bytes.
    DiskAvailableSpaces,
    /// Total space of every disk, in bytes.
    DiskTotalSpaces,
}

/// The element of `s` at `i`, or 0 for an entity the snapshot does not hold.
/// An entity that disappeared mid-run reads as 0 rather than failing.
pub open spec fn index_or_zero(s: Seq<u64>, i: int) -> u64 {
    if 0 <= i < s.len() {
        s[i]
    } else {
        0
    }
}

/// The scalar value a kind denotes on a given snapshot.
pub open spec fn spec_scalar_value(kind: ScalarKind, s: Snapshot) -> u64 {
    match kind {
        ScalarKind::SystemTime => s.system_time_secs,
        ScalarKind::ElapsedMillis => s.elapsed_millis,
        ScalarKind::MeasurementsTaken => s.measurements_taken,
        ScalarKind::MeasurementsRemaining { target } => if s.measurements_taken <= target {
            (target - s.measurements_taken) as u64
        } else {
            0
        },
        ScalarKind::CpuFrequency { core } => index_or_zero(s.cpu_frequencies@, core as int),
        ScalarKind::TotalMemory => s.total_memory,
        ScalarKind::UsedMemory => s.used_memory,
        ScalarKind::TotalSwap => s.total_swap,
        ScalarKind::UsedSwap => s.used_swap,
        ScalarKind::DiskAvailableSpace { disk } => index_or_zero(
            s.disk_available_space@,
            disk as int,
        ),
        ScalarKind::DiskTotalSpace { disk } => index_or_zero(s.disk_total_space@, disk as int),
        ScalarKind::DiskRemovable { disk } => if disk < s.disk_removable@.len()
            && s.disk_removable@[disk as int] {
            1
        } else {
            0
        },
    }
}

/// The per-entity values a vector kind denotes on a given snapshot.
pub open spec fn spec_vector_values(kind: VectorKind, s: Snapshot) -> Seq<u64> {
    match kind {
        VectorKind::CpuFrequencies => s.cpu_frequencies@,
        VectorKind::DiskAvailableSpaces => s.disk_available_space@,
        VectorKind::DiskTotalSpaces => s.disk_total_space@,
    }
}

impl Sampler<u64> for ScalarKind {
    open spec fn spec_sample(&self, s: Snapshot) -> u64 {
        spec_scalar_value(*self, s)
    }

    fn sample(&self, s: &Snapshot) -> (r: u64) {
        match *self {
            ScalarKind::SystemTime => s.system_time_secs,
            ScalarKind::ElapsedMillis => s.elapsed_millis,
            ScalarKind::MeasurementsTaken => s.measurements_taken,
            ScalarKind::MeasurementsRemaining { target } => if s.measurements_taken <= target {
                target - s.measurements_taken
            } else {
                0
            },
            ScalarKind::CpuFrequency { core } => index_u64_or_zero(&s.cpu_frequencies, core),
            ScalarKind::TotalMemory => s.total_memory,
            ScalarKind::UsedMemory => s.used_memory,
            ScalarKind::TotalSwap => s.total_swap,
            ScalarKind::UsedSwap => s.used_swap,
            ScalarKind::DiskAvailableSpace { disk } => index_u64_or_zero(
                &s.disk_available_space,
                disk,
            ),
            ScalarKind::DiskTotalSpace { disk } => index_u64_or_zero(&s.disk_total_space, disk),
            ScalarKind::DiskRemovable { disk } => if disk < s.disk_removable.len()
                && s.disk_removable[disk] {
                1
            } else {
                0
            },
        }
    }
}

impl VectorSampler<u64> for VectorKind {
    open spec fn spec_sample(&self, s: Snapshot) -> Vec<u64> {
        match *self {
            VectorKind::CpuFrequencies => s.cpu_frequencies,
            VectorKind::DiskAvailableSpaces => s.disk_available_space,
            VectorKind::DiskTotalSpaces => s.disk_total_space,
        }
    }

    fn sample(&self, s: &Snapshot) -> (r: Vec<u64>) {
        let v = match *self {
            VectorKind::CpuFrequencies => &s.cpu_frequencies,
            VectorKind::DiskAvailableSpaces => &s.disk_available_space,
            VectorKind::DiskTotalSpaces => &s.disk_total_space,
        };
        let r = copy_prefix(v, v.len());
        assert(r@ =~= v@);
        r
    }
}

/// The element of `v` at `i`, or 0 when `i` is out of range.
fn index_u64_or_zero(v: &Vec<u64>, i: usize) -> (r: u64)
    ensures
        r == index_or_zero(v@, i as int),
{
    if i < v.len() {
        v[i]
    } else {
        0
    }
}

/// Same-tick consistency across writer shapes: on one snapshot, the grouped
/// per-core frequency sample agrees at every core with the corresponding
/// single-core frequency sample.  Both writers of one tick therefore report
/// the same number for the same core.
pub proof fn lemma_same_tick_cpu_consistency(s: Snapshot, core: usize)
    ensures
        index_or_zero(spec_vector_values(VectorKind::CpuFrequencies, s), core as int)
            == spec_scalar_value((ScalarKind::CpuFrequency { core }), s),
{
}

/// Same-tick consistency for disks: the grouped available-space sample agrees
/// at every disk with the corresponding single-disk sample.
pub proof fn lemma_same_tick_disk_consistency(s: Snapshot, disk: usize)
    ensures
        index_or_zero(spec_vector_values(VectorKind::DiskAvailableSpaces, s), disk as int)
            == spec_scalar_value((ScalarKind::DiskAvailableSpace { disk }), s),
{
}

} // verus!
