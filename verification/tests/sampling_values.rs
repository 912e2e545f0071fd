//! Exact values of every sampling kind on a concrete snapshot, including the
//! out-of-range and saturation edge cases.

use telemetry_writer::sampling::{Sampler, ScalarKind, VectorKind, VectorSampler};
use telemetry_writer::snapshot::Snapshot;

fn probe_snapshot() -> Snapshot {
    Snapshot {
        measurements_taken: 42,
        system_time_secs: 1_700_000_123,
        elapsed_millis: 98_765,
        cpu_frequencies: vec![2400, 2600, 2800],
        total_memory: 16_000_000_000,
        used_memory: 9_000_000_000,
        total_swap: 4_000_000_000,
        used_swap: 1_234,
        disk_available_space: vec![111, 222],
        disk_total_space: vec![1000, 2000],
        disk_removable: vec![false, true],
    }
}

#[test]
fn scalar_kinds_read_their_fields() {
    let s = probe_snapshot();
    assert_eq!(ScalarKind::SystemTime.sample(&s), 1_700_000_123);
    assert_eq!(ScalarKind::ElapsedMillis.sample(&s), 98_765);
    assert_eq!(ScalarKind::MeasurementsTaken.sample(&s), 42);
    assert_eq!(ScalarKind::TotalMemory.sample(&s), 16_000_000_000);
    assert_eq!(ScalarKind::UsedMemory.sample(&s), 9_000_000_000);
    assert_eq!(ScalarKind::TotalSwap.sample(&s), 4_000_000_000);
    assert_eq!(ScalarKind::UsedSwap.sample(&s), 1_234);
}

#[test]
fn measurements_remaining_counts_down() {
    let s = probe_snapshot();
    assert_eq!(ScalarKind::MeasurementsRemaining { target: 100 }.sample(&s), 58);
    assert_eq!(ScalarKind::MeasurementsRemaining { target: 42 }.sample(&s), 0);
}

#[test]
fn measurements_remaining_saturates_past_target() {
    let s = probe_snapshot();
    assert_eq!(ScalarKind::MeasurementsRemaining { target: 10 }.sample(&s), 0);
}

#[test]
fn per_entity_kinds_index_their_entity() {
    let s = probe_snapshot();
    assert_eq!(ScalarKind::CpuFrequency { core: 0 }.sample(&s), 2400);
    assert_eq!(ScalarKind::CpuFrequency { core: 2 }.sample(&s), 2800);
    assert_eq!(ScalarKind::DiskAvailableSpace { disk: 1 }.sample(&s), 222);
    assert_eq!(ScalarKind::DiskTotalSpace { disk: 0 }.sample(&s), 1000);
}

#[test]
fn per_entity_kinds_read_zero_out_of_range() {
    // An entity that disappeared mid-run reads as 0 rather than failing.
    let s = probe_snapshot();
    assert_eq!(ScalarKind::CpuFrequency { core: 3 }.sample(&s), 0);
    assert_eq!(ScalarKind::DiskAvailableSpace { disk: 2 }.sample(&s), 0);
    assert_eq!(ScalarKind::DiskRemovable { disk: 9 }.sample(&s), 0);
}

#[test]
fn disk_removable_is_one_or_zero() {
    let s = probe_snapshot();
    assert_eq!(ScalarKind::DiskRemovable { disk: 0 }.sample(&s), 0);
    assert_eq!(ScalarKind::DiskRemovable { disk: 1 }.sample(&s), 1);
}

#[test]
fn vector_kinds_read_whole_entity_lists() {
    let s = probe_snapshot();
    assert_eq!(VectorKind::CpuFrequencies.sample(&s), vec![2400, 2600, 2800]);
    assert_eq!(VectorKind::DiskAvailableSpaces.sample(&s), vec![111, 222]);
    assert_eq!(VectorKind::DiskTotalSpaces.sample(&s), vec![1000, 2000]);
}

#[test]
fn grouped_and_single_samples_agree() {
    // Same-tick consistency at the sampling level: the grouped reading at
    // index i equals the single-entity reading for entity i.
    let s = probe_snapshot();
    let grouped = VectorKind::CpuFrequencies.sample(&s);
    for core in 0..grouped.len() {
        assert_eq!(grouped[core], ScalarKind::CpuFrequency { core }.sample(&s));
    }
}
