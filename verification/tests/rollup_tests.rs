use measure_rollup::intervals::RollupIntervals;
use measure_rollup::rollup::{Rollup, Rollups};

#[test]
fn test_rollup_reset() {
    let mut rollup: Rollup = Rollup {
        total: 5,
        sample_count: 5,
        start_ticks: std::time::Instant::now(),
        start_time: std::time::SystemTime::now(),
        active: true,
        first: true,
        whole: true,
    };
    assert_eq!(rollup.total, 5);
    rollup.reset_rollup();
    assert_eq!(rollup.total, 0);
}

#[test]
fn test_rollups() {
    let mut rollups = RollupIntervals::new();
    child_rollup_function(&mut rollups);
}

fn child_rollup_function(rollups: &mut RollupIntervals) {
    rollups.add_value(5);
}

#[test]
fn test_reset_clears_counts_and_flags() {
    let mut rollup = Rollup {
        total: 4_000_000_000,
        sample_count: u32::MAX,
        start_ticks: std::time::Instant::now(),
        start_time: std::time::SystemTime::now(),
        active: true,
        first: true,
        whole: true,
    };
    rollup.reset_rollup();
    assert_eq!(rollup.total, 0);
    assert_eq!(rollup.sample_count, 0);
    assert!(!rollup.active);
    assert!(!rollup.first);
    assert!(!rollup.whole);
}

#[test]
fn test_accumulation_sums_values_and_counts_calls() {
    let mut rollup = Rollup::new();
    rollup.add_value(10);
    rollup.add_value(0);
    rollup.add_value(32);
    assert_eq!(rollup.total, 42);
    assert_eq!(rollup.sample_count, 3);
}

#[test]
fn test_accumulation_wraps_on_overflow() {
    let mut rollup = Rollup::new();
    rollup.add_value(u32::MAX);
    assert_eq!(rollup.total, u32::MAX);
    assert_eq!(rollup.sample_count, 1);
    rollup.add_value(3);
    assert_eq!(rollup.total, 2);
    assert_eq!(rollup.sample_count, 2);
}

#[test]
fn test_no_rotation_within_window() {
    let mut ring = Rollups::new(1, 4);
    ring.add_value_with_elapsed(0, 10);
    assert_eq!(ring.current_rollup_index, 0);
    // elapsed equal to the interval does not rotate: rotation needs a
    // strict excess
    ring.add_value_with_elapsed(1, 5);
    assert_eq!(ring.current_rollup_index, 0);
    assert_eq!(ring.rollups[0].total, 15);
    assert_eq!(ring.rollups[0].sample_count, 2);
}

#[test]
fn test_single_step_rotation() {
    let mut ring = Rollups::new(1, 4);
    ring.add_value_with_elapsed(0, 10);
    assert_eq!(ring.rollups[0].total, 10);

    // the window is exceeded by many intervals' worth of idleness, yet the
    // index advances by exactly one step and only that bucket is reset
    ring.add_value_with_elapsed(100, 7);
    assert_eq!(ring.current_rollup_index, 1);
    assert_eq!(ring.rollups[1].total, 7);
    assert_eq!(ring.rollups[1].sample_count, 1);
    assert_eq!(ring.rollups[0].total, 10);
    assert_eq!(ring.rollups[0].sample_count, 1);
    assert_eq!(ring.rollups[2].total, 0);
    assert_eq!(ring.rollups[3].total, 0);
}

#[test]
fn test_rotation_wraps_around_the_ring() {
    let mut ring = Rollups::new(1, 2);
    ring.add_value_with_elapsed(0, 1);
    ring.add_value_with_elapsed(9, 2);
    assert_eq!(ring.current_rollup_index, 1);
    ring.add_value_with_elapsed(9, 3);
    // back to index 0: the stale bucket there is reset before reuse
    assert_eq!(ring.current_rollup_index, 0);
    assert_eq!(ring.rollups[0].total, 3);
    assert_eq!(ring.rollups[0].sample_count, 1);
    assert_eq!(ring.rollups[1].total, 2);
}

#[test]
fn test_bucket_totals_lists_every_bucket() {
    let mut ring = Rollups::new(1, 3);
    ring.add_value_with_elapsed(0, 4);
    ring.add_value_with_elapsed(2, 6);
    assert_eq!(ring.bucket_totals(), vec![(4, 1), (6, 1), (0, 0)]);
}

#[test]
fn test_snapshot_shape() {
    let mut intervals = RollupIntervals::new();
    intervals.add_value(9);
    let snapshot = intervals.snapshot();
    assert_eq!(snapshot.len(), 3);
    assert_eq!(snapshot[0].0, 1);
    assert_eq!(snapshot[0].1, 0);
    assert_eq!(snapshot[0].2.len(), 60);
    assert_eq!(snapshot[0].2[0], (9, 1));
    assert_eq!(snapshot[1].0, 3600);
    assert_eq!(snapshot[1].2.len(), 24);
    assert_eq!(snapshot[2].0, 86400);
    assert_eq!(snapshot[2].2.len(), 14);
}

#[test]
fn test_aggregator_fans_out_to_all_three_rings() {
    let mut intervals = RollupIntervals::new();
    intervals.add_value(10);
    intervals.add_value(5);
    let totals = intervals.current_totals();
    assert_eq!(totals, vec![(15, 2), (15, 2), (15, 2)]);
    // fixed configuration: 60 x 1 s, 24 x 1 h, 14 x 1 d
    assert_eq!(intervals.rollup_intervals.len(), 3);
    assert_eq!(intervals.rollup_intervals[0].interval_seconds, 1);
    assert_eq!(intervals.rollup_intervals[0].rollups.len(), 60);
    assert_eq!(intervals.rollup_intervals[1].interval_seconds, 3600);
    assert_eq!(intervals.rollup_intervals[1].rollups.len(), 24);
    assert_eq!(intervals.rollup_intervals[2].interval_seconds, 86400);
    assert_eq!(intervals.rollup_intervals[2].rollups.len(), 14);
}
