//! Tests that drive the stopwatch through the timepoint-taking operations,
//! so every expected value is exact.

use stopwatch::model::StopwatchError;
use stopwatch::Stopwatch;

#[test]
//Laps record the intervals between consecutive timepoints; lap returns the
//interval just completed while stop returns the accumulated total
fn lap_vs_stop_return_values() {
    let mut sw = Stopwatch::new();
    assert_eq!(sw.start_at(5), Ok(5));
    assert_eq!(sw.lap_at(12), Ok(7));
    assert_eq!(sw.lap_at(20), Ok(8));
    assert_eq!(sw.stop_at(26), Ok(21));

    assert_eq!(sw.get_lap_count(), 3);
    assert_eq!(sw.get_lap(0), Ok(7));
    assert_eq!(sw.get_lap(1), Ok(8));
    assert_eq!(sw.get_lap(2), Ok(6));
    assert_eq!(sw.get_lap(3), Err(StopwatchError::IndexOutOfRange));
}

#[test]
//A rejected second start leaves elapsed, laps and the running interval as
//the first start left them
fn duplicate_start_is_rejected() {
    let mut sw = Stopwatch::new();
    assert_eq!(sw.start_at(5), Ok(5));
    assert_eq!(sw.start_at(9), Err(StopwatchError::AlreadyRunning));
    assert_eq!(sw.get_lap_count(), 0);
    // The interval still runs from 5, not 9.
    assert_eq!(sw.stop_at(11), Ok(6));
}

#[test]
//Stop and lap while idle are rejected and change nothing
fn stop_and_lap_while_idle_are_rejected() {
    let mut sw = Stopwatch::new();
    assert_eq!(sw.stop_at(3), Err(StopwatchError::NotRunning));
    assert_eq!(sw.lap_at(4), Err(StopwatchError::NotRunning));
    assert_eq!(sw.get_lap_count(), 0);
    // The stopwatch still starts normally afterwards.
    assert_eq!(sw.start_at(10), Ok(10));
    assert_eq!(sw.stop_at(14), Ok(4));
}

#[test]
//Only running intervals accumulate: the gap between stop and the next start
//contributes nothing
fn idle_gap_contributes_nothing() {
    let mut sw = Stopwatch::new();
    assert_eq!(sw.start_at(10), Ok(10));
    assert_eq!(sw.stop_at(17), Ok(7));
    // A long idle gap.
    assert_eq!(sw.start_at(1_000), Ok(1_000));
    assert_eq!(sw.stop_at(1_005), Ok(12));
    assert_eq!(sw.get_lap_count(), 2);
    assert_eq!(sw.get_lap(0), Ok(7));
    assert_eq!(sw.get_lap(1), Ok(5));
}

#[test]
//An interval may legitimately begin at timepoint zero: the stopwatch is
//genuinely running, unlike an encoding that reserves zero for "idle"
fn interval_starting_at_zero_runs() {
    let mut sw = Stopwatch::new();
    assert_eq!(sw.start_at(0), Ok(0));
    assert_eq!(sw.start_at(0), Err(StopwatchError::AlreadyRunning));
    assert_eq!(sw.stop_at(0), Ok(0));
    assert_eq!(sw.get_lap_count(), 1);
    assert_eq!(sw.get_lap(0), Ok(0));
}

#[test]
//The arithmetic holds up to the largest representable timepoint
fn largest_timepoint() {
    let mut sw = Stopwatch::new();
    assert_eq!(sw.start_at(0), Ok(0));
    assert_eq!(sw.stop_at(u64::MAX), Ok(u64::MAX));
    assert_eq!(sw.get_lap(0), Ok(u64::MAX));
    // Nothing more can ever accumulate: any further interval is empty.
    assert_eq!(sw.start_at(u64::MAX), Ok(u64::MAX));
    assert_eq!(sw.stop_at(u64::MAX), Ok(u64::MAX));
}

#[test]
//get_lap answers every index at or beyond the lap count with the
//out-of-range error, in any state
fn out_of_range_lap_queries() {
    let mut sw = Stopwatch::new();
    assert_eq!(sw.get_lap(0), Err(StopwatchError::IndexOutOfRange));
    assert_eq!(sw.get_lap(10), Err(StopwatchError::IndexOutOfRange));
    assert_eq!(sw.start_at(1), Ok(1));
    assert_eq!(sw.lap_at(2), Ok(1));
    assert_eq!(sw.get_lap(0), Ok(1));
    assert_eq!(sw.get_lap(1), Err(StopwatchError::IndexOutOfRange));
    assert_eq!(sw.get_lap(usize::MAX), Err(StopwatchError::IndexOutOfRange));
}
