//! A verified stopwatch over a monotonic clock.
//!
//! The `Stopwatch` accumulates the lengths of its running intervals in whole
//! nanoseconds and records each completed interval as a lap.  Its behaviour
//! is pinned down by the transition functions in [`model`], and the laws a
//! stopwatch obeys are proved in [`laws`].

use vstd::prelude::*;

pub mod clock;
pub mod laws;
pub mod model;

use crate::model::StopwatchError;
use crate::model::StopwatchModel;

verus! {

/// A stopwatch over the machine's monotonic clock.
///
/// All durations and timepoints are whole nanoseconds.  Timepoints are
/// measured from the instant the stopwatch was constructed; the library
/// clamps every clock reading so that the timepoints it works with never
/// decrease, whatever the trusted clock hands back.
pub struct Stopwatch {
    /// The monotonic instant of construction; timepoints are relative to it.
    origin: std::time::Instant,
    /// `Some(s)`: running since timepoint `s`.  `None`: idle.
    running: Option<u64>,
    /// Total nanoseconds of all completed intervals.
    elapsed: u64,
    /// The completed intervals, in the order they were recorded.
    laps: Vec<u64>,
    /// The most recent clock reading any operation has observed.
    last_observed: u64,
}

impl View for Stopwatch {
    type V = StopwatchModel;

    closed spec fn view(&self) -> StopwatchModel {
        StopwatchModel {
            running: match self.running {
                Some(s) => Some(s as int),
                None => None,
            },
            elapsed: self.elapsed as int,
            laps: self.laps@.map_values(|d: u64| d as int),
            last_observed: self.last_observed as int,
        }
    }
}

impl Stopwatch {
    /// Constructs an idle stopwatch with nothing accumulated and no laps,
    /// its origin fixed at the current instant.
    pub fn new() -> (sw: Stopwatch)
        ensures
            sw@ == StopwatchModel::fresh(),
            sw@.wf(),
    {
        let sw = Stopwatch {
            origin: std::time::Instant::now(),
            running: None,
            elapsed: 0,
            laps: Vec::new(),
            last_observed: 0,
        };
        proof {
            assert(sw@.laps =~= Seq::<int>::empty());
            assert(sw@ =~= StopwatchModel::fresh());
        }
        sw
    }

    /// Reads the monotonic clock as whole nanoseconds since `origin`, clamped
    /// so that it is never below the last reading this stopwatch observed.
    fn read_clock(&self) -> (tp: u64)
        ensures
            self@.last_observed <= tp,
    {
        let now = std::time::Instant::now();
        let span = now.saturating_duration_since(self.origin);
        let nanos: u128 = span.as_nanos();
        let raw: u64 = if nanos > u64::MAX as u128 {
            u64::MAX
        } else {
            nanos as u64
        };
        if raw < self.last_observed {
            self.last_observed
        } else {
            raw
        }
    }

    /// Starts a new interval as of the timepoint `tp`: rejected if an
    /// interval is already running, otherwise the stopwatch runs from `tp`
    /// and `tp` itself is returned.
    pub fn start_at(&mut self, tp: u64) -> (r: Result<u64, StopwatchError>)
        requires
            old(self)@.wf(),
            old(self)@.last_observed <= tp,
        ensures
            final(self)@.wf(),
            (final(self)@, model::widen(r)) == old(self)@.step_start(tp as int),
    {
        self.last_observed = tp;
        if self.running.is_some() {
            return Err(StopwatchError::AlreadyRunning);
        }
        self.running = Some(tp);
        Ok(tp)
    }

    /// Stops the stopwatch as of the timepoint `tp`: rejected if it is idle,
    /// otherwise the running interval is closed and recorded as a lap, the
    /// stopwatch becomes idle, and the new accumulated total is returned.
    pub fn stop_at(&mut self, tp: u64) -> (r: Result<u64, StopwatchError>)
        requires
            old(self)@.wf(),
            old(self)@.last_observed <= tp,
        ensures
            final(self)@.wf(),
            (final(self)@, model::widen(r)) == old(self)@.step_stop(tp as int),
    {
        self.last_observed = tp;
        match self.running {
            None => Err(StopwatchError::NotRunning),
            Some(since) => {
                let interval: u64 = tp - since;
                proof {
                    model::lemma_lap_sum_push(old(self)@.laps, interval as int);
                    old(self).laps@.lemma_push_map_commute(|d: u64| d as int, interval);
                }
                self.elapsed = self.elapsed + interval;
                self.laps.push(interval);
                self.running = None;
                Ok(self.elapsed)
            },
        }
    }

    /// Closes the running interval as of the timepoint `tp` and records it as
    /// a lap exactly as `stop` does, but keeps the stopwatch running from
    /// `tp` and returns the length of the interval just completed — not the
    /// accumulated total.  Rejected if the stopwatch is idle.
    pub fn lap_at(&mut self, tp: u64) -> (r: Result<u64, StopwatchError>)
        requires
            old(self)@.wf(),
            old(self)@.last_observed <= tp,
        ensures
            final(self)@.wf(),
            (final(self)@, model::widen(r)) == old(self)@.step_lap(tp as int),
    {
        self.last_observed = tp;
        match self.running {
            None => Err(StopwatchError::NotRunning),
            Some(since) => {
                let interval: u64 = tp - since;
                proof {
                    model::lemma_lap_sum_push(old(self)@.laps, interval as int);
                    old(self).laps@.lemma_push_map_commute(|d: u64| d as int, interval);
                }
                self.elapsed = self.elapsed + interval;
                self.laps.push(interval);
                self.running = Some(tp);
                Ok(interval)
            },
        }
    }

    /// Starts a new interval at the current clock reading.  Rejected with
    /// `AlreadyRunning` if an interval is already running; otherwise the
    /// returned timepoint is the one the interval runs from.
    pub fn start(&mut self) -> (r: Result<u64, StopwatchError>)
        requires
            old(self)@.wf(),
        ensures
            final(self)@.wf(),
            old(self)@.last_observed <= final(self)@.last_observed,
            (final(self)@, model::widen(r)) == old(self)@.step_start(final(self)@.last_observed),
    {
        let tp: u64 = self.read_clock();
        self.start_at(tp)
    }

    /// Stops the stopwatch at the current clock reading.  Rejected with
    /// `NotRunning` if it is idle; otherwise returns the accumulated total
    /// over all completed intervals.
    pub fn stop(&mut self) -> (r: Result<u64, StopwatchError>)
        requires
            old(self)@.wf(),
        ensures
            final(self)@.wf(),
            old(self)@.last_observed <= final(self)@.last_observed,
            (final(self)@, model::widen(r)) == old(self)@.step_stop(final(self)@.last_observed),
    {
        let tp: u64 = self.read_clock();
        self.stop_at(tp)
    }

    /// Records a lap at the current clock reading and keeps running.
    /// Rejected with `NotRunning` if the stopwatch is idle; otherwise returns
    /// the length of the interval just completed.
    pub fn lap(&mut self) -> (r: Result<u64, StopwatchError>)
        requires
            old(self)@.wf(),
        ensures
            final(self)@.wf(),
            old(self)@.last_observed <= final(self)@.last_observed,
            (final(self)@, model::widen(r)) == old(self)@.step_lap(final(self)@.last_observed),
    {
        let tp: u64 = self.read_clock();
        self.lap_at(tp)
    }

    /// Returns the recorded lap at `index`, or `IndexOutOfRange` if no lap
    /// with that index has been recorded.  Read-only.
    pub fn get_lap(&self, index: usize) -> (r: Result<u64, StopwatchError>)
        ensures
            model::widen(r) == self@.lap_query(index as int),
    {
        if index < self.laps.len() {
            Ok(self.laps[index])
        } else {
            Err(StopwatchError::IndexOutOfRange)
        }
    }

    /// Returns the number of laps recorded so far.  Read-only.
    pub fn get_lap_count(&self) -> (n: usize)
        ensures
            n == self@.laps.len(),
    {
        self.laps.len()
    }
}

} // verus!
