//! The mathematical model of a stopwatch.
//!
//! A stopwatch is either idle or running.  While it runs, the moment the
//! current interval began is remembered; `stop` and `lap` close the interval,
//! add its length to the accumulated total and record it as a lap.  All
//! timepoints are whole nanoseconds measured from the stopwatch's origin, and
//! the model works over unbounded integers: the executable type in the crate
//! root refines this model with machine words.

use vstd::prelude::*;

verus! {

/// Why an operation was rejected.  Every invalid call leaves the stopwatch
/// unchanged apart from the bookkeeping timepoint and reports one of these.
#[derive(Clone, Copy, Debug, PartialEq, Eq, Structural)]
pub enum StopwatchError {
    /// `start` was called while an interval was already running.
    AlreadyRunning,
    /// `stop` or `lap` was called while the stopwatch was idle.
    NotRunning,
    /// `get_lap` was asked for a lap that has not been recorded.
    IndexOutOfRange,
}

/// The abstract state of a stopwatch.
#[verifier::ext_equal]
pub struct StopwatchModel {
    /// `Some(s)`: an interval is running and began at timepoint `s`.
    /// `None`: the stopwatch is idle.
    pub running: Option<int>,
    /// Total length of all completed intervals.
    pub elapsed: int,
    /// The completed intervals, in the order they were recorded.
    pub laps: Seq<int>,
    /// The most recent clock reading any operation has observed.
    pub last_observed: int,
}

/// The sum of a sequence of lap durations.
pub open spec fn lap_sum(laps: Seq<int>) -> int
    decreases laps.len(),
{
    if laps.len() == 0 {
        0
    } else {
        lap_sum(laps.drop_last()) + laps.last()
    }
}

/// Appending one duration adds exactly that duration to the sum.
pub proof fn lemma_lap_sum_push(laps: Seq<int>, v: int)
    ensures
        lap_sum(laps.push(v)) == lap_sum(laps) + v,
{
    assert(laps.push(v).drop_last() =~= laps);
}

/// Widens an executable result to the model's unbounded integers.
pub open spec fn widen(r: Result<u64, StopwatchError>) -> Result<int, StopwatchError> {
    match r {
        Ok(v) => Ok(v as int),
        Err(e) => Err(e),
    }
}

impl StopwatchModel {
    /// A freshly constructed stopwatch: idle, with no time accumulated and no
    /// laps recorded.
    pub open spec fn fresh() -> StopwatchModel {
        StopwatchModel { running: None, elapsed: 0, laps: Seq::empty(), last_observed: 0 }
    }

    pub open spec fn is_running(self) -> bool {
        self.running is Some
    }

    /// The states a stopwatch can actually be in.  Timepoints never exceed the
    /// last clock reading, the accumulated total never exceeds the time that
    /// has passed, and the total is exactly the sum of the recorded laps.
    pub open spec fn wf(self) -> bool {
        &&& 0 <= self.elapsed <= self.last_observed
        &&& (self.running matches Some(s) ==> self.elapsed <= s <= self.last_observed)
        &&& lap_sum(self.laps) == self.elapsed
        &&& forall|i: int| 0 <= i < self.laps.len() ==> 0 <= #[trigger] self.laps[i]
    }

    /// `start` observed the clock at `tp`: rejected while running, otherwise a
    /// new interval begins at `tp` and `tp` itself is returned.
    pub open spec fn step_start(self, tp: int) -> (StopwatchModel, Result<int, StopwatchError>) {
        if self.running is Some {
            (StopwatchModel { last_observed: tp, ..self }, Err(StopwatchError::AlreadyRunning))
        } else {
            (
                StopwatchModel { running: Some(tp), last_observed: tp, ..self },
                Ok(tp),
            )
        }
    }

    /// `stop` observed the clock at `tp`: rejected while idle, otherwise the
    /// running interval is closed and recorded as a lap, the stopwatch becomes
    /// idle, and the new accumulated total is returned.
    pub open spec fn step_stop(self, tp: int) -> (StopwatchModel, Result<int, StopwatchError>) {
        match self.running {
            None => (StopwatchModel { last_observed: tp, ..self }, Err(StopwatchError::NotRunning)),
            Some(s) => (
                StopwatchModel {
                    running: None,
                    elapsed: self.elapsed + (tp - s),
                    laps: self.laps.push(tp - s),
                    last_observed: tp,
                },
                Ok(self.elapsed + (tp - s)),
            ),
        }
    }

    /// `lap` observed the clock at `tp`: rejected while idle, otherwise the
    /// running interval is closed and recorded exactly as for `stop`, but a
    /// new interval begins at `tp` at once and the length of the interval just
    /// completed — not the accumulated total — is returned.
    pub open spec fn step_lap(self, tp: int) -> (StopwatchModel, Result<int, StopwatchError>) {
        match self.running {
            None => (StopwatchModel { last_observed: tp, ..self }, Err(StopwatchError::NotRunning)),
            Some(s) => (
                StopwatchModel {
                    running: Some(tp),
                    elapsed: self.elapsed + (tp - s),
                    laps: self.laps.push(tp - s),
                    last_observed: tp,
                },
                Ok(tp - s),
            ),
        }
    }

    /// What `get_lap` answers: the recorded lap at `index`, or a rejection for
    /// an index with no recorded lap.
    pub open spec fn lap_query(self, index: int) -> Result<int, StopwatchError> {
        if 0 <= index < self.laps.len() {
            Ok(self.laps[index])
        } else {
            Err(StopwatchError::IndexOutOfRange)
        }
    }

    /// A rejected or accepted `start` keeps every well-formed stopwatch
    /// well-formed and never loses accumulated time or laps.
    pub proof fn lemma_step_start_wf(self, tp: int)
        requires
            self.wf(),
            self.last_observed <= tp,
        ensures
            self.step_start(tp).0.wf(),
            self.step_start(tp).0.elapsed == self.elapsed,
            self.step_start(tp).0.laps == self.laps,
    {
    }

    /// `stop` keeps every well-formed stopwatch well-formed; the accumulated
    /// total never decreases.
    pub proof fn lemma_step_stop_wf(self, tp: int)
        requires
            self.wf(),
            self.last_observed <= tp,
        ensures
            self.step_stop(tp).0.wf(),
            self.step_stop(tp).0.elapsed >= self.elapsed,
    {
        if let Some(s) = self.running {
            lemma_lap_sum_push(self.laps, tp - s);
        }
    }

    /// `lap` keeps every well-formed stopwatch well-formed; the accumulated
    /// total never decreases.
    pub proof fn lemma_step_lap_wf(self, tp: int)
        requires
            self.wf(),
            self.last_observed <= tp,
        ensures
            self.step_lap(tp).0.wf(),
            self.step_lap(tp).0.elapsed >= self.elapsed,
    {
        if let Some(s) = self.running {
            lemma_lap_sum_push(self.laps, tp - s);
        }
    }
}

} // verus!
