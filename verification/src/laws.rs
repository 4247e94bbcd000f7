//! Laws the stopwatch obeys, proved once and for all over the model.
//!
//! Each law quantifies over every well-formed stopwatch state and every
//! monotone sequence of clock readings, so it covers every run of the
//! executable operations in the crate root: their contracts say that each
//! call performs exactly the transition the law speaks about.

use vstd::prelude::*;

use crate::model::lap_sum;
use crate::model::StopwatchError;
use crate::model::StopwatchModel;

verus! {

/// Starting twice is rejected: after a successful `start`, a second `start`
/// at any later timepoint returns the already-running error, and the running
/// interval, the accumulated total and the recorded laps are all exactly as
/// the first `start` left them.
pub proof fn lemma_start_twice_rejected(m: StopwatchModel, tp1: int, tp2: int)
    requires
        m.wf(),
        !m.is_running(),
        m.last_observed <= tp1 <= tp2,
    ensures
        ({
            let (m1, r1) = m.step_start(tp1);
            let (m2, r2) = m1.step_start(tp2);
            &&& r1 == Ok::<int, StopwatchError>(tp1)
            &&& r2 == Err::<int, StopwatchError>(StopwatchError::AlreadyRunning)
            &&& m2.running == m1.running
            &&& m2.elapsed == m1.elapsed
            &&& m2.laps == m1.laps
            &&& m2.wf()
        }),
{
}

/// While the stopwatch is idle — in particular when freshly constructed —
/// both `stop` and `lap` are rejected with the not-running error and change
/// nothing but the bookkeeping timepoint.
pub proof fn lemma_stop_lap_idle_rejected(m: StopwatchModel, tp: int)
    requires
        !m.is_running(),
    ensures
        m.step_stop(tp).1 == Err::<int, StopwatchError>(StopwatchError::NotRunning),
        m.step_lap(tp).1 == Err::<int, StopwatchError>(StopwatchError::NotRunning),
        m.step_stop(tp).0.running == m.running,
        m.step_stop(tp).0.elapsed == m.elapsed,
        m.step_stop(tp).0.laps == m.laps,
        m.step_lap(tp).0.running == m.running,
        m.step_lap(tp).0.elapsed == m.elapsed,
        m.step_lap(tp).0.laps == m.laps,
{
}

/// A round trip: from an idle stopwatch, `start` at `tp1` then `stop` at
/// `tp2` leaves it idle again, adds exactly `tp2 - tp1` to the accumulated
/// total, records exactly one more lap of that length, and `stop` returns
/// the new total.
pub proof fn lemma_round_trip(m: StopwatchModel, tp1: int, tp2: int)
    requires
        m.wf(),
        !m.is_running(),
        m.last_observed <= tp1 <= tp2,
    ensures
        ({
            let (m1, r1) = m.step_start(tp1);
            let (m2, r2) = m1.step_stop(tp2);
            &&& !m2.is_running()
            &&& m2.elapsed == m.elapsed + (tp2 - tp1)
            &&& m2.laps == m.laps.push(tp2 - tp1)
            &&& m2.laps.len() == m.laps.len() + 1
            &&& r2 == Ok::<int, StopwatchError>(m.elapsed + (tp2 - tp1))
            &&& m2.wf()
        }),
{
    let (m1, r1) = m.step_start(tp1);
    m.lemma_step_start_wf(tp1);
    m1.lemma_step_stop_wf(tp2);
}

/// Only running intervals accumulate: `start`/`stop` twice over the
/// timepoints `t1 <= t2 <= t3 <= t4` adds `(t2 - t1) + (t4 - t3)` to the
/// total, and the idle gap from `t2` to `t3` contributes nothing.
pub proof fn lemma_two_intervals_accumulate(
    m: StopwatchModel,
    t1: int,
    t2: int,
    t3: int,
    t4: int,
)
    requires
        m.wf(),
        !m.is_running(),
        m.last_observed <= t1 <= t2 <= t3 <= t4,
    ensures
        ({
            let (m1, r1) = m.step_start(t1);
            let (m2, r2) = m1.step_stop(t2);
            let (m3, r3) = m2.step_start(t3);
            let (m4, r4) = m3.step_stop(t4);
            &&& m4.elapsed == m.elapsed + (t2 - t1) + (t4 - t3)
            &&& r4 == Ok::<int, StopwatchError>(m.elapsed + (t2 - t1) + (t4 - t3))
            &&& m4.laps == m.laps.push(t2 - t1).push(t4 - t3)
            &&& !m4.is_running()
            &&& m4.wf()
        }),
{
    let (m1, r1) = m.step_start(t1);
    let (m2, r2) = m1.step_stop(t2);
    let (m3, r3) = m2.step_start(t3);
    m.lemma_step_start_wf(t1);
    m1.lemma_step_stop_wf(t2);
    m2.lemma_step_start_wf(t3);
    m3.lemma_step_stop_wf(t4);
}

/// The state after a run of consecutive `lap` calls, one per timepoint, in
/// order.
pub open spec fn run_laps(m: StopwatchModel, tps: Seq<int>) -> StopwatchModel
    decreases tps.len(),
{
    if tps.len() == 0 {
        m
    } else {
        run_laps(m.step_lap(tps[0]).0, tps.drop_first())
    }
}

/// The lap durations that a run of `lap` calls over the timepoints `tps`
/// records, for an interval running since `since`: the differences between
/// consecutive timepoints.
pub open spec fn lap_intervals(since: int, tps: Seq<int>) -> Seq<int>
    decreases tps.len(),
{
    if tps.len() == 0 {
        Seq::empty()
    } else {
        seq![tps[0] - since] + lap_intervals(tps[0], tps.drop_first())
    }
}

/// One recorded duration per timepoint.
pub proof fn lemma_lap_intervals_len(since: int, tps: Seq<int>)
    ensures
        lap_intervals(since, tps).len() == tps.len(),
    decreases tps.len(),
{
    if tps.len() > 0 {
        lemma_lap_intervals_len(tps[0], tps.drop_first());
    }
}

/// Each recorded duration is the difference between its timepoint and the
/// boundary before it: the start of the interval for the first lap, the
/// previous timepoint for every later one.
pub proof fn lemma_lap_intervals_index(since: int, tps: Seq<int>, i: int)
    requires
        0 <= i < tps.len(),
    ensures
        lap_intervals(since, tps)[i] == tps[i] - (if i == 0 {
            since
        } else {
            tps[i - 1]
        }),
    decreases tps.len(),
{
    lemma_lap_intervals_len(tps[0], tps.drop_first());
    if i > 0 {
        lemma_lap_intervals_index(tps[0], tps.drop_first(), i - 1);
    }
}

/// Whether the timepoints in `tps` are in non-decreasing order and none is
/// earlier than `from`.
pub open spec fn monotone_from(from: int, tps: Seq<int>) -> bool {
    &&& forall|i: int| 0 <= i < tps.len() ==> from <= #[trigger] tps[i]
    &&& forall|i: int, j: int| 0 <= i <= j < tps.len() ==> tps[i] <= tps[j]
}

/// Lap accumulation: a running stopwatch on which `lap` is called once per
/// timepoint in `tps` records exactly one lap per call — the differences
/// between consecutive timepoints, appended in order — stays running from
/// the last timepoint, and accumulates exactly the time from the start of
/// its interval to the last timepoint.
pub proof fn lemma_lap_accumulation(m: StopwatchModel, tps: Seq<int>)
    requires
        m.wf(),
        m.is_running(),
        monotone_from(m.last_observed, tps),
    ensures
        ({
            let done = run_laps(m, tps);
            &&& done.laps == m.laps + lap_intervals(m.running.unwrap(), tps)
            &&& done.laps.len() == m.laps.len() + tps.len()
            &&& done.is_running()
            &&& tps.len() == 0 ==> done == m
            &&& tps.len() > 0 ==> done.running == Some(tps.last())
            &&& tps.len() > 0 ==> done.elapsed == m.elapsed + (tps.last() - m.running.unwrap())
            &&& done.wf()
        }),
    decreases tps.len(),
{
    let since: int = m.running.unwrap();
    if tps.len() == 0 {
        assert(m.laps + lap_intervals(since, tps) =~= m.laps);
    } else {
        let tp0: int = tps[0];
        let rest = tps.drop_first();
        let m1 = m.step_lap(tp0).0;
        m.lemma_step_lap_wf(tp0);
        assert(m1.running == Some(tp0));
        assert(m1.laps == m.laps.push(tp0 - since));
        assert(monotone_from(m1.last_observed, rest)) by {
            assert(forall|i: int| 0 <= i < rest.len() ==> rest[i] == tps[i + 1]);
        }
        lemma_lap_accumulation(m1, rest);
        let done = run_laps(m, tps);
        assert(done == run_laps(m1, rest));
        assert(done.laps == m1.laps + lap_intervals(tp0, rest));
        assert(m.laps.push(tp0 - since) =~= m.laps + seq![tp0 - since]);
        assert((m.laps + seq![tp0 - since]) + lap_intervals(tp0, rest) =~= m.laps + (
        seq![tp0 - since] + lap_intervals(tp0, rest)));
        assert(lap_intervals(since, tps) == seq![tp0 - since] + lap_intervals(tp0, rest));
        if rest.len() > 0 {
            assert(rest.last() == tps.last());
        }
    }
}

/// An out-of-range query: `get_lap` answers the index-out-of-range error for
/// every index at or beyond the number of recorded laps, in every state —
/// in particular for any index on a freshly constructed stopwatch.
pub proof fn lemma_lap_query_out_of_range(m: StopwatchModel, index: int)
    requires
        index >= m.laps.len(),
    ensures
        m.lap_query(index) == Err::<int, StopwatchError>(StopwatchError::IndexOutOfRange),
{
}

/// The return contracts of `lap` and `stop` differ and must not be
/// conflated: at the same timepoint, `lap` returns the length of just the
/// completed interval, while `stop` returns the accumulated total over all
/// completed intervals.  Both record the same lap.
pub proof fn lemma_lap_vs_stop_return(m: StopwatchModel, tp: int)
    requires
        m.wf(),
        m.is_running(),
        m.last_observed <= tp,
    ensures
        m.step_lap(tp).1 == Ok::<int, StopwatchError>(tp - m.running.unwrap()),
        m.step_stop(tp).1 == Ok::<int, StopwatchError>(
            m.elapsed + (tp - m.running.unwrap()),
        ),
        m.step_lap(tp).0.laps == m.step_stop(tp).0.laps,
        m.step_lap(tp).0.elapsed == m.step_stop(tp).0.elapsed,
{
}

/// The accumulated total is always exactly the sum of the recorded laps.
pub proof fn lemma_elapsed_is_lap_sum(m: StopwatchModel)
    requires
        m.wf(),
    ensures
        lap_sum(m.laps) == m.elapsed,
{
}

} // verus!
