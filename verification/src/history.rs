//! Sequences of gateway calls, and what holds of the record along them.
//!
//! The gateway serves one call at a time, so whatever its callers do amounts
//! to some sequence of calls, each with the clock reading it was made at.

use crate::gateway::{after_call, Call};
use crate::heating::HeatingState;
use vstd::prelude::*;

verus! {

/// The record after a sequence of calls, first call first.
pub open spec fn replay(start: HeatingState, calls: Seq<Call>) -> HeatingState
    decreases calls.len(),
{
    if calls.len() == 0 {
        start
    } else {
        after_call(replay(start, calls.drop_last()), calls.last())
    }
}

/// The clock never ran backwards: no call was made before the record's first
/// stamp, and none before an earlier call.
pub open spec fn clock_runs_forward(start: HeatingState, calls: Seq<Call>) -> bool {
    &&& forall|i: int|
        0 <= i < calls.len() ==> start.current_temp_reported_at.nanos <= (#[trigger] calls[i]).at.nanos
    &&& forall|i: int, j: int|
        0 <= i <= j < calls.len() ==> (#[trigger] calls[i]).at.nanos <= (#[trigger] calls[j]).at.nanos
}

/// Both temperatures stay finite along any sequence of calls that starts
/// from a record in which they are.
pub proof fn lemma_temperatures_stay_finite(start: HeatingState, calls: Seq<Call>)
    requires
        start.target_temp.is_finite(),
        start.current_temp.is_finite(),
    ensures
        replay(start, calls).target_temp.is_finite(),
        replay(start, calls).current_temp.is_finite(),
    decreases calls.len(),
{
    if calls.len() > 0 {
        lemma_temperatures_stay_finite(start, calls.drop_last());
    }
}

/// Under a clock that never runs backwards, the time of the report is never
/// ahead of the last call, nor behind the record's first stamp.
proof fn lemma_report_time_bounds(start: HeatingState, calls: Seq<Call>)
    requires
        clock_runs_forward(start, calls),
    ensures
        start.current_temp_reported_at.nanos <= replay(
            start,
            calls,
        ).current_temp_reported_at.nanos,
        calls.len() > 0 ==> replay(start, calls).current_temp_reported_at.nanos
            <= calls.last().at.nanos,
    decreases calls.len(),
{
    if calls.len() > 0 {
        let earlier = calls.drop_last();
        assert forall|i: int| 0 <= i < earlier.len() implies earlier[i] == calls[i] by {}
        assert(clock_runs_forward(start, earlier));
        lemma_report_time_bounds(start, earlier);
        if earlier.len() > 0 {
            assert(earlier.last() == calls[calls.len() - 2]);
        }
    }
}

/// Under a clock that never runs backwards, the time of the report never
/// decreases: after the first `later` calls it is no earlier than it was
/// after the first `sooner` of them.
pub proof fn lemma_report_time_never_decreases(
    start: HeatingState,
    calls: Seq<Call>,
    sooner: int,
    later: int,
)
    requires
        clock_runs_forward(start, calls),
        0 <= sooner <= later <= calls.len(),
    ensures
        replay(start, calls.take(sooner)).current_temp_reported_at.nanos <= replay(
            start,
            calls.take(later),
        ).current_temp_reported_at.nanos,
    decreases later - sooner,
{
    if sooner < later {
        let prefix = calls.take(later);
        let shorter = calls.take(later - 1);
        assert(prefix.drop_last() =~= shorter);
        assert(prefix.last() == calls[later - 1]);
        lemma_report_time_never_decreases(start, calls, sooner, later - 1);
        assert forall|i: int| 0 <= i < shorter.len() implies shorter[i] == calls[i] by {}
        assert(clock_runs_forward(start, shorter));
        lemma_report_time_bounds(start, shorter);
        if shorter.len() > 0 {
            assert(shorter.last() == calls[later - 2]);
        }
    }
}

} // verus!
