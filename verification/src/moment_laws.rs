//! When an operation runs: the clock that it trusts, and the moment that it reads.

use crate::clock::{ClockMonitorSample, ClockReadingView, PersistedClockAnchorView};
use crate::error::StoreError;
use crate::store::StoreView;
use vstd::prelude::*;

verus! {

/// Whether a reading can be trusted: the store is not fenced, the host runs since the
/// recorded boot, both clocks were compared before and did not run back, and the
/// database clock is behind the high-water mark by no more than the tolerance.
pub open spec fn trusted(state: StoreView, c: ClockReadingView) -> bool {
    &&& state.clock.fenced_at is None
    &&& c.sample is Some
    &&& c.sample->0.boot_id is Some
    &&& c.sample->0.boot_id == state.clock.boot_id
    &&& state.clock_monitor is Some
    &&& !c.check.database_regressed
    &&& !c.check.host_regressed
    &&& (c.checkpoint_ms + state.clock_tolerance_ms >= state.clock.last_observed_ms
        || state.clock.last_observed_ms == i64::MIN)
}

/// The high-water mark that a trusted reading leaves: it is moved back where the
/// database clock is behind it, and forward in steps of at least a second.
pub open spec fn mark(state: StoreView, c: ClockReadingView) -> i64 {
    if c.checkpoint_ms < state.clock.last_observed_ms || c.checkpoint_ms
        - state.clock.last_observed_ms >= 1_000 {
        c.checkpoint_ms
    } else {
        state.clock.last_observed_ms
    }
}

/// Whether an operation runs, and reads the wall clock of its reading as the moment.
pub open spec fn runs(state: StoreView, c: ClockReadingView) -> bool {
    trusted(state, c) && c.now_ms >= mark(state, c)
}

/// Whether an operation runs, and reads back what it wrote at a second reading.
pub open spec fn runs_twice(
    state: StoreView,
    c: ClockReadingView,
    follow_up: ClockReadingView,
) -> bool {
    runs(state, c) && runs(state.checkpoint_clock(c).0, follow_up)
}

/// A state that differs from another in the clock alone, with the clock of a third.
pub open spec fn timed(state: StoreView, after: StoreView) -> StoreView {
    StoreView { clock: after.clock, clock_monitor: after.clock_monitor, ..state }
}

/// The checkpoint passes exactly for a reading that can be trusted. It changes
/// nothing but the clock: the anchor where the mark moves, and what the clocks are
/// compared with next. The moment is the wall clock, where that is not before the mark.
pub proof fn the_checkpoint_passes_exactly_for_a_trusted_reading(
    state: StoreView,
    c: ClockReadingView,
)
    ensures
        state.checkpoint_clock(c).1 is Ok <==> trusted(state, c),
        trusted(state, c) ==> ({
            let after = state.checkpoint_clock(c).0;
            let sample = c.sample->0;
            &&& after == (StoreView {
                clock: after.clock,
                clock_monitor: Some(
                    ClockMonitorSample {
                        database_ms: c.checkpoint_ms,
                        host_wall_ms: sample.host_wall_ms,
                        measured_at_ms: c.monotonic_ms,
                    },
                ),
                ..state
            })
            &&& after.clock == if c.checkpoint_ms < state.clock.last_observed_ms
                || c.checkpoint_ms - state.clock.last_observed_ms >= 1_000 {
                PersistedClockAnchorView {
                    last_observed_ms: c.checkpoint_ms,
                    boot_id: sample.boot_id,
                    boottime_ms: Some(sample.boottime_ms),
                    host_wall_ms: Some(sample.host_wall_ms),
                    fenced_at: None,
                }
            } else {
                state.clock
            }
            &&& after.now(c.now_ms) == if c.now_ms >= mark(state, c) {
                Some(c.now_ms)
            } else {
                None
            }
        }),
{
}

/// An operation that runs passes the checkpoint, and reads its moment.
pub(crate) proof fn lemma_runs(state: StoreView, c: ClockReadingView)
    requires
        runs(state, c),
    ensures
        state.checkpoint_clock(c).1 is Ok,
        state.checkpoint_clock(c).0 == timed(state, state.checkpoint_clock(c).0),
        state.checkpoint_clock(c).0.now(c.now_ms) == Some(c.now_ms),
{
}

/// A reading that cannot be trusted fences the store, or finds it fenced, and is
/// answered with an error. Where the host was restarted and the audit identifier of
/// the reading is taken, or where the clocks were never compared, there is the error
/// alone. A clock that ran back is reported as such, everything else as the fence.
pub proof fn a_reading_that_cannot_be_trusted_is_refused(state: StoreView, c: ClockReadingView)
    requires
        !trusted(state, c),
    ensures
        ({
            let (after, gate) = state.checkpoint_clock(c);
            let restarted = c.sample is Some && (c.sample->0.boot_id is None
                || c.sample->0.boot_id != state.clock.boot_id);
            let taken = exists|i: int|
                0 <= i < state.audit_events.len() && (#[trigger] state.audit_events[i]).id
                    == c.audit_id;
            &&& gate is Err
            &&& state.clock.fenced_at is Some ==> after == state && gate->Err_0
                == StoreError::ClockFenced
            &&& state.clock.fenced_at is None && !(restarted && taken) && (c.sample is None
                || restarted || state.clock_monitor is Some) ==> after.clock.fenced_at == Some(
                c.checkpoint_ms,
            )
            &&& state.clock.fenced_at is None && c.sample is Some && !restarted
                && state.clock_monitor is Some ==> gate->Err_0 == StoreError::ClockRegression
            &&& c.sample is None || (restarted && !taken) || state.clock_monitor is None
                && !restarted ==> gate->Err_0 == StoreError::ClockFenced
        }),
{
}

} // verus!
