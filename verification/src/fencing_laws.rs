//! What the clock's fence, its monitor and its reconciliation do, by what the readings
//! say.

use crate::clock::{
    audit_event_with, open_session, pending_approval, summary_json, unsettled_approval,
    ClockMonitorSample, ClockReadingView, ClockSampleView, PersistedClockAnchorView,
    StartupClockCheck,
};
use crate::error::{DatabaseFault, StoreError};
use crate::json::{json_object, JsonScalarView};
use crate::moment_laws::{lemma_runs, runs, trusted};
use crate::records::ClockReconciliation;
use crate::relation::any;
use crate::store::StoreView;
use crate::tables::{ApprovalRowView, AuditRowView, SessionRowView};
use vstd::prelude::*;

verus! {

/// A state whose fence was set at a moment.
pub open spec fn fence_set(state: StoreView, at_ms: i64) -> StoreView {
    StoreView {
        clock: PersistedClockAnchorView { fenced_at: Some(at_ms), ..state.clock },
        ..state
    }
}

/// The clock row that a reading leaves.
pub open spec fn clock_read(sample: ClockSampleView, at_ms: i64, fenced_at: Option<i64>) -> PersistedClockAnchorView {
    PersistedClockAnchorView {
        last_observed_ms: at_ms,
        boot_id: sample.boot_id,
        boottime_ms: Some(sample.boottime_ms),
        host_wall_ms: Some(sample.host_wall_ms),
        fenced_at,
    }
}

/// An event that the controller records of itself.
pub open spec fn own_event(
    id: Seq<char>,
    tenant: Seq<char>,
    action: Seq<char>,
    metadata_json: Seq<char>,
    at_ms: i64,
) -> AuditRowView {
    AuditRowView {
        id,
        tenant_id: tenant,
        actor_type: "system"@,
        actor_id: None,
        action,
        target_type: "controller"@,
        target_id: None,
        metadata_json,
        created_at_ms: at_ms,
    }
}

/// The counts of what a restart deletes.
pub open spec fn deleted_by_restart(state: StoreView) -> Seq<(Seq<char>, JsonScalarView)> {
    seq![
        ("removed_secret_requests"@, JsonScalarView::Count(state.secret_requests.len() as u64)),
        ("removed_exchanges"@, JsonScalarView::Count(state.exchanges.len() as u64)),
        (
            "removed_pending_approvals"@,
            JsonScalarView::Count(
                state.approvals.filter(
                    |row: ApprovalRowView| row.status == "pending"@,
                ).len() as u64,
            ),
        ),
        ("removed_bootstrap_tokens"@, JsonScalarView::Count(state.bootstrap_tokens.len() as u64)),
        ("removed_rate_windows"@, JsonScalarView::Count(state.rate_windows.len() as u64)),
        ("removed_idempotency_keys"@, JsonScalarView::Count(state.idempotency_keys.len() as u64)),
    ]
}

/// A state after a restart was seen: fenced at the moment, at a clock row of the
/// reading, without what has a deadline and without pending approvals, and with the
/// event that tells how much went.
pub open spec fn restart_seen(
    state: StoreView,
    sample: ClockSampleView,
    at_ms: i64,
    audit_id: Seq<char>,
) -> StoreView {
    StoreView {
        clock: clock_read(sample, at_ms, Some(at_ms)),
        secret_requests: Seq::empty(),
        exchanges: Seq::empty(),
        approvals: state.approvals.filter(|row: ApprovalRowView| row.status != "pending"@),
        bootstrap_tokens: Seq::empty(),
        rate_windows: Seq::empty(),
        idempotency_keys: Seq::empty(),
        audit_events: state.audit_events.push(
            own_event(
                audit_id,
                state.tenant_id,
                "clock_restart_fence"@,
                json_object(deleted_by_restart(state)),
                at_ms,
            ),
        ),
        ..state
    }
}

/// A restart that was not fenced yet fences the store and deletes what it must, unless
/// the identifier of its event is taken. A fenced store stays as it is.
pub proof fn a_restart_fences_the_store(
    state: StoreView,
    sample: ClockSampleView,
    at_ms: i64,
    audit_id: Seq<char>,
)
    ensures
        state.fence_after_restart(sample, at_ms, audit_id) == if state.clock.fenced_at is Some {
            Ok::<StoreView, StoreError>(state)
        } else if exists|q: int|
            0 <= q < state.audit_events.len() && (#[trigger] state.audit_events[q]).id == audit_id {
            Err(StoreError::Database(DatabaseFault::DuplicateKey))
        } else {
            Ok(restart_seen(state, sample, at_ms, audit_id))
        },
{
    assert({
        let taken = audit_event_with(audit_id);
        any(state.audit_events, taken) == (exists|q: int|
            0 <= q < state.audit_events.len() && (#[trigger] state.audit_events[q]).id == audit_id)
    }) by {
        let taken = audit_event_with(audit_id);
        if exists|q: int|
            0 <= q < state.audit_events.len() && (#[trigger] state.audit_events[q]).id == audit_id {
            let q = choose|q: int|
                0 <= q < state.audit_events.len()
                    && (#[trigger] state.audit_events[q]).id == audit_id;
            assert(taken(state.audit_events[q]));
        }
        if any(state.audit_events, taken) {
            let q = choose|q: int|
                0 <= q < state.audit_events.len() && taken(#[trigger] state.audit_events[q]);
            assert(state.audit_events[q].id == audit_id);
        }
    };
    let pending = pending_approval();
    assert(pending =~= (|row: ApprovalRowView| row.status == "pending"@));
    assert((|row: ApprovalRowView| !pending(row)) =~= (|row: ApprovalRowView|
        row.status != "pending"@));
    assert(state.fence_counts() =~= deleted_by_restart(state));
}

/// A reading that cannot be trusted leaves exactly this: what a restart leaves where the
/// host was restarted, the fence alone where there is no reading of the host or a clock
/// ran back, and nothing where the clocks were never compared.
pub proof fn a_checkpoint_that_fails_leaves_the_fence(state: StoreView, c: ClockReadingView)
    requires
        !trusted(state, c),
        state.clock.fenced_at is None,
        forall|q: int|
            0 <= q < state.audit_events.len()
                ==> (#[trigger] state.audit_events[q]).id != c.audit_id,
    ensures
        ({
            let after = state.checkpoint_clock(c).0;
            match c.sample {
                None => after == fence_set(state, c.checkpoint_ms),
                Some(sample) => if sample.boot_id is None || sample.boot_id != state.clock.boot_id {
                    after == restart_seen(state, sample, c.checkpoint_ms, c.audit_id)
                } else if state.clock_monitor is None {
                    after == state
                } else {
                    after == fence_set(state, c.checkpoint_ms)
                },
            }
        }),
{
    if c.sample is Some {
        a_restart_fences_the_store(state, c.sample->0, c.checkpoint_ms, c.audit_id);
    }
}

/// The monitor moves the high-water mark to each reading of a store that is not fenced,
/// while the host runs since the recorded boot, the clocks were compared before and
/// neither ran back. Everything else it answers with the fence, which it sets where
/// there is no reading of the host, a restart or a clock that ran back.
pub proof fn the_monitor_follows_the_clock_or_fences_it(state: StoreView, c: ClockReadingView)
    requires
        forall|q: int|
            0 <= q < state.audit_events.len()
                ==> (#[trigger] state.audit_events[q]).id != c.audit_id,
    ensures
        ({
            let (after, reply) = state.monitor_clock(c);
            let refused = Err::<(), StoreError>(StoreError::ClockFenced);
            if state.clock.fenced_at is Some {
                after == state && reply == refused
            } else {
                match c.sample {
                    None => after == fence_set(state, c.checkpoint_ms) && reply == refused,
                    Some(sample) => if sample.boot_id is None || sample.boot_id
                        != state.clock.boot_id {
                        after == restart_seen(state, sample, c.checkpoint_ms, c.audit_id) && reply
                            == refused
                    } else if state.clock_monitor is None {
                        after == state && reply == refused
                    } else if c.check.database_regressed || c.check.host_regressed {
                        after == fence_set(state, c.checkpoint_ms) && reply == refused
                    } else {
                        &&& after == (StoreView {
                            clock: clock_read(sample, c.checkpoint_ms, None),
                            clock_monitor: Some(
                                ClockMonitorSample {
                                    database_ms: c.checkpoint_ms,
                                    host_wall_ms: sample.host_wall_ms,
                                    measured_at_ms: c.monotonic_ms,
                                },
                            ),
                            ..state
                        })
                        &&& reply == Ok::<(), StoreError>(())
                    },
                }
            }
        }),
{
    if c.sample is Some {
        a_restart_fences_the_store(state, c.sample->0, c.checkpoint_ms, c.audit_id);
    }
}

/// A store that is opened compares its clocks from now on. Within the recorded boot its
/// clock row is that of the reading; after a restart it is fenced as a restart does. A
/// clock that ran back fences it and is reported. A fenced store stays fenced.
pub proof fn an_opened_store_starts_its_clock_or_fences_it(
    state: StoreView,
    sample: ClockSampleView,
    check: StartupClockCheck,
    database_ms: i64,
    monotonic_ms: u64,
    audit_id: Seq<char>,
)
    requires
        forall|q: int|
            0 <= q < state.audit_events.len() ==> (#[trigger] state.audit_events[q]).id != audit_id,
    ensures
        ({
            let (after, reply) = state.initialize_clock(
                sample,
                check,
                database_ms,
                monotonic_ms,
                audit_id,
            );
            let compared = Some(
                ClockMonitorSample {
                    database_ms,
                    host_wall_ms: sample.host_wall_ms,
                    measured_at_ms: monotonic_ms,
                },
            );
            if state.clock.fenced_at is Some {
                after == (StoreView { clock_monitor: compared, ..state }) && reply is Ok
            } else if check is SameBoot {
                after == (StoreView {
                    clock: clock_read(sample, database_ms, None),
                    clock_monitor: compared,
                    ..state
                }) && reply is Ok
            } else if check is BootChangedOrUnknown {
                after == (StoreView {
                    clock_monitor: compared,
                    ..restart_seen(state, sample, database_ms, audit_id)
                }) && reply is Ok
            } else {
                after == fence_set(state, database_ms) && reply == Err::<(), StoreError>(
                    StoreError::ClockRegression,
                )
            }
        }),
{
    a_restart_fences_the_store(state, sample, database_ms, audit_id);
}

/// A reconciliation needs a reading of the host. It lifts a fence, or follows a database
/// clock that ran back: it deletes what has a deadline and the approvals that are
/// pending or approved, revokes every open session, moves the clock row to the reading
/// and records how much went. Where there is neither it changes nothing and tells so.
pub proof fn a_reconciliation_clears_what_the_clock_put_in_doubt(
    state: StoreView,
    sample: Option<ClockSampleView>,
    database_ms: i64,
    audit_id: Seq<char>,
)
    ensures
        ({
            let (after, reply) = state.recover_clock(sample, database_ms, audit_id);
            let found = state.clock.fenced_at is Some || database_ms < state.clock.last_observed_ms;
            let summary = ClockReconciliation {
                regression_detected: found,
                persisted_ms: state.clock.last_observed_ms,
                database_now_ms: database_ms,
                removed_secret_requests: if found {
                    state.secret_requests.len() as u64
                } else {
                    0
                },
                removed_exchanges: if found {
                    state.exchanges.len() as u64
                } else {
                    0
                },
                removed_approvals: if found {
                    state.approvals.filter(
                        |row: ApprovalRowView|
                            row.status == "pending"@ || row.status == "approved"@,
                    ).len() as u64
                } else {
                    0
                },
                removed_bootstrap_tokens: if found {
                    state.bootstrap_tokens.len() as u64
                } else {
                    0
                },
                removed_rate_windows: if found {
                    state.rate_windows.len() as u64
                } else {
                    0
                },
                removed_idempotency_keys: if found {
                    state.idempotency_keys.len() as u64
                } else {
                    0
                },
                revoked_sessions: if found {
                    state.operator_sessions.filter(
                        |row: SessionRowView| row.revoked_at_ms is None,
                    ).len() as u64
                } else {
                    0
                },
            };
            if sample is None || sample->0.boot_id is None {
                after == state && reply == Err::<ClockReconciliation, StoreError>(
                    StoreError::ClockSourceUnavailable,
                )
            } else if !found {
                after == state && reply == Ok::<ClockReconciliation, StoreError>(summary)
            } else if exists|q: int|
                0 <= q < state.audit_events.len()
                    && (#[trigger] state.audit_events[q]).id == audit_id {
                after == state && reply == Err::<ClockReconciliation, StoreError>(
                    StoreError::Database(DatabaseFault::DuplicateKey),
                )
            } else {
                &&& reply == Ok::<ClockReconciliation, StoreError>(summary)
                &&& after == (StoreView {
                    clock: clock_read(sample->0, database_ms, None),
                    secret_requests: Seq::empty(),
                    exchanges: Seq::empty(),
                    approvals: state.approvals.filter(
                        |row: ApprovalRowView|
                            row.status != "pending"@ && row.status != "approved"@,
                    ),
                    bootstrap_tokens: Seq::empty(),
                    rate_windows: Seq::empty(),
                    idempotency_keys: Seq::empty(),
                    operator_sessions: after.operator_sessions,
                    audit_events: state.audit_events.push(
                        own_event(
                            audit_id,
                            state.meta.tenant_id,
                            "clock_reconciled"@,
                            summary_json(summary),
                            database_ms,
                        ),
                    ),
                    ..state
                })
                &&& after.operator_sessions.len() == state.operator_sessions.len()
                &&& forall|q: int|
                    0 <= q < state.operator_sessions.len() ==> #[trigger] after.operator_sessions[q]
                        == if state.operator_sessions[q].revoked_at_ms is None {
                        SessionRowView {
                            revoked_at_ms: Some(database_ms),
                            ..state.operator_sessions[q]
                        }
                    } else {
                        state.operator_sessions[q]
                    }
            }
        }),
{
    assert({
        let taken = audit_event_with(audit_id);
        any(state.audit_events, taken) == (exists|q: int|
            0 <= q < state.audit_events.len() && (#[trigger] state.audit_events[q]).id == audit_id)
    }) by {
        let taken = audit_event_with(audit_id);
        if exists|q: int|
            0 <= q < state.audit_events.len() && (#[trigger] state.audit_events[q]).id == audit_id {
            let q = choose|q: int|
                0 <= q < state.audit_events.len()
                    && (#[trigger] state.audit_events[q]).id == audit_id;
            assert(taken(state.audit_events[q]));
        }
        if any(state.audit_events, taken) {
            let q = choose|q: int|
                0 <= q < state.audit_events.len() && taken(#[trigger] state.audit_events[q]);
            assert(state.audit_events[q].id == audit_id);
        }
    };
    let stale = unsettled_approval();
    assert(stale =~= (|row: ApprovalRowView|
        row.status == "pending"@ || row.status == "approved"@));
    assert((|row: ApprovalRowView| !stale(row)) =~= (|row: ApprovalRowView|
        row.status != "pending"@ && row.status != "approved"@));
    assert(open_session() =~= (|row: SessionRowView| row.revoked_at_ms is None));
}

/// While the clock is trusted, the moment that is read is told, the store is ready where
/// its probe answers one, and its epoch is told where it is not negative.
pub proof fn a_trusted_clock_is_told(state: StoreView, c: ClockReadingView, probe: Option<i32>)
    requires
        runs(state, c),
    ensures
        ({
            let s = state.checkpoint_clock(c).0;
            &&& state.database_now_ms(c) == (s, Ok::<i64, StoreError>(c.now_ms))
            &&& state.is_ready(c, probe) == (s, probe == Some(1i32))
            &&& state.issuer_epoch(c) == (
                s,
                if state.meta.issuer_epoch >= 0 {
                    Ok::<u64, StoreError>(state.meta.issuer_epoch as u64)
                } else {
                    Err(StoreError::MissingState("issuer epoch"))
                },
            )
        }),
{
    lemma_runs(state, c);
}

/// A store whose clock cannot be trusted is not ready.
pub proof fn an_untrusted_store_is_not_ready(
    state: StoreView,
    c: ClockReadingView,
    probe: Option<i32>,
)
    requires
        !trusted(state, c),
    ensures
        !state.is_ready(c, probe).1,
{
}

} // verus!
