//! What is noted in the journals, by what was given.

use crate::audit::step_with;
use crate::clock::{audit_event_with, ClockReadingView};
use crate::error::{DatabaseFault, StoreError};
use crate::moment_laws::{lemma_runs, runs};
use crate::records::LifecycleRecordView;
use crate::relation::any;
use crate::store::StoreView;
use crate::tables::{AuditRowView, LifecycleRowView};
use vstd::prelude::*;

verus! {

/// A step of an exchange is noted for the tenant as it was given, now, behind the
/// others, unless its identifier is taken. A step without metadata notes `null`.
pub proof fn a_step_is_noted_as_given(
    state: StoreView,
    c: ClockReadingView,
    record: LifecycleRecordView,
)
    requires
        runs(state, c),
    ensures
        ({
            let s = state.checkpoint_clock(c).0;
            state.append_lifecycle(c, record) == if exists|q: int|
                0 <= q < state.exchange_lifecycle.len()
                    && (#[trigger] state.exchange_lifecycle[q]).id == record.record_id {
                (s, Err::<(), StoreError>(StoreError::Database(DatabaseFault::DuplicateKey)))
            } else {
                (
                    StoreView {
                        exchange_lifecycle: state.exchange_lifecycle.push(
                            LifecycleRowView {
                                id: record.record_id,
                                tenant_id: state.tenant_id,
                                exchange_id: record.exchange_id,
                                event: record.event_type,
                                actor_id: record.actor_id,
                                metadata_json: if record.metadata is Some {
                                    record.metadata->0
                                } else {
                                    "null"@
                                },
                                created_at_ms: c.now_ms,
                            },
                        ),
                        ..s
                    },
                    Ok::<(), StoreError>(()),
                )
            }
        }),
{
    lemma_runs(state, c);
    assert({
        let taken = step_with(record.record_id);
        any(state.exchange_lifecycle, taken) == (exists|q: int|
            0 <= q < state.exchange_lifecycle.len()
                && (#[trigger] state.exchange_lifecycle[q]).id == record.record_id)
    }) by {
        let taken = step_with(record.record_id);
        if exists|q: int|
            0 <= q < state.exchange_lifecycle.len()
                && (#[trigger] state.exchange_lifecycle[q]).id == record.record_id {
            let q = choose|q: int|
                0 <= q < state.exchange_lifecycle.len()
                    && (#[trigger] state.exchange_lifecycle[q]).id == record.record_id;
            assert(taken(state.exchange_lifecycle[q]));
        }
        if any(state.exchange_lifecycle, taken) {
            let q = choose|q: int|
                0 <= q < state.exchange_lifecycle.len()
                    && taken(#[trigger] state.exchange_lifecycle[q]);
            assert(state.exchange_lifecycle[q].id == record.record_id);
        }
    };
}

/// An audit event is noted for the tenant as it was given, now, behind the others,
/// unless its identifier is taken.
pub proof fn an_event_is_noted_as_given(
    state: StoreView,
    c: ClockReadingView,
    id: Seq<char>,
    action: Seq<char>,
    actor_type: Seq<char>,
    actor_id: Option<Seq<char>>,
    target_type: Seq<char>,
    target_id: Option<Seq<char>>,
    metadata_json: Seq<char>,
)
    requires
        runs(state, c),
    ensures
        ({
            let s = state.checkpoint_clock(c).0;
            state.append_audit(
                c,
                id,
                action,
                actor_type,
                actor_id,
                target_type,
                target_id,
                metadata_json,
            ) == if exists|q: int|
                0 <= q < state.audit_events.len() && (#[trigger] state.audit_events[q]).id == id {
                (s, Err::<(), StoreError>(StoreError::Database(DatabaseFault::DuplicateKey)))
            } else {
                (
                    StoreView {
                        audit_events: state.audit_events.push(
                            AuditRowView {
                                id,
                                tenant_id: state.tenant_id,
                                actor_type,
                                actor_id,
                                action,
                                target_type,
                                target_id,
                                metadata_json,
                                created_at_ms: c.now_ms,
                            },
                        ),
                        ..s
                    },
                    Ok::<(), StoreError>(()),
                )
            }
        }),
{
    lemma_runs(state, c);
    assert({
        let taken = audit_event_with(id);
        any(state.audit_events, taken) == (exists|q: int|
            0 <= q < state.audit_events.len() && (#[trigger] state.audit_events[q]).id == id)
    }) by {
        let taken = audit_event_with(id);
        if exists|q: int|
            0 <= q < state.audit_events.len() && (#[trigger] state.audit_events[q]).id == id {
            let q = choose|q: int|
                0 <= q < state.audit_events.len() && (#[trigger] state.audit_events[q]).id == id;
            assert(taken(state.audit_events[q]));
        }
        if any(state.audit_events, taken) {
            let q = choose|q: int|
                0 <= q < state.audit_events.len() && taken(#[trigger] state.audit_events[q]);
            assert(state.audit_events[q].id == id);
        }
    };
}

} // verus!
