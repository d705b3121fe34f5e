//! What the request of an operation does, by what is stored.

use crate::authorization::{
    approval_extended, bound_workload, joinable_approval, newest_approval, operation_approval_of,
    operation_approval_taken, operation_for_event, operation_taken, operation_under, pending_at,
};
use crate::clock::ClockReadingView;
use crate::decision_laws::{lemma_policy_in_force, policy_in_force};
use crate::error::StoreError;
use crate::json::{json_list, json_strings};
use crate::keys::{fleet_policy_tenant, node_id, operation_approval_id};
use crate::listing_laws::{comes_from, earlier, lemma_page_shows, shows_rows};
use crate::moment_laws::{runs, the_checkpoint_passes_exactly_for_a_trusted_reading};
use crate::paging_laws::lemma_place_order;
use crate::records::{
    OperationApprovalDraftView, OperationApprovalRecordView, OperationCreateOutcomeView,
    OperationRecordView,
};
use crate::relation::{any, lemma_first_hit};
use crate::relation_laws::{lemma_none, lemma_sole, unique};
use crate::store::StoreView;
use crate::tables::{OperationApprovalRowView, OperationRowView};
use crate::workload_laws::{lemma_node_is_active, node_is_active};
use vstd::prelude::*;

verus! {

/// Whether an operation of the tenant was requested under a requester's key.
pub open spec fn under_key(row: OperationRowView, tenant: Seq<char>, record: OperationRecordView) -> bool {
    row.tenant_id == tenant && row.record.requested_by == record.requested_by
        && row.record.idempotency_key == record.idempotency_key
}

/// Whether the tenant has an active workload that an operation is bound to: on its
/// node, with the unit and the account that are expected, in its mode, and with a
/// ceiling that allows its lifetime.
pub open spec fn is_bound(
    state: StoreView,
    record: OperationRecordView,
    unit: Seq<char>,
    account: Seq<char>,
    ttl_seconds: i64,
) -> bool {
    exists|w: int|
        0 <= w < state.workloads.len() && (#[trigger] state.workloads[w]).record.id
            == record.workload_id && state.workloads[w].tenant_id == state.tenant_id
            && state.workloads[w].record.node_id == record.node_id
            && state.workloads[w].record.unit == unit && state.workloads[w].record.account
            == account && state.workloads[w].record.consumption_mode == record.mode
            && state.workloads[w].record.local_ceiling_seconds >= ttl_seconds
            && state.workloads[w].record.status == "active"@
}

/// Whether the broker event that asks for an operation asked for another one before.
pub open spec fn event_spent(state: StoreView, record: OperationRecordView) -> bool {
    record.broker_event_key is Some && exists|o: int|
        0 <= o < state.operations.len() && (#[trigger] state.operations[o]).tenant_id
            == state.tenant_id && state.operations[o].record.node_id == record.node_id
            && state.operations[o].record.broker_event_key == record.broker_event_key
}

/// Whether an operation that was not requested before may be created now.
pub open spec fn may_be_created(
    state: StoreView,
    record: OperationRecordView,
    unit: Seq<char>,
    account: Seq<char>,
    ttl_seconds: i64,
    now_ms: i64,
) -> bool {
    &&& policy_in_force(state, record.policy_version)
    &&& record.expires_at_ms > now_ms
    &&& is_bound(state, record, unit, account, ttl_seconds)
    &&& node_is_active(state, record.node_id)
}

/// The operation as it is stored when it was requested.
pub open spec fn requested(
    record: OperationRecordView,
    approval_id: Option<Seq<char>>,
    now_ms: i64,
) -> OperationRecordView {
    OperationRecordView {
        approval_id,
        created_at_ms: now_ms,
        completed_at_ms: None,
        version: 1,
        ..record
    }
}

/// A request under a key that was used before creates nothing: the operation that was
/// created is shown where the request is the same, and else it is a conflict.
pub proof fn a_request_is_taken_once_per_key(
    state: StoreView,
    c: ClockReadingView,
    record: OperationRecordView,
    unit: Seq<char>,
    account: Seq<char>,
    ttl_seconds: i64,
    approval: Option<OperationApprovalDraftView>,
    o: int,
)
    requires
        runs(state, c),
        0 <= o < state.operations.len(),
        under_key(state.operations[o], state.tenant_id, record),
        forall|p: int|
            0 <= p < o ==> !under_key(#[trigger] state.operations[p], state.tenant_id, record),
    ensures
        state.create_operation(c, record, unit, account, ttl_seconds, approval) == (
            state.checkpoint_clock(c).0,
            Ok::<OperationCreateOutcomeView, StoreError>(
                if state.operations[o].record.request_hash == record.request_hash {
                    OperationCreateOutcomeView::Existing(state.operations[o].record)
                } else {
                    OperationCreateOutcomeView::Conflict
                },
            ),
        ),
{
    the_checkpoint_passes_exactly_for_a_trusted_reading(state, c);
    let hit = operation_under(state.tenant_id, record.requested_by, record.idempotency_key);
    assert forall|p: int| 0 <= p < o implies !hit(#[trigger] state.operations[p]) by {
        assert(!under_key(state.operations[p], state.tenant_id, record));
    }
    lemma_first_hit(state.operations, hit, o);
}

proof fn lemma_before_admission(
    state: StoreView,
    c: ClockReadingView,
    record: OperationRecordView,
    unit: Seq<char>,
    account: Seq<char>,
    ttl_seconds: i64,
    approval: Option<OperationApprovalDraftView>,
)
    requires
        unique(state.nodes, node_id()),
        unique(state.fleet_policies, fleet_policy_tenant()),
        runs(state, c),
        forall|o: int|
            0 <= o < state.operations.len() ==> !under_key(
                #[trigger] state.operations[o],
                state.tenant_id,
                record,
            ),
    ensures
        ({
            let reply = state.create_operation(c, record, unit, account, ttl_seconds, approval);
            let s = state.checkpoint_clock(c).0;
            if event_spent(state, record) {
                reply == (
                    s,
                    Ok::<OperationCreateOutcomeView, StoreError>(
                        OperationCreateOutcomeView::Conflict,
                    ),
                )
            } else if !may_be_created(state, record, unit, account, ttl_seconds, c.now_ms) {
                reply == (
                    s,
                    Ok::<OperationCreateOutcomeView, StoreError>(
                        OperationCreateOutcomeView::Stale,
                    ),
                )
            } else {
                match s.admit_operation(record, approval, c.now_ms) {
                    Err(error) => reply == (
                        s,
                        Err::<OperationCreateOutcomeView, StoreError>(error),
                    ),
                    Ok((after, created)) => reply == (
                        after,
                        Ok::<OperationCreateOutcomeView, StoreError>(
                            OperationCreateOutcomeView::Created(created),
                        ),
                    ),
                }
            }
        }),
{
    the_checkpoint_passes_exactly_for_a_trusted_reading(state, c);
    let s = state.checkpoint_clock(c).0;
    let t = state.tenant_id;
    let hit = operation_under(t, record.requested_by, record.idempotency_key);
    assert forall|o: int| 0 <= o < state.operations.len() implies !hit(
        #[trigger] state.operations[o],
    ) by {
        assert(!under_key(state.operations[o], t, record));
    }
    lemma_none(state.operations, hit);
    if record.broker_event_key is Some {
        let event = operation_for_event(t, record.node_id, record.broker_event_key->0);
        if event_spent(state, record) {
            let o = choose|o: int|
                0 <= o < state.operations.len() && (#[trigger] state.operations[o]).tenant_id
                    == state.tenant_id && state.operations[o].record.node_id == record.node_id
                    && state.operations[o].record.broker_event_key == record.broker_event_key;
            assert(event(state.operations[o]));
        }
        if any(state.operations, event) {
            let o = choose|o: int|
                0 <= o < state.operations.len() && event(#[trigger] state.operations[o]);
            assert(state.operations[o].record.broker_event_key == record.broker_event_key);
        }
    }
    lemma_policy_in_force(s, record.policy_version);
    assert(policy_in_force(s, record.policy_version) == policy_in_force(
        state,
        record.policy_version,
    ));
    lemma_node_is_active(s, record.node_id);
    assert(node_is_active(s, record.node_id) == node_is_active(state, record.node_id));
    let bound = bound_workload(record, t, unit, account, ttl_seconds);
    if is_bound(state, record, unit, account, ttl_seconds) {
        let w = choose|w: int|
            0 <= w < state.workloads.len() && (#[trigger] state.workloads[w]).record.id
                == record.workload_id && state.workloads[w].tenant_id == state.tenant_id
                && state.workloads[w].record.node_id == record.node_id
                && state.workloads[w].record.unit == unit && state.workloads[w].record.account
                == account && state.workloads[w].record.consumption_mode == record.mode
                && state.workloads[w].record.local_ceiling_seconds >= ttl_seconds
                && state.workloads[w].record.status == "active"@;
        assert(bound(state.workloads[w]));
    }
    if any(state.workloads, bound) {
        let w = choose|w: int|
            0 <= w < state.workloads.len() && bound(#[trigger] state.workloads[w]);
        assert(state.workloads[w].record.id == record.workload_id);
    }
}

/// A new request is a conflict where its broker event was spent, and stale where it
/// may not be created now; nothing changes then. One that asks for no approval is else
/// created as it was asked for, without one, unless its identifier is taken.
pub proof fn a_request_without_approval_is_created_as_asked(
    state: StoreView,
    c: ClockReadingView,
    record: OperationRecordView,
    unit: Seq<char>,
    account: Seq<char>,
    ttl_seconds: i64,
    approval: Option<OperationApprovalDraftView>,
)
    requires
        unique(state.nodes, node_id()),
        unique(state.fleet_policies, fleet_policy_tenant()),
        runs(state, c),
        forall|o: int|
            0 <= o < state.operations.len() ==> !under_key(
                #[trigger] state.operations[o],
                state.tenant_id,
                record,
            ),
    ensures
        ({
            let (after, reply) = state.create_operation(
                c,
                record,
                unit,
                account,
                ttl_seconds,
                approval,
            );
            let s = state.checkpoint_clock(c).0;
            let taken = exists|o: int|
                0 <= o < state.operations.len() && (#[trigger] state.operations[o]).record.id
                    == record.id;
            let created = requested(record, None, c.now_ms);
            if event_spent(state, record) {
                after == s && reply == Ok::<OperationCreateOutcomeView, StoreError>(
                    OperationCreateOutcomeView::Conflict,
                )
            } else if !may_be_created(state, record, unit, account, ttl_seconds, c.now_ms) {
                after == s && reply == Ok::<OperationCreateOutcomeView, StoreError>(
                    OperationCreateOutcomeView::Stale,
                )
            } else if taken {
                after == s && reply is Err
            } else {
                approval is None ==> reply == Ok::<OperationCreateOutcomeView, StoreError>(
                    OperationCreateOutcomeView::Created(created),
                ) && after == (StoreView {
                    operations: state.operations.push(
                        OperationRowView { tenant_id: state.tenant_id, record: created },
                    ),
                    ..s
                })
            }
        }),
{
    lemma_before_admission(state, c, record, unit, account, ttl_seconds, approval);
    the_checkpoint_passes_exactly_for_a_trusted_reading(state, c);
    let s = state.checkpoint_clock(c).0;
    let taken = operation_taken(record.id);
    if exists|o: int|
        0 <= o < state.operations.len() && (#[trigger] state.operations[o]).record.id
            == record.id {
        let o = choose|o: int|
            0 <= o < state.operations.len() && (#[trigger] state.operations[o]).record.id
                == record.id;
        assert(taken(state.operations[o]));
    }
    if approval is Some {
        let candidates = s.approval_candidates(approval->0, Some(c.now_ms));
        lemma_join_keeps_operations(s, candidates, record.id, approval->0, c.now_ms);
    }
}

proof fn lemma_join_keeps_operations(
    state: StoreView,
    candidates: Seq<OperationApprovalRecordView>,
    operation: Seq<char>,
    draft: OperationApprovalDraftView,
    now_ms: i64,
)
    ensures
        state.join_approval(candidates, operation, draft, now_ms) matches Ok((after, _))
            ==> after == (StoreView { operation_approvals: after.operation_approvals, ..state }),
    decreases candidates.len(),
{
    if candidates.len() > 0 {
        let candidate = candidates[0];
        let rest = candidates.skip(1);
        if let Some(ids) = json_strings(candidate.operation_ids_json) {
            lemma_join_keeps_operations(state, rest, operation, draft, now_ms);
            let hit = pending_at(candidate.id, state.tenant_id, candidate.version);
            if let Some(operation_approvals) = crate::relation::attempted(
                state.operation_approvals,
                hit,
                approval_extended(json_list(ids.push(operation))),
            ) {
                lemma_join_keeps_operations(
                    StoreView { operation_approvals, ..state },
                    rest,
                    operation,
                    draft,
                    now_ms,
                );
            }
        }
    }
}

/// Whether a stored approval is one for requests like this: of the tenant, pending,
/// with its deadline ahead, by the same rule, for the same requester and the same
/// verified identity.
pub open spec fn is_alike(
    row: OperationApprovalRowView,
    draft: OperationApprovalDraftView,
    tenant: Seq<char>,
    now_ms: i64,
) -> bool {
    &&& row.tenant_id == tenant
    &&& row.record.status == "pending"@
    &&& row.record.expires_at_ms > now_ms
    &&& row.record.rule_id == draft.rule_id
    &&& row.record.requester_summary_json == draft.requester_summary_json
    &&& row.record.verified_identity_json == draft.verified_identity_json
}

/// Whether an approval takes one more operation: it lists fewer than ten, and not that
/// one.
pub open spec fn takes(record: OperationApprovalRecordView, operation: Seq<char>) -> bool {
    &&& json_strings(record.operation_ids_json) is Some
    &&& json_strings(record.operation_ids_json)->0.len() < 10
    &&& !json_strings(record.operation_ids_json)->0.contains(operation)
}

/// Whether an approval lists operations, but takes no more of them, or not that one.
pub open spec fn is_full(record: OperationApprovalRecordView, operation: Seq<char>) -> bool {
    json_strings(record.operation_ids_json) is Some && !takes(record, operation)
}

/// An approval that lists one operation more, at its next version.
pub open spec fn listing_one_more(row: OperationApprovalRowView, operation: Seq<char>) -> OperationApprovalRowView {
    OperationApprovalRowView {
        record: OperationApprovalRecordView {
            operation_ids_json: json_list(
                json_strings(row.record.operation_ids_json)->0.push(operation),
            ),
            version: (row.record.version + 1) as i64,
            ..row.record
        },
        ..row
    }
}

/// The approval that is opened for an operation, as it was drafted.
pub open spec fn opened(
    draft: OperationApprovalDraftView,
    tenant: Seq<char>,
    operation: Seq<char>,
    now_ms: i64,
) -> OperationApprovalRowView {
    OperationApprovalRowView {
        tenant_id: tenant,
        record: OperationApprovalRecordView {
            id: draft.id,
            operation_ids_json: json_list(seq![operation]),
            requester_summary_json: draft.requester_summary_json,
            verified_identity_json: draft.verified_identity_json,
            rule_id: draft.rule_id,
            status: "pending"@,
            decided_by: None,
            decided_at_ms: None,
            expires_at_ms: draft.expires_at_ms,
            idempotency_key: draft.idempotency_key,
            decision_key_hash: None,
            version: 1,
            created_at_ms: now_ms,
        },
    }
}

/// Whether a record is that of a pending approval of the tenant.
spec fn is_stored(state: StoreView, record: OperationApprovalRecordView) -> bool {
    exists|k: int|
        0 <= k < state.operation_approvals.len() && (
        #[trigger] state.operation_approvals[k]).record == record
            && state.operation_approvals[k].tenant_id == state.tenant_id && record.status
            == "pending"@
}

/// Joining looks for the first candidate that is not full.
proof fn lemma_join(
    state: StoreView,
    candidates: Seq<OperationApprovalRecordView>,
    operation: Seq<char>,
    draft: OperationApprovalDraftView,
    now_ms: i64,
    m: int,
)
    requires
        unique(state.operation_approvals, operation_approval_id()),
        forall|n: int| 0 <= n < candidates.len() ==> is_stored(state, #[trigger] candidates[n]),
        0 <= m <= candidates.len(),
        forall|n: int| 0 <= n < m ==> is_full(#[trigger] candidates[n], operation),
        m < candidates.len() ==> !is_full(candidates[m], operation),
    ensures
        ({
            let reply = state.join_approval(candidates, operation, draft, now_ms);
            if m == candidates.len() {
                reply == state.insert_operation_approval(operation, draft, now_ms)
            } else if !takes(candidates[m], operation) {
                reply is Err
            } else if candidates[m].version == i64::MAX {
                reply is Err
            } else {
                exists|k: int|
                    0 <= k < state.operation_approvals.len() && (
                    #[trigger] state.operation_approvals[k]).record == candidates[m]
                        && state.operation_approvals[k].tenant_id == state.tenant_id
                            && reply == Ok::<
                        (StoreView, Seq<char>),
                        StoreError,
                    >(
                        (
                            StoreView {
                                operation_approvals: state.operation_approvals.update(
                                    k,
                                    listing_one_more(state.operation_approvals[k], operation),
                                ),
                                ..state
                            },
                            candidates[m].id,
                        ),
                    )
            }
        }),
    decreases candidates.len(),
{
    if candidates.len() > 0 {
        let rest = candidates.skip(1);
        if m > 0 {
            assert(is_full(candidates[0], operation));
            assert forall|n: int| 0 <= n < rest.len() implies is_stored(
                state,
                #[trigger] rest[n],
            ) by {
                assert(rest[n] == candidates[n + 1]);
            }
            assert forall|n: int| 0 <= n < m - 1 implies is_full(#[trigger] rest[n], operation) by {
                assert(rest[n] == candidates[n + 1]);
            }
            lemma_join(state, rest, operation, draft, now_ms, m - 1);
        } else {
            let candidate = candidates[0];
            assert(is_stored(state, candidate));
            let rows = state.operation_approvals;
            let k = choose|k: int|
                0 <= k < rows.len() && (#[trigger] rows[k]).record == candidate
                    && rows[k].tenant_id == state.tenant_id && candidate.status == "pending"@;
            let hit = pending_at(candidate.id, state.tenant_id, candidate.version);
            lemma_sole(rows, operation_approval_id(), hit, k);
            assert(hit(rows[k]));
        }
    }
}

/// A request that asks for an approval and may be created is put to exactly one: to the
/// newest stored one for requests like this that takes it, or to the one that was
/// drafted, where none of the fifty newest alike ones does. Either way the approval
/// that the operation names has the rule, the requester and the identity of the draft,
/// and lists the operation; no other approval is touched.
#[verifier::rlimit(40)]
pub proof fn a_request_joins_only_an_approval_alike(
    state: StoreView,
    c: ClockReadingView,
    record: OperationRecordView,
    unit: Seq<char>,
    account: Seq<char>,
    ttl_seconds: i64,
    draft: OperationApprovalDraftView,
)
    requires
        unique(state.operation_approvals, operation_approval_id()),
        unique(state.nodes, node_id()),
        unique(state.fleet_policies, fleet_policy_tenant()),
        runs(state, c),
        forall|o: int|
            0 <= o < state.operations.len() ==> !under_key(
                #[trigger] state.operations[o],
                state.tenant_id,
                record,
            ),
        !event_spent(state, record),
        may_be_created(state, record, unit, account, ttl_seconds, c.now_ms),
    ensures
        ({
            let (after, reply) = state.create_operation(
                c,
                record,
                unit,
                account,
                ttl_seconds,
                Some(draft),
            );
            let s = state.checkpoint_clock(c).0;
            let rows = state.operation_approvals;
            let alike = |row: OperationApprovalRowView|
                is_alike(row, draft, state.tenant_id, c.now_ms);
            let taken = exists|k: int|
                0 <= k < rows.len() && (#[trigger] rows[k]).record.id == draft.id;
            let id_taken = exists|o: int|
                0 <= o < state.operations.len() && (#[trigger] state.operations[o]).record.id
                    == record.id;
            let readable = forall|k: int|
                0 <= k < rows.len() && alike(#[trigger] rows[k]) ==> json_strings(
                    rows[k].record.operation_ids_json,
                ) is Some && rows[k].record.version < i64::MAX;
            &&& match reply {
                Err(_) => after == s && (id_taken || taken || !readable),
                Ok(outcome) => {
                    &&& outcome is Created
                    &&& !id_taken
                    &&& after.operations == state.operations.push(
                        OperationRowView {
                            tenant_id: state.tenant_id,
                            record: outcome->Created_0,
                        },
                    )
                    &&& after == (StoreView {
                        operations: after.operations,
                        operation_approvals: after.operation_approvals,
                        ..s
                    })
                    &&& outcome->Created_0.approval_id is Some
                    &&& outcome->Created_0 == requested(
                        record,
                        outcome->Created_0.approval_id,
                        c.now_ms,
                    )
                    &&& {
                        ||| {
                            &&& !taken
                            &&& outcome->Created_0.approval_id == Some(draft.id)
                            &&& after.operation_approvals == rows.push(
                                opened(draft, state.tenant_id, record.id, c.now_ms),
                            )
                            &&& rows.filter(alike).len() <= 50 ==> forall|k: int|
                                0 <= k < rows.len() && alike(#[trigger] rows[k]) ==> is_full(
                                    rows[k].record,
                                    record.id,
                                )
                        }
                        ||| exists|k: int|
                            0 <= k < rows.len() && alike(#[trigger] rows[k]) && takes(
                                rows[k].record,
                                record.id,
                            ) && outcome->Created_0.approval_id == Some(rows[k].record.id)
                                && after.operation_approvals == rows.update(
                                k,
                                listing_one_more(rows[k], record.id),
                            ) && forall|l: int|
                                0 <= l < rows.len() && alike(#[trigger] rows[l]) && takes(
                                    rows[l].record,
                                    record.id,
                                ) ==> !earlier(
                                    rows[k].record.created_at_ms,
                                    rows[k].record.id,
                                    rows[l].record.created_at_ms,
                                    rows[l].record.id,
                                )
                    }
                },
            }
        }),
{
    lemma_before_admission(state, c, record, unit, account, ttl_seconds, Some(draft));
    the_checkpoint_passes_exactly_for_a_trusted_reading(state, c);
    let s = state.checkpoint_clock(c).0;
    let t = state.tenant_id;
    let rows = state.operation_approvals;
    let alike = |row: OperationApprovalRowView| is_alike(row, draft, t, c.now_ms);
    let shown = |row: OperationApprovalRowView| row.record;
    let before = |a: OperationApprovalRecordView, b: OperationApprovalRecordView|
        earlier(b.created_at_ms, b.id, a.created_at_ms, a.id);
    assert(joinable_approval(draft, t, Some(c.now_ms)) =~= alike);
    assert(operation_approval_of() =~= shown);
    assert(newest_approval() =~= before);
    lemma_place_order(before, |w: OperationApprovalRecordView| (w.created_at_ms, w.id));
    lemma_page_shows(rows, alike, shown, before, 50);
    let candidates = s.approval_candidates(draft, Some(c.now_ms));
    assert(shows_rows(candidates, rows, alike, shown, before, 50));
    assert forall|n: int| 0 <= n < candidates.len() implies is_stored(
        s,
        #[trigger] candidates[n],
    ) by {
        assert(comes_from(rows, alike, shown, candidates[n]));
        let k = choose|k: int|
            0 <= k < rows.len() && alike(#[trigger] rows[k]) && shown(rows[k]) == candidates[n];
        assert(s.operation_approvals[k].record == candidates[n]);
    }
    let m = lemma_first_not_full(candidates, record.id);
    lemma_join(s, candidates, record.id, draft, c.now_ms, m);
    lemma_join_keeps_operations(s, candidates, record.id, draft, c.now_ms);
    let joined = s.join_approval(candidates, record.id, draft, c.now_ms);
    let op_taken = operation_taken(record.id);
    if exists|o: int|
        0 <= o < state.operations.len() && (#[trigger] state.operations[o]).record.id
            == record.id {
        let o = choose|o: int|
            0 <= o < state.operations.len() && (#[trigger] state.operations[o]).record.id
                == record.id;
        assert(op_taken(state.operations[o]));
    }
    if any(state.operations, op_taken) {
        let o = choose|o: int|
            0 <= o < state.operations.len() && op_taken(#[trigger] state.operations[o]);
        assert(state.operations[o].record.id == record.id);
    }
    if m == candidates.len() {
        let draft_taken = operation_approval_taken(draft.id);
        if exists|k: int| 0 <= k < rows.len() && (#[trigger] rows[k]).record.id == draft.id {
            let k = choose|k: int|
                0 <= k < rows.len() && (#[trigger] rows[k]).record.id == draft.id;
            assert(draft_taken(rows[k]));
        }
        if any(rows, draft_taken) {
            let k = choose|k: int| 0 <= k < rows.len() && draft_taken(#[trigger] rows[k]);
            assert(rows[k].record.id == draft.id);
        }
        if rows.filter(alike).len() <= 50 {
            assert forall|k: int| 0 <= k < rows.len() && alike(#[trigger] rows[k]) implies is_full(
                rows[k].record,
                record.id,
            ) by {
                lemma_alike_is_listed(rows, alike, shown, before, candidates, k);
                let n = choose|n: int| 0 <= n < candidates.len() && candidates[n] == shown(rows[k]);
                assert(is_full(candidates[n], record.id));
            }
        }
    } else {
        assert(comes_from(rows, alike, shown, candidates[m]));
        let k0 = choose|k: int|
            0 <= k < rows.len() && alike(#[trigger] rows[k]) && shown(rows[k]) == candidates[m];
        if joined is Ok {
            let k = choose|k: int|
                0 <= k < s.operation_approvals.len() && (
                #[trigger] s.operation_approvals[k]).record == candidates[m]
                    && s.operation_approvals[k].tenant_id == s.tenant_id && joined == Ok::<
                    (StoreView, Seq<char>),
                    StoreError,
                >(
                    (
                        StoreView {
                            operation_approvals: s.operation_approvals.update(
                                k,
                                listing_one_more(s.operation_approvals[k], record.id),
                            ),
                            ..s
                        },
                        candidates[m].id,
                    ),
                );
            if k != k0 {
                assert(operation_approval_id()(rows[k]) == operation_approval_id()(rows[k0]));
            }
            assert(alike(rows[k]));
            assert forall|l: int| 0 <= l < rows.len() && alike(#[trigger] rows[l]) && takes(
                rows[l].record,
                record.id,
            ) implies !earlier(
                rows[k].record.created_at_ms,
                rows[k].record.id,
                rows[l].record.created_at_ms,
                rows[l].record.id,
            ) by {
                if candidates.contains(shown(rows[l])) {
                    let n = choose|n: int|
                        0 <= n < candidates.len() && candidates[n] == shown(rows[l]);
                    if n < m {
                        assert(is_full(candidates[n], record.id));
                    } else if n > m {
                        assert(!before(candidates[n], candidates[m]));
                    } else {
                        crate::paging_laws::texts_are_strictly_ordered(
                            rows[k].record.id,
                            rows[l].record.id,
                            rows[k].record.id,
                        );
                    }
                } else {
                    assert(!before(shown(rows[l]), candidates[m]));
                }
            }
        }
    }
}

/// The first of some approvals that is not full, or the end of them.
proof fn lemma_first_not_full(
    candidates: Seq<OperationApprovalRecordView>,
    operation: Seq<char>,
) -> (m: int)
    ensures
        0 <= m <= candidates.len(),
        forall|n: int| 0 <= n < m ==> is_full(#[trigger] candidates[n], operation),
        m < candidates.len() ==> !is_full(candidates[m], operation),
    decreases candidates.len(),
{
    if candidates.len() == 0 {
        0
    } else {
        let front = candidates.drop_last();
        let m = lemma_first_not_full(front, operation);
        assert forall|n: int| 0 <= n < m implies is_full(#[trigger] candidates[n], operation) by {
            assert(front[n] == candidates[n]);
        }
        if m < front.len() {
            assert(candidates[m] == front[m]);
            m
        } else if is_full(candidates.last(), operation) {
            m + 1
        } else {
            m
        }
    }
}

proof fn lemma_alike_is_listed(
    rows: Seq<OperationApprovalRowView>,
    alike: spec_fn(OperationApprovalRowView) -> bool,
    shown: spec_fn(OperationApprovalRowView) -> OperationApprovalRecordView,
    before: spec_fn(OperationApprovalRecordView, OperationApprovalRecordView) -> bool,
    list: Seq<OperationApprovalRecordView>,
    k: int,
)
    requires
        rows.filter(alike).len() <= 50,
        0 <= k < rows.len(),
        alike(rows[k]),
        list == crate::relation::ordered(crate::relation::selected(rows, alike, shown), before)
            || list == crate::relation::page(
            crate::relation::ordered(crate::relation::selected(rows, alike, shown), before),
            50,
        ),
        crate::relation_laws::strict_weak_order(before),
    ensures
        list.contains(shown(rows[k])),
{
    lemma_page_shows(rows, alike, shown, before, rows.len() as int + 51);
    lemma_page_shows(rows, alike, shown, before, 50);
    let whole = crate::relation::ordered(crate::relation::selected(rows, alike, shown), before);
    assert(rows.filter(alike).len() <= rows.len() + 50);
    crate::relation_laws::ordered_is_a_sorted_permutation(
        crate::relation::selected(rows, alike, shown),
        before,
    );
    broadcast use vstd::seq_lib::group_to_multiset_ensures;

    assert(whole.to_multiset().len() == crate::relation::selected(
        rows,
        alike,
        shown,
    ).to_multiset().len());
    assert(crate::relation::page(whole, 50) == whole);
    assert(crate::relation::page(whole, rows.len() as int + 51) == whole);
}

} // verus!
