//! What a decision on an approval does, by what the approval and its operations say.

use crate::authorization::{
    any_node, any_workload, approval_closed, grouped_operation, operation_approval_with,
    operation_approved, pending_at, pending_with, waiting_for,
};
use crate::clock::ClockReadingView;
use crate::error::StoreError;
use crate::json::json_strings;
use crate::keys::{
    fleet_policy_tenant, node_id, operation_approval_id, operation_id, workload_id,
};
use crate::moment_laws::{runs, the_checkpoint_passes_exactly_for_a_trusted_reading};
use crate::operations::restated;
use crate::policy::fleet_policy_of;
use crate::records::{
    OperationApprovalRecordView, OperationDecisionOutcomeView, OperationRecordView,
};
use crate::relation::{any, attempted, first};
use crate::relation_laws::{
    lemma_attempted, lemma_none, lemma_sole, lemma_unique_replaced, unique,
};
use crate::store::StoreView;
use crate::tables::{OperationApprovalRowView, OperationRowView};
use vstd::prelude::*;

verus! {

/// Whether a version is that of the fleet policy of the tenant; the first one is where
/// the tenant has stored none.
pub open spec fn policy_in_force(state: StoreView, version: i64) -> bool {
    ||| exists|p: int|
        0 <= p < state.fleet_policies.len() && (#[trigger] state.fleet_policies[p]).tenant_id
            == state.tenant_id && state.fleet_policies[p].record.version == version
    ||| version == 1 && forall|p: int|
        0 <= p < state.fleet_policies.len() ==> (#[trigger] state.fleet_policies[p]).tenant_id
            != state.tenant_id
}

pub(crate) proof fn lemma_policy_in_force(state: StoreView, version: i64)
    requires
        unique(state.fleet_policies, fleet_policy_tenant()),
    ensures
        (state.current_fleet_policy().version == version) == policy_in_force(state, version),
{
    let rows = state.fleet_policies;
    let of = fleet_policy_of(state.tenant_id);
    if exists|p: int| 0 <= p < rows.len() && (#[trigger] rows[p]).tenant_id == state.tenant_id {
        let p = choose|p: int|
            0 <= p < rows.len() && (#[trigger] rows[p]).tenant_id == state.tenant_id;
        lemma_sole(rows, fleet_policy_tenant(), of, p);
        assert(of(rows[p]));
        if policy_in_force(state, version) {
            let q = choose|q: int|
                0 <= q < rows.len() && (#[trigger] rows[q]).tenant_id == state.tenant_id
                    && rows[q].record.version == version;
            if q != p {
                assert(fleet_policy_tenant()(rows[p]) == fleet_policy_tenant()(rows[q]));
            }
        }
    } else {
        lemma_none(rows, of);
    }
}

/// Whether an operation can still be decided under an approval: it waits for that
/// approval, its deadline is ahead, it was requested under the policy in force, and
/// its workload and its node are active.
pub open spec fn still_current(
    state: StoreView,
    operation: Seq<char>,
    approval: Seq<char>,
    now_ms: i64,
) -> bool {
    exists|o: int|
        0 <= o < state.operations.len() && (#[trigger] state.operations[o]).record.id == operation
            && state.operations[o].tenant_id == state.tenant_id
            && state.operations[o].record.approval_id == Some(approval)
            && state.operations[o].record.status == "awaiting_approval"@
            && state.operations[o].record.expires_at_ms > now_ms && policy_in_force(
            state,
            state.operations[o].record.policy_version,
        ) && workload_runs(state, state.operations[o].record.workload_id) && node_runs(
            state,
            state.operations[o].record.node_id,
        )
}

/// Whether a workload is active.
pub open spec fn workload_runs(state: StoreView, id: Seq<char>) -> bool {
    exists|w: int|
        0 <= w < state.workloads.len() && (#[trigger] state.workloads[w]).record.id == id
            && state.workloads[w].record.status == "active"@
}

/// Whether a node is active.
pub open spec fn node_runs(state: StoreView, id: Seq<char>) -> bool {
    exists|n: int|
        0 <= n < state.nodes.len() && (#[trigger] state.nodes[n]).id == id && state.nodes[n].status
            == "active"@
}

proof fn lemma_workload_runs(state: StoreView, id: Seq<char>)
    requires
        unique(state.workloads, workload_id()),
    ensures
        workload_runs(state, id) == match first(state.workloads, any_workload(id)) {
            Some(workload) => workload.record.status == "active"@,
            None => false,
        },
        workload_runs(state, id) ==> any(state.workloads, any_workload(id)),
{
    let rows = state.workloads;
    if exists|w: int| 0 <= w < rows.len() && (#[trigger] rows[w]).record.id == id {
        let w = choose|w: int| 0 <= w < rows.len() && (#[trigger] rows[w]).record.id == id;
        lemma_sole(rows, workload_id(), any_workload(id), w);
        assert forall|v: int| 0 <= v < rows.len() && (#[trigger] rows[v]).record.id
            == id implies v == w by {
            if v != w {
                assert(workload_id()(rows[v]) == workload_id()(rows[w]));
            }
        }
    } else {
        lemma_none(rows, any_workload(id));
    }
}

proof fn lemma_node_runs(state: StoreView, id: Seq<char>)
    requires
        unique(state.nodes, node_id()),
    ensures
        node_runs(state, id) == match first(state.nodes, any_node(id)) {
            Some(node) => node.status == "active"@,
            None => false,
        },
        node_runs(state, id) ==> any(state.nodes, any_node(id)),
{
    let rows = state.nodes;
    if exists|n: int| 0 <= n < rows.len() && (#[trigger] rows[n]).id == id {
        let n = choose|n: int| 0 <= n < rows.len() && (#[trigger] rows[n]).id == id;
        lemma_sole(rows, node_id(), any_node(id), n);
        assert forall|v: int| 0 <= v < rows.len() && (#[trigger] rows[v]).id == id implies v
            == n by {
            if v != n {
                assert(node_id()(rows[v]) == node_id()(rows[n]));
            }
        }
    } else {
        lemma_none(rows, any_node(id));
    }
}

proof fn lemma_still_current(
    state: StoreView,
    operation: Seq<char>,
    approval: Seq<char>,
    now_ms: i64,
)
    requires
        unique(state.operations, operation_id()),
        unique(state.workloads, workload_id()),
        unique(state.nodes, node_id()),
        unique(state.fleet_policies, fleet_policy_tenant()),
    ensures
        state.operation_current(operation, approval, now_ms) == still_current(
            state,
            operation,
            approval,
            now_ms,
        ),
{
    let rows = state.operations;
    let hit = grouped_operation(
        state.workloads,
        state.nodes,
        operation,
        state.tenant_id,
        approval,
    );
    if exists|o: int| 0 <= o < rows.len() && (#[trigger] rows[o]).record.id == operation {
        let o = choose|o: int| 0 <= o < rows.len() && (#[trigger] rows[o]).record.id == operation;
        lemma_sole(rows, operation_id(), hit, o);
        lemma_workload_runs(state, rows[o].record.workload_id);
        lemma_node_runs(state, rows[o].record.node_id);
        lemma_policy_in_force(state, rows[o].record.policy_version);
        assert forall|v: int| 0 <= v < rows.len() && (#[trigger] rows[v]).record.id
            == operation implies v == o by {
            if v != o {
                assert(operation_id()(rows[v]) == operation_id()(rows[o]));
            }
        }
    } else {
        lemma_none(rows, hit);
    }
}

/// Whether an operation waits for an approval.
pub open spec fn waits(row: OperationRowView, approval: Seq<char>, tenant: Seq<char>) -> bool {
    row.tenant_id == tenant && row.record.approval_id == Some(approval) && row.record.status
        == "awaiting_approval"@
}

/// Whether the operations that wait for an approval were answered, and no other one was
/// touched: an approved one is requested anew and lives from now for the time that it
/// asked for, every other one is denied. Each is at its next version.
pub open spec fn answered(
    before: Seq<OperationRowView>,
    after: Seq<OperationRowView>,
    approval: Seq<char>,
    tenant: Seq<char>,
    approved: bool,
    now_ms: i64,
) -> bool {
    &&& after.len() == before.len()
    &&& forall|j: int|
        0 <= j < before.len() ==> #[trigger] after[j] == if !waits(before[j], approval, tenant) {
            before[j]
        } else if approved {
            OperationRowView {
                record: OperationRecordView {
                    status: "requested"@,
                    expires_at_ms: (now_ms + before[j].record.requested_ttl_seconds
                        * 1_000) as i64,
                    version: (before[j].record.version + 1) as i64,
                    ..before[j].record
                },
                ..before[j]
            }
        } else {
            OperationRowView {
                record: OperationRecordView {
                    status: "denied"@,
                    version: (before[j].record.version + 1) as i64,
                    ..before[j].record
                },
                ..before[j]
            }
        }
}

/// Whether the operations that wait for an approval can be answered: none is at the
/// last version, and, where they are approved, no new deadline is out of range.
pub open spec fn answerable(
    rows: Seq<OperationRowView>,
    approval: Seq<char>,
    tenant: Seq<char>,
    approved: bool,
    now_ms: i64,
) -> bool {
    forall|j: int|
        0 <= j < rows.len() && waits(#[trigger] rows[j], approval, tenant)
            ==> rows[j].record.version < i64::MAX && (approved ==> i64::MIN <= now_ms
            + rows[j].record.requested_ttl_seconds * 1_000 <= i64::MAX)
}

proof fn lemma_answered(
    rows: Seq<OperationRowView>,
    approval: Seq<char>,
    tenant: Seq<char>,
    approved: bool,
    now_ms: i64,
)
    ensures
        ({
            let change = if approved {
                operation_approved(now_ms)
            } else {
                restated("denied"@)
            };
            let after = attempted(rows, waiting_for(approval, tenant), change);
            &&& after is Some <==> answerable(rows, approval, tenant, approved, now_ms)
            &&& after is Some ==> answered(rows, after->0, approval, tenant, approved, now_ms)
        }),
{
    let hit = waiting_for(approval, tenant);
    let change = if approved {
        operation_approved(now_ms)
    } else {
        restated("denied"@)
    };
    if attempted(rows, hit, change) is Some {
        lemma_attempted(rows, hit, change);
        assert forall|j: int| 0 <= j < rows.len() && waits(
            #[trigger] rows[j],
            approval,
            tenant,
        ) implies rows[j].record.version < i64::MAX && (approved ==> i64::MIN <= now_ms
            + rows[j].record.requested_ttl_seconds * 1_000 <= i64::MAX) by {
            assert(hit(rows[j]));
        }
    } else {
        let stuck = |v: OperationRowView| hit(v) && change(v) is None;
        let j = choose|j: int| 0 <= j < rows.len() && stuck(#[trigger] rows[j]);
        assert(waits(rows[j], approval, tenant));
    }
}

/// A decision on an approval of the tenant, for exactly the operations that it lists.
///
/// The decision that was taken before, by the same actor under the same key, is
/// replayed. A decision that is neither to approve nor to reject, on an approval that
/// is not pending, at another version or for other operations, is a conflict; so is
/// one for none or for more than ten operations. None of these changes anything.
///
/// Where the deadline of the approval has passed, or where one of its operations can
/// no longer be decided, the approval expires, and the operations that wait for it are
/// denied. Otherwise the decision is noted, and the operations that wait are requested
/// anew where it approves, and denied where it rejects.
#[verifier::rlimit(40)]
pub proof fn a_decision_takes_effect_only_on_a_current_group(
    state: StoreView,
    c: ClockReadingView,
    id: Seq<char>,
    version: i64,
    expected: Seq<Seq<char>>,
    decision: Seq<char>,
    actor: Seq<char>,
    key_hash: Seq<char>,
    a: int,
)
    requires
        unique(state.operation_approvals, operation_approval_id()),
        unique(state.operations, operation_id()),
        unique(state.workloads, workload_id()),
        unique(state.nodes, node_id()),
        unique(state.fleet_policies, fleet_policy_tenant()),
        runs(state, c),
        0 <= a < state.operation_approvals.len(),
        state.operation_approvals[a].record.id == id,
        state.operation_approvals[a].tenant_id == state.tenant_id,
        json_strings(state.operation_approvals[a].record.operation_ids_json) is Some,
    ensures
        ({
            let (after, reply) = state.decide_operation_approval(
                c,
                id,
                version,
                expected,
                decision,
                actor,
                key_hash,
            );
            let s = state.checkpoint_clock(c).0;
            let row = state.operation_approvals[a];
            let ids = json_strings(row.record.operation_ids_json)->0;
            let approved = decision == "approved"@;
            let stale = exists|k: int|
                0 <= k < ids.len() && !still_current(state, #[trigger] ids[k], id, c.now_ms);
            let lapsed = row.record.expires_at_ms <= c.now_ms;
            let answers = approved && !stale && !lapsed;
            let noted = OperationApprovalRowView {
                record: OperationApprovalRecordView {
                    status: if stale {
                        "expired"@
                    } else {
                        decision
                    },
                    decided_by: Some(actor),
                    decided_at_ms: Some(c.now_ms),
                    decision_key_hash: Some(key_hash),
                    version: (row.record.version + 1) as i64,
                    ..row.record
                },
                ..row
            };
            let expired = OperationApprovalRowView {
                record: OperationApprovalRecordView {
                    status: "expired"@,
                    version: (row.record.version + 1) as i64,
                    ..row.record
                },
                ..row
            };
            if row.record.status == (if approved {
                "approved"@
            } else {
                "rejected"@
            }) && row.record.version == (if version == i64::MAX {
                i64::MAX as int
            } else {
                version + 1
            }) && row.record.decided_by == Some(actor) && row.record.decision_key_hash == Some(
                key_hash,
            ) && ids == expected {
                after == s && reply == Ok::<OperationDecisionOutcomeView, StoreError>(
                    OperationDecisionOutcomeView::Replayed(row.record),
                )
            } else if (decision != "approved"@ && decision != "rejected"@) || row.record.status
                != "pending"@ || row.record.version != version || ids != expected || ids.len() == 0
                || ids.len() > 10 {
                after == s && reply == Ok::<OperationDecisionOutcomeView, StoreError>(
                    OperationDecisionOutcomeView::Conflict,
                )
            } else if row.record.version == i64::MAX || !answerable(
                state.operations,
                id,
                state.tenant_id,
                answers,
                c.now_ms,
            ) {
                after == s && reply is Err
            } else {
                &&& after == (StoreView {
                    operation_approvals: state.operation_approvals.update(
                        a,
                        if lapsed {
                            expired
                        } else {
                            noted
                        },
                    ),
                    operations: after.operations,
                    ..s
                })
                &&& answered(
                    state.operations,
                    after.operations,
                    id,
                    state.tenant_id,
                    answers,
                    c.now_ms,
                )
                &&& reply == Ok::<OperationDecisionOutcomeView, StoreError>(
                    if lapsed || stale {
                        OperationDecisionOutcomeView::StalePolicy
                    } else {
                        OperationDecisionOutcomeView::Applied(noted.record)
                    },
                )
            }
        }),
{
    the_checkpoint_passes_exactly_for_a_trusted_reading(state, c);
    let s = state.checkpoint_clock(c).0;
    let t = state.tenant_id;
    let rows = state.operation_approvals;
    let row = rows[a];
    let ids = json_strings(row.record.operation_ids_json)->0;
    lemma_sole(rows, operation_approval_id(), operation_approval_with(id, t), a);
    lemma_sole(rows, operation_approval_id(), pending_with(id, t), a);
    lemma_sole(rows, operation_approval_id(), pending_at(id, t, version), a);
    let outdated = |operation: Seq<char>| !s.operation_current(operation, id, c.now_ms);
    assert forall|operation: Seq<char>|
        s.operation_current(operation, id, c.now_ms) == #[trigger] still_current(
            state,
            operation,
            id,
            c.now_ms,
        ) by {
        lemma_still_current(s, operation, id, c.now_ms);
        assert(still_current(s, operation, id, c.now_ms) == still_current(
            state,
            operation,
            id,
            c.now_ms,
        )) by {
            assert forall|v: i64| policy_in_force(s, v)
                == #[trigger] policy_in_force(state, v) by {}
            assert forall|w: Seq<char>| workload_runs(s, w) == #[trigger] workload_runs(
                state,
                w,
            ) by {}
            assert forall|n: Seq<char>| node_runs(s, n) == #[trigger] node_runs(state, n) by {}
        }
    }
    let stale = exists|k: int|
        0 <= k < ids.len() && !still_current(state, #[trigger] ids[k], id, c.now_ms);
    assert(any(ids, outdated) == stale) by {
        if stale {
            let k = choose|k: int|
                0 <= k < ids.len() && !still_current(state, #[trigger] ids[k], id, c.now_ms);
            assert(outdated(ids[k]));
        }
        if any(ids, outdated) {
            let k = choose|k: int| 0 <= k < ids.len() && outdated(#[trigger] ids[k]);
            assert(!still_current(state, ids[k], id, c.now_ms));
        }
    }
    lemma_answered(state.operations, id, t, true, c.now_ms);
    lemma_answered(state.operations, id, t, false, c.now_ms);
    let closed = approval_closed(decision, actor, c.now_ms, key_hash)(row);
    if closed is Some {
        lemma_unique_replaced(rows, operation_approval_id(), a, closed->0);
        lemma_sole(
            rows.update(a, closed->0),
            operation_approval_id(),
            operation_approval_with(id, t),
            a,
        );
    }
}

/// A decision on an approval that the tenant does not have finds nothing and changes
/// nothing.
pub proof fn an_absent_approval_is_not_decided(
    state: StoreView,
    c: ClockReadingView,
    id: Seq<char>,
    version: i64,
    expected: Seq<Seq<char>>,
    decision: Seq<char>,
    actor: Seq<char>,
    key_hash: Seq<char>,
)
    requires
        runs(state, c),
        forall|a: int|
            0 <= a < state.operation_approvals.len() ==> (
            #[trigger] state.operation_approvals[a]).record.id != id
                || state.operation_approvals[a].tenant_id != state.tenant_id,
    ensures
        state.decide_operation_approval(c, id, version, expected, decision, actor, key_hash) == (
            state.checkpoint_clock(c).0,
            Ok::<OperationDecisionOutcomeView, StoreError>(OperationDecisionOutcomeView::NotFound),
        ),
{
    the_checkpoint_passes_exactly_for_a_trusted_reading(state, c);
    lemma_none(state.operation_approvals, operation_approval_with(id, state.tenant_id));
}

} // verus!
