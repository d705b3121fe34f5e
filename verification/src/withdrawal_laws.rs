//! What the revocation of a grant does, by what the grant and its operation say, and
//! what is read of grants, operations and their approvals.

use crate::authorization::{
    any_node, any_workload, operation_approval_with, operation_taken, operation_with,
};
use crate::clock::ClockReadingView;
use crate::documents::{DocumentKind, Parsed, RevocationView};
use crate::error::StoreError;
use crate::grants::{grant_with, running_operation, usable_grant};
use crate::keys::{
    grant_id, node_id, operation_approval_id, operation_id, workload_id,
};
use crate::moment_laws::{lemma_runs, runs};
use crate::node_authority::tombstone_of;
use crate::records::{
    GrantRecordView, GrantRevocationOutcomeView, OperationApprovalRecordView, OperationRecordView,
};
use crate::relation::any;
use crate::relation_laws::{lemma_none, lemma_sole, unique};
use crate::sending_laws::{a_document_is_sent_behind_the_others, roomy, sendable, sent};
use crate::store::StoreView;
use crate::tables::{GrantRowView, OperationApprovalRowView, OperationRowView, TombstoneRowView};
use vstd::prelude::*;

verus! {

/// A grant is read by its tenant, as it is stored.
pub proof fn a_grant_is_read_as_stored(state: StoreView, c: ClockReadingView, id: Seq<char>, i: int)
    requires
        unique(state.grants, grant_id()),
        runs(state, c),
        0 <= i < state.grants.len(),
        state.grants[i].record.id == id,
    ensures
        state.grant_by_id(c, id) == (
            state.checkpoint_clock(c).0,
            Ok::<Option<GrantRecordView>, StoreError>(
                if state.grants[i].tenant_id == state.tenant_id {
                    Some(state.grants[i].record)
                } else {
                    None
                },
            ),
        ),
{
    lemma_runs(state, c);
    lemma_sole(state.grants, grant_id(), grant_with(id, state.tenant_id), i);
}

/// An operation is read by its tenant, as it is stored.
pub proof fn an_operation_is_read_as_stored(
    state: StoreView,
    c: ClockReadingView,
    id: Seq<char>,
    i: int,
)
    requires
        unique(state.operations, operation_id()),
        runs(state, c),
        0 <= i < state.operations.len(),
        state.operations[i].record.id == id,
    ensures
        state.operation_by_id(c, id) == (
            state.checkpoint_clock(c).0,
            Ok::<Option<OperationRecordView>, StoreError>(
                if state.operations[i].tenant_id == state.tenant_id {
                    Some(state.operations[i].record)
                } else {
                    None
                },
            ),
        ),
{
    lemma_runs(state, c);
    lemma_sole(state.operations, operation_id(), operation_with(id, state.tenant_id), i);
}

/// An approval of operations is read by its tenant, as it is stored.
pub proof fn an_operation_approval_is_read_as_stored(
    state: StoreView,
    c: ClockReadingView,
    id: Seq<char>,
    i: int,
)
    requires
        unique(state.operation_approvals, operation_approval_id()),
        runs(state, c),
        0 <= i < state.operation_approvals.len(),
        state.operation_approvals[i].record.id == id,
    ensures
        state.operation_approval_by_id(c, id) == (
            state.checkpoint_clock(c).0,
            Ok::<Option<OperationApprovalRecordView>, StoreError>(
                if state.operation_approvals[i].tenant_id == state.tenant_id {
                    Some(state.operation_approvals[i].record)
                } else {
                    None
                },
            ),
        ),
{
    lemma_runs(state, c);
    lemma_sole(
        state.operation_approvals,
        operation_approval_id(),
        operation_approval_with(id, state.tenant_id),
        i,
    );
}

/// Under identifiers that nothing has, no grant, no operation and no approval of
/// operations is read.
pub proof fn what_is_absent_is_not_read(state: StoreView, c: ClockReadingView, id: Seq<char>)
    requires
        runs(state, c),
    ensures
        (forall|q: int|
            0 <= q < state.grants.len() ==> (#[trigger] state.grants[q]).record.id != id)
                ==> state.grant_by_id(c, id).1 == Ok::<Option<
            GrantRecordView,
        >, StoreError>(None),
        (forall|q: int|
            0 <= q < state.operations.len()
                ==> (#[trigger] state.operations[q]).record.id != id)
                    ==> state.operation_by_id(c, id).1 == Ok::<Option<
            OperationRecordView,
        >, StoreError>(None),
        (forall|q: int|
            0 <= q < state.operation_approvals.len()
                ==> (#[trigger] state.operation_approvals[q]).record.id != id)
                    ==> state.operation_approval_by_id(
            c,
            id,
        ).1 == Ok::<Option<OperationApprovalRecordView>, StoreError>(None),
{
    lemma_runs(state, c);
    let t = state.tenant_id;
    if forall|q: int| 0 <= q < state.grants.len() ==> (#[trigger] state.grants[q]).record.id != id {
        lemma_none(state.grants, grant_with(id, t));
    }
    if forall|q: int|
        0 <= q < state.operations.len() ==> (#[trigger] state.operations[q]).record.id != id {
        lemma_none(state.operations, operation_with(id, t));
    }
    if forall|q: int|
        0 <= q < state.operation_approvals.len()
            ==> (#[trigger] state.operation_approvals[q]).record.id != id {
        lemma_none(state.operation_approvals, operation_approval_with(id, t));
    }
}

/// How many approvals of operations are counted as pending: those of the tenant that
/// are, and whose deadline is ahead.
pub proof fn pending_groups_are_counted_until_their_deadline(state: StoreView, c: ClockReadingView)
    requires
        runs(state, c),
    ensures
        state.count_pending_operation_approvals(c) == (
            state.checkpoint_clock(c).0,
            Ok::<i64, StoreError>(
                state.operation_approvals.filter(
                    |row: OperationApprovalRowView|
                        row.tenant_id == state.tenant_id && row.record.status == "pending"@
                            && row.record.expires_at_ms > c.now_ms,
                ).len() as i64,
            ),
        ),
{
    lemma_runs(state, c);
    assert(crate::authorization::open_approval(state.tenant_id, Some(c.now_ms)) =~= (
        |row: OperationApprovalRowView|
            row.tenant_id == state.tenant_id && row.record.status == "pending"@
                && row.record.expires_at_ms > c.now_ms));
}

/// Whether a signed revocation is one of a grant, for a reason, timely, and kept for a
/// week at least after the grant is over.
pub open spec fn revokes(
    envelope_json: Seq<char>,
    parsed: Parsed<RevocationView>,
    grant: GrantRecordView,
    reason: Seq<char>,
    now_ms: i64,
) -> bool {
    let over = if now_ms >= grant.expires_at_ms {
        now_ms
    } else {
        grant.expires_at_ms
    };
    &&& sendable(envelope_json)
    &&& match parsed {
        Parsed::Document { kind, epoch, body } => {
            &&& kind == DocumentKind::Revocation
            &&& epoch == body.issuer_epoch
            &&& body.grant_id == grant.id
            &&& body.node_id == grant.node_id
            &&& body.reason == reason
            &&& body.revoked_at_ms <= i64::MAX
            &&& now_ms - 60_000 <= body.revoked_at_ms <= now_ms + 5_000
            &&& over + 604_800_000 <= body.retain_until_ms <= i64::MAX
        },
        _ => false,
    }
}

/// The revocation of a grant, which stands with its workload, its node and its
/// operation at places in the tables.
///
/// A consumed grant is told so, with the ceiling of its workload; a revoked one is told
/// so again. One that is neither issued nor delivered, whose deadline has passed, or
/// whose operation is neither granted nor executing, is a conflict. None of these
/// changes anything. Otherwise, where the signed document fits, the grant is revoked
/// and its operation ends with it, for that reason, now; a tombstone is kept as long as
/// the document says; and the node is sent the document.
#[verifier::rlimit(60)]
pub proof fn a_usable_grant_is_revoked_by_a_fitting_document(
    state: StoreView,
    c: ClockReadingView,
    id: Seq<char>,
    reason: Seq<char>,
    envelope_json: Seq<char>,
    parsed: Parsed<RevocationView>,
    i: int,
    w: int,
    n: int,
    o: int,
)
    requires
        unique(state.grants, grant_id()),
        unique(state.workloads, workload_id()),
        unique(state.nodes, node_id()),
        unique(state.operations, operation_id()),
        runs(state, c),
        0 <= i < state.grants.len(),
        state.grants[i].record.id == id,
        state.grants[i].tenant_id == state.tenant_id,
        0 <= w < state.workloads.len(),
        state.workloads[w].record.id == state.grants[i].record.workload_id,
        0 <= n < state.nodes.len(),
        state.nodes[n].id == state.grants[i].record.node_id,
        0 <= o < state.operations.len(),
        state.operations[o].record.id == state.grants[i].record.operation_id,
    ensures
        ({
            let (after, reply) = state.revoke_grant(c, id, reason, envelope_json, parsed);
            let s = state.checkpoint_clock(c).0;
            let grant = state.grants[i].record;
            let operation = state.operations[o];
            let seen = state.nodes[n].last_seen_at_ms;
            let offline = seen is None || c.now_ms - seen->0 > 120_000;
            let retain_until_ms = parsed->body.retain_until_ms as i64;
            let gone = exists|q: int|
                0 <= q < state.grant_tombstones.len()
                    && (#[trigger] state.grant_tombstones[q]).grant_id == id;
            if reason != "operator"@ && reason != "cancelled"@ {
                after == s && reply == Err::<GrantRevocationOutcomeView, StoreError>(
                    StoreError::InvalidInput("grant revocation reason"),
                )
            } else if grant.status == "consumed"@ {
                after == s && reply == Ok::<GrantRevocationOutcomeView, StoreError>(
                    GrantRevocationOutcomeView::Consumed {
                        grant_id: id,
                        consumer_lifetime_seconds: state.workloads[w].record.local_ceiling_seconds,
                    },
                )
            } else if grant.status == "revoked"@ {
                after == s && reply == Ok::<GrantRevocationOutcomeView, StoreError>(
                    GrantRevocationOutcomeView::Revoked { grant_id: id, offline },
                )
            } else if (grant.status != "issued"@ && grant.status != "delivered"@) || c.now_ms
                >= grant.expires_at_ms || (operation.record.status != "granted"@
                && operation.record.status != "executing"@) {
                after == s && reply == Ok::<GrantRevocationOutcomeView, StoreError>(
                    GrantRevocationOutcomeView::Conflict,
                )
            } else if !revokes(envelope_json, parsed, grant, reason, c.now_ms) {
                after == s && reply is Err
            } else if operation.tenant_id != state.tenant_id {
                after == s && reply == Ok::<GrantRevocationOutcomeView, StoreError>(
                    GrantRevocationOutcomeView::Conflict,
                )
            } else if operation.record.version == i64::MAX || gone || !roomy(
                state.node_inbox,
                grant.node_id,
                1,
            ) {
                after == s && reply is Err
            } else {
                &&& reply == Ok::<GrantRevocationOutcomeView, StoreError>(
                    GrantRevocationOutcomeView::Revoked { grant_id: id, offline },
                )
                &&& sent(
                    state.node_inbox,
                    after.node_inbox,
                    grant.node_id,
                    envelope_json,
                    c.now_ms,
                )
                &&& after == (StoreView {
                    grants: state.grants.update(
                        i,
                        GrantRowView {
                            record: GrantRecordView {
                                status: "revoked"@,
                                revoked_at_ms: Some(c.now_ms),
                                ..grant
                            },
                            ..state.grants[i]
                        },
                    ),
                    operations: state.operations.update(
                        o,
                        OperationRowView {
                            record: OperationRecordView {
                                status: "revoked"@,
                                result_json: Some("{\"reason\":\""@ + reason + "\"}"@),
                                completed_at_ms: Some(c.now_ms),
                                version: (operation.record.version + 1) as i64,
                                ..operation.record
                            },
                            ..operation
                        },
                    ),
                    grant_tombstones: state.grant_tombstones.push(
                        TombstoneRowView {
                            grant_id: id,
                            node_id: grant.node_id,
                            reason,
                            created_at_ms: c.now_ms,
                            retain_until_ms,
                        },
                    ),
                    node_inbox: after.node_inbox,
                    ..s
                })
            }
        }),
{
    lemma_runs(state, c);
    let s = state.checkpoint_clock(c).0;
    let t = state.tenant_id;
    let grant = state.grants[i].record;
    lemma_sole(state.grants, grant_id(), grant_with(id, t), i);
    lemma_sole(state.grants, grant_id(), usable_grant(id, t), i);
    lemma_sole(state.workloads, workload_id(), any_workload(grant.workload_id), w);
    lemma_sole(state.nodes, node_id(), any_node(grant.node_id), n);
    lemma_sole(state.operations, operation_id(), operation_taken(grant.operation_id), o);
    lemma_sole(state.operations, operation_id(), running_operation(grant.operation_id, t), o);
    assert({
        let taken = tombstone_of(id);
        any(state.grant_tombstones, taken) == (exists|q: int|
            0 <= q < state.grant_tombstones.len()
                && (#[trigger] state.grant_tombstones[q]).grant_id == id)
    }) by {
        let taken = tombstone_of(id);
        if exists|q: int|
            0 <= q < state.grant_tombstones.len()
                && (#[trigger] state.grant_tombstones[q]).grant_id == id {
            let q = choose|q: int|
                0 <= q < state.grant_tombstones.len()
                    && (#[trigger] state.grant_tombstones[q]).grant_id == id;
            assert(taken(state.grant_tombstones[q]));
        }
        if any(state.grant_tombstones, taken) {
            let q = choose|q: int|
                0 <= q < state.grant_tombstones.len()
                    && taken(#[trigger] state.grant_tombstones[q]);
            assert(state.grant_tombstones[q].grant_id == id);
        }
    };
    let stored = StoreView {
        grants: state.grants.update(
            i,
            GrantRowView {
                record: GrantRecordView {
                    status: "revoked"@,
                    revoked_at_ms: Some(c.now_ms),
                    ..grant
                },
                ..state.grants[i]
            },
        ),
        operations: state.operations.update(
            o,
            OperationRowView {
                record: OperationRecordView {
                    status: "revoked"@,
                    result_json: Some("{\"reason\":\""@ + reason + "\"}"@),
                    completed_at_ms: Some(c.now_ms),
                    version: (state.operations[o].record.version + 1) as i64,
                    ..state.operations[o].record
                },
                ..state.operations[o]
            },
        ),
        grant_tombstones: state.grant_tombstones.push(
            TombstoneRowView {
                grant_id: id,
                node_id: grant.node_id,
                reason,
                created_at_ms: c.now_ms,
                retain_until_ms: parsed->body.retain_until_ms as i64,
            },
        ),
        ..s
    };
    a_document_is_sent_behind_the_others(stored, grant.node_id, envelope_json, Some(c.now_ms));
}

/// The revocation of a grant that the tenant does not have finds nothing and changes
/// nothing.
pub proof fn an_absent_grant_is_not_revoked(
    state: StoreView,
    c: ClockReadingView,
    id: Seq<char>,
    reason: Seq<char>,
    envelope_json: Seq<char>,
    parsed: Parsed<RevocationView>,
)
    requires
        runs(state, c),
        reason == "operator"@ || reason == "cancelled"@,
        forall|i: int|
            0 <= i < state.grants.len() ==> (#[trigger] state.grants[i]).record.id != id
                || state.grants[i].tenant_id != state.tenant_id,
    ensures
        state.revoke_grant(c, id, reason, envelope_json, parsed) == (
            state.checkpoint_clock(c).0,
            Ok::<GrantRevocationOutcomeView, StoreError>(GrantRevocationOutcomeView::NotFound),
        ),
{
    lemma_runs(state, c);
    lemma_none(state.grants, grant_with(id, state.tenant_id));
}

} // verus!
