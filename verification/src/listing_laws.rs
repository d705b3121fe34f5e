//! What each list shows, by what the rows say.

use crate::agents::{admin_agent, agent_of, agent_order};
use crate::approvals::{approval_of, approval_order, listed_approval, stored_strings};
use crate::audit::{
    audit_of, event_ahead, newest_first, oldest_first, read_metadata, step_in, step_of,
};
use crate::authorization::{
    listed_operation, listed_operation_approval, oldest_approval, oldest_operation,
    operation_approval_of, operation_of,
};
use crate::clock::ClockReadingView;
use crate::enrollment_laws::{lemma_tells_node, tells_node};
use crate::fleet::{
    enrollment_of, listed_enrollment, listed_node, newest_enrollment, newest_node, node_record,
};
use crate::grants::{grant_of, listed_grant, oldest_grant};
use crate::keys::rotation_node;
use crate::moment_laws::{lemma_runs, runs};
use crate::operators::{every_operator, operator_of, operator_order};
use crate::paging_laws::{lemma_place_order, texts_are_strictly_ordered};
use crate::policy::{active_node_of, node_id_of, text_order};
use crate::records::{
    AdminAgentRecordView, ApprovalRecordView, AuditRecordView, EnrollmentRecordView,
    GrantRecordView, LocalOperatorView, NodeRecordView, OperationApprovalRecordView,
    OperationRecordView, WorkloadRecordView,
};
use crate::relation::{ordered, page, selected};
use crate::relation_laws::{
    lemma_filter_members, ordered_is_a_sorted_permutation, sorted, strict_weak_order, unique,
};
use crate::store::StoreView;
use crate::tables::{
    AgentRowView, ApprovalRowView, AuditRowView, EnrollmentRowView, GrantRowView,
    LifecycleRowView, NodeRowView, OperationApprovalRowView, OperationRowView, OperatorRowView,
    WorkloadRowView,
};
use crate::text::text_before;
use crate::workloads::{listed_workload, newest_workload, workload_of};
use vstd::prelude::*;

verus! {

/// Whether a value is what is shown of a wanted row.
pub open spec fn comes_from<V, W>(
    rows: Seq<V>,
    wanted: spec_fn(V) -> bool,
    shown: spec_fn(V) -> W,
    value: W,
) -> bool {
    exists|i: int| 0 <= i < rows.len() && wanted(#[trigger] rows[i]) && shown(rows[i]) == value
}

/// Whether a list shows the wanted rows of a table: in order, each as often as it is
/// stored, all of them where they are no more than the most that is shown, and else
/// that many of which no other one comes before any.
pub open spec fn shows_rows<V, W>(
    list: Seq<W>,
    rows: Seq<V>,
    wanted: spec_fn(V) -> bool,
    shown: spec_fn(V) -> W,
    before: spec_fn(W, W) -> bool,
    most: int,
) -> bool {
    &&& sorted(list, before)
    &&& list.len() == if rows.filter(wanted).len() <= most {
        rows.filter(wanted).len() as int
    } else {
        most
    }
    &&& forall|k: int|
        0 <= k < list.len() ==> comes_from(rows, wanted, shown, #[trigger] list[k])
    &&& forall|i: int|
        0 <= i < rows.len() && wanted(#[trigger] rows[i]) ==> list.contains(shown(rows[i])) || (
        list.len() == most && forall|k: int|
            0 <= k < list.len() ==> !before(shown(rows[i]), #[trigger] list[k]))
}

/// A page of the selected rows in order shows them.
pub(crate) proof fn lemma_page_shows<V, W>(
    rows: Seq<V>,
    wanted: spec_fn(V) -> bool,
    shown: spec_fn(V) -> W,
    before: spec_fn(W, W) -> bool,
    most: int,
)
    requires
        strict_weak_order(before),
        most >= 0,
    ensures
        shows_rows(
            page(ordered(selected(rows, wanted, shown), before), most),
            rows,
            wanted,
            shown,
            before,
            most,
        ),
{
    broadcast use vstd::seq_lib::group_to_multiset_ensures;

    let hits = rows.filter(wanted);
    let picked = selected(rows, wanted, shown);
    let whole = ordered(picked, before);
    let list = page(whole, most);
    ordered_is_a_sorted_permutation(picked, before);
    lemma_filter_members(rows, wanted);
    assert(whole.len() == picked.len()) by {
        assert(whole.to_multiset().len() == picked.to_multiset().len());
    }
    assert(list.len() == if hits.len() <= most {
        hits.len() as int
    } else {
        most
    });
    assert(picked.len() == hits.len());
    assert forall|k: int| 0 <= k < list.len() implies comes_from(
        rows,
        wanted,
        shown,
        #[trigger] list[k],
    ) by {
        assert(list[k] == whole[k]);
        assert(whole.contains(whole[k]));
        assert(picked.to_multiset().contains(list[k]));
        assert(picked.contains(list[k]));
        let j = choose|j: int| 0 <= j < picked.len() && picked[j] == list[k];
        assert(hits.contains(hits[j]));
        let i = choose|i: int| 0 <= i < rows.len() && rows[i] == hits[j];
        assert(wanted(rows[i]) && shown(rows[i]) == list[k]);
    }
    assert forall|i: int| 0 <= i < rows.len() && wanted(#[trigger] rows[i]) implies list.contains(
        shown(rows[i]),
    ) || (list.len() == most && forall|k: int|
        0 <= k < list.len() ==> !before(shown(rows[i]), #[trigger] list[k])) by {
        let w = shown(rows[i]);
        assert(rows.contains(rows[i]));
        assert(hits.contains(rows[i]));
        let j = choose|j: int| 0 <= j < hits.len() && hits[j] == rows[i];
        assert(picked[j] == w);
        assert(picked.contains(w));
        assert(whole.to_multiset().contains(w));
        assert(whole.contains(w));
        let m = choose|m: int| 0 <= m < whole.len() && whole[m] == w;
        if m < list.len() {
            assert(list[m] == w);
        } else {
            assert forall|k: int| 0 <= k < list.len() implies !before(w, #[trigger] list[k]) by {
                assert(!before(whole[m], whole[k]));
            }
        }
    }
    assert(sorted(list, before)) by {
        assert forall|i: int, j: int| 0 <= i < j < list.len() implies !before(
            #[trigger] list[j],
            #[trigger] list[i],
        ) by {
            assert(!before(whole[j], whole[i]));
        }
    }
}

/// How many rows a page holds at most: what is asked for, but one at least and no more
/// than the largest page.
pub open spec fn most_of(limit: u32, largest: int) -> int {
    if limit == 0 {
        1
    } else if limit > largest {
        largest
    } else {
        limit as int
    }
}

/// Whether a place in time comes before another one; the identifiers decide where the
/// times are the same.
pub open spec fn earlier(a_ms: i64, a_id: Seq<char>, b_ms: i64, b_id: Seq<char>) -> bool {
    a_ms < b_ms || (a_ms == b_ms && text_before(a_id, b_id))
}

/// Whether a place in time comes before a cursor; every one does where there is none.
pub open spec fn before_cursor(cursor: Option<(i64, Seq<char>)>, at_ms: i64, id: Seq<char>) -> bool {
    match cursor {
        Some((cursor_ms, cursor_id)) => earlier(at_ms, id, cursor_ms, cursor_id),
        None => true,
    }
}

/// Whether a place in time comes behind a cursor; every one does where there is none.
pub open spec fn behind_cursor(cursor: Option<(i64, Seq<char>)>, at_ms: i64, id: Seq<char>) -> bool {
    match cursor {
        Some((cursor_ms, cursor_id)) => earlier(cursor_ms, cursor_id, at_ms, id),
        None => true,
    }
}

/// Whether a filter that may be left out takes a value; left out, or empty, it takes
/// every one.
pub open spec fn takes(wanted: Option<Seq<char>>, value: Seq<char>) -> bool {
    wanted is None || wanted->0.len() == 0 || wanted->0 == value
}

/// The selected rows in order, all of them, show them.
proof fn lemma_whole_shows<V, W>(
    rows: Seq<V>,
    wanted: spec_fn(V) -> bool,
    shown: spec_fn(V) -> W,
    before: spec_fn(W, W) -> bool,
)
    requires
        strict_weak_order(before),
    ensures
        shows_rows(
            ordered(selected(rows, wanted, shown), before),
            rows,
            wanted,
            shown,
            before,
            rows.filter(wanted).len() as int,
        ),
{
    broadcast use vstd::seq_lib::group_to_multiset_ensures;

    let picked = selected(rows, wanted, shown);
    let whole = ordered(picked, before);
    let most = rows.filter(wanted).len() as int;
    lemma_page_shows(rows, wanted, shown, before, most);
    ordered_is_a_sorted_permutation(picked, before);
    assert(whole.to_multiset().len() == picked.to_multiset().len());
    assert(page(whole, most) == whole);
}

/// An order by two texts, the second of which decides where the first are the same, is
/// strict.
proof fn lemma_pair_order<W>(
    before: spec_fn(W, W) -> bool,
    pair: spec_fn(W) -> (Seq<char>, Seq<char>),
)
    requires
        forall|a: W, b: W| #[trigger]
            before(a, b) == (text_before(pair(a).0, pair(b).0) || (pair(a).0 == pair(b).0
                && text_before(pair(a).1, pair(b).1))),
    ensures
        strict_weak_order(before),
{
    assert forall|a: W| !#[trigger] before(a, a) by {
        texts_are_strictly_ordered(pair(a).0, pair(a).0, pair(a).0);
        texts_are_strictly_ordered(pair(a).1, pair(a).1, pair(a).1);
    }
    assert forall|a: W, b: W, c: W|
        #![trigger before(a, b), before(b, c)]
        before(a, b) && before(b, c) implies before(a, c) by {
        texts_are_strictly_ordered(pair(a).0, pair(b).0, pair(c).0);
        texts_are_strictly_ordered(pair(a).1, pair(b).1, pair(c).1);
    }
    assert forall|a: W, b: W, c: W|
        #![trigger before(a, b), before(b, c)]
        !before(a, b) && !before(b, c) implies !before(a, c) by {
        texts_are_strictly_ordered(pair(a).0, pair(b).0, pair(c).0);
        texts_are_strictly_ordered(pair(b).0, pair(a).0, pair(c).0);
        texts_are_strictly_ordered(pair(c).0, pair(b).0, pair(a).0);
        texts_are_strictly_ordered(pair(a).1, pair(b).1, pair(c).1);
        texts_are_strictly_ordered(pair(b).1, pair(a).1, pair(c).1);
        texts_are_strictly_ordered(pair(c).1, pair(b).1, pair(a).1);
    }
}

/// The workloads of the tenant are listed from the newest on, those of one node where it is
/// named, before the cursor, a hundred and one at most.
pub proof fn workloads_are_listed_newest_first(
    state: StoreView,
    c: ClockReadingView,
    node: Option<Seq<char>>,
    limit: u32,
    cursor: Option<(i64, Seq<char>)>,
)
    requires
        runs(state, c),
    ensures
        ({
            let (after, reply) = state.list_workloads(c, node, limit, cursor);
            &&& after == state.checkpoint_clock(c).0
            &&& reply is Ok
            &&& shows_rows(
                reply->Ok_0,
                state.workloads,
                |row: WorkloadRowView|
                    row.tenant_id == state.tenant_id
                        && (node is None || node->0 == row.record.node_id)
                            && before_cursor(cursor, row.record.created_at_ms, row.record.id),
                |row: WorkloadRowView| row.record,
                |a: WorkloadRecordView, b: WorkloadRecordView|
                    earlier(b.created_at_ms, b.id, a.created_at_ms, a.id),
                most_of(limit, 101),
            )
        }),
{
    lemma_runs(state, c);
    let wanted = |row: WorkloadRowView|
        row.tenant_id == state.tenant_id && (node is None || node->0 == row.record.node_id)
            && before_cursor(cursor, row.record.created_at_ms, row.record.id);
    let shown = |row: WorkloadRowView| row.record;
    let before = |a: WorkloadRecordView, b: WorkloadRecordView|
        earlier(b.created_at_ms, b.id, a.created_at_ms, a.id);
    assert(listed_workload(state.tenant_id, node, cursor) =~= wanted);
    assert(workload_of() =~= shown);
    assert(newest_workload() =~= before);
    lemma_place_order(before, |a: WorkloadRecordView| (a.created_at_ms, a.id));
    lemma_page_shows(state.workloads, wanted, shown, before, most_of(limit, 101));
}

/// The enrollments of the tenant are listed from the newest on, before the cursor, a
/// hundred at most.
pub proof fn enrollments_are_listed_newest_first(
    state: StoreView,
    c: ClockReadingView,
    limit: u32,
    cursor: Option<(i64, Seq<char>)>,
)
    requires
        runs(state, c),
    ensures
        ({
            let (after, reply) = state.list_enrollments(c, limit, cursor);
            &&& after == state.checkpoint_clock(c).0
            &&& reply is Ok
            &&& shows_rows(
                reply->Ok_0,
                state.enrollment_requests,
                |row: EnrollmentRowView|
                    row.tenant_id == state.tenant_id
                        && before_cursor(cursor, row.record.created_at_ms, row.record.id),
                |row: EnrollmentRowView| row.record,
                |a: EnrollmentRecordView, b: EnrollmentRecordView|
                    earlier(b.created_at_ms, b.id, a.created_at_ms, a.id),
                most_of(limit, 100),
            )
        }),
{
    lemma_runs(state, c);
    let wanted = |row: EnrollmentRowView|
        row.tenant_id == state.tenant_id
            && before_cursor(cursor, row.record.created_at_ms, row.record.id);
    let shown = |row: EnrollmentRowView| row.record;
    let before = |a: EnrollmentRecordView, b: EnrollmentRecordView|
        earlier(b.created_at_ms, b.id, a.created_at_ms, a.id);
    assert(listed_enrollment(state.tenant_id, cursor) =~= wanted);
    assert(enrollment_of() =~= shown);
    assert(newest_enrollment() =~= before);
    lemma_place_order(before, |a: EnrollmentRecordView| (a.created_at_ms, a.id));
    lemma_page_shows(state.enrollment_requests, wanted, shown, before, most_of(limit, 100));
}

/// The nodes of the tenant are listed from the newest on, before the cursor, a hundred at
/// most, and each one is told rightly.
pub proof fn nodes_are_listed_newest_first(
    state: StoreView,
    c: ClockReadingView,
    limit: u32,
    cursor: Option<(i64, Seq<char>)>,
)
    requires
        runs(state, c),
        unique(state.node_key_rotations, rotation_node()),
    ensures
        ({
            let (after, reply) = state.list_nodes(c, limit, cursor);
            &&& after == state.checkpoint_clock(c).0
            &&& reply is Ok
            &&& shows_rows(
                reply->Ok_0,
                state.nodes,
                |row: NodeRowView|
                    row.tenant_id == state.tenant_id
                        && before_cursor(cursor, row.created_at_ms, row.id),
                node_record(state.node_revocation_queue, state.node_key_rotations),
                |a: NodeRecordView, b: NodeRecordView|
                    earlier(b.created_at_ms, b.id, a.created_at_ms, a.id),
                most_of(limit, 100),
            )
            &&& forall|q: int|
                0 <= q < state.nodes.len() ==> tells_node(
                    node_record(state.node_revocation_queue, state.node_key_rotations)(
                        #[trigger] state.nodes[q],
                    ),
                    state.nodes[q],
                    state.node_revocation_queue,
                    state.node_key_rotations,
                )
        }),
{
    lemma_runs(state, c);
    let wanted = |row: NodeRowView|
        row.tenant_id == state.tenant_id && before_cursor(cursor, row.created_at_ms, row.id);
    let shown = node_record(state.node_revocation_queue, state.node_key_rotations);
    let before = |a: NodeRecordView, b: NodeRecordView|
        earlier(b.created_at_ms, b.id, a.created_at_ms, a.id);
    assert(listed_node(state.tenant_id, cursor) =~= wanted);
    assert(newest_node() =~= before);
    lemma_place_order(before, |a: NodeRecordView| (a.created_at_ms, a.id));
    lemma_page_shows(state.nodes, wanted, shown, before, most_of(limit, 100));
    assert forall|q: int| 0 <= q < state.nodes.len() implies tells_node(
        shown(#[trigger] state.nodes[q]),
        state.nodes[q],
        state.node_revocation_queue,
        state.node_key_rotations,
    ) by {
        lemma_tells_node(state.nodes[q], state.node_revocation_queue, state.node_key_rotations);
    }
}

/// The operations of the tenant are listed from the oldest on, those with a status where
/// one is named, behind the cursor, a hundred and one at most.
pub proof fn operations_are_listed_oldest_first(
    state: StoreView,
    c: ClockReadingView,
    status: Option<Seq<char>>,
    cursor: Option<(i64, Seq<char>)>,
    limit: u32,
)
    requires
        runs(state, c),
    ensures
        ({
            let (after, reply) = state.list_operations(c, status, cursor, limit);
            &&& after == state.checkpoint_clock(c).0
            &&& reply is Ok
            &&& shows_rows(
                reply->Ok_0,
                state.operations,
                |row: OperationRowView|
                    row.tenant_id == state.tenant_id && takes(status, row.record.status)
                        && behind_cursor(cursor, row.record.created_at_ms, row.record.id),
                |row: OperationRowView| row.record,
                |a: OperationRecordView, b: OperationRecordView|
                    earlier(a.created_at_ms, a.id, b.created_at_ms, b.id),
                most_of(limit, 101),
            )
        }),
{
    lemma_runs(state, c);
    let wanted = |row: OperationRowView|
        row.tenant_id == state.tenant_id && takes(status, row.record.status)
            && behind_cursor(cursor, row.record.created_at_ms, row.record.id);
    let shown = |row: OperationRowView| row.record;
    let before = |a: OperationRecordView, b: OperationRecordView|
        earlier(a.created_at_ms, a.id, b.created_at_ms, b.id);
    assert(
        listed_operation(state.tenant_id, crate::authorization::wanted_status(status), cursor) =~= wanted
    );
    assert(operation_of() =~= shown);
    assert(oldest_operation() =~= before);
    lemma_place_order(before, |a: OperationRecordView| (a.created_at_ms, a.id));
    lemma_page_shows(state.operations, wanted, shown, before, most_of(limit, 101));
}

/// The approvals of operations are listed from the oldest on, those with a status where
/// one is named, behind the cursor, a hundred and one at most. One that is pending is
/// listed only until its deadline.
pub proof fn operation_approvals_are_listed_oldest_first(
    state: StoreView,
    c: ClockReadingView,
    status: Option<Seq<char>>,
    cursor: Option<(i64, Seq<char>)>,
    limit: u32,
)
    requires
        runs(state, c),
    ensures
        ({
            let (after, reply) = state.list_operation_approvals(c, status, cursor, limit);
            &&& after == state.checkpoint_clock(c).0
            &&& reply is Ok
            &&& shows_rows(
                reply->Ok_0,
                state.operation_approvals,
                |row: OperationApprovalRowView|
                    row.tenant_id == state.tenant_id && takes(status, row.record.status)
                        && behind_cursor(cursor, row.record.created_at_ms, row.record.id)
                            && (row.record.status == "pending"@
                                ==> row.record.expires_at_ms > c.now_ms),
                |row: OperationApprovalRowView| row.record,
                |a: OperationApprovalRecordView, b: OperationApprovalRecordView|
                    earlier(a.created_at_ms, a.id, b.created_at_ms, b.id),
                most_of(limit, 101),
            )
        }),
{
    lemma_runs(state, c);
    let wanted = |row: OperationApprovalRowView|
        row.tenant_id == state.tenant_id && takes(status, row.record.status)
            && behind_cursor(cursor, row.record.created_at_ms, row.record.id)
                && (row.record.status == "pending"@ ==> row.record.expires_at_ms > c.now_ms);
    let shown = |row: OperationApprovalRowView| row.record;
    let before = |a: OperationApprovalRecordView, b: OperationApprovalRecordView|
        earlier(a.created_at_ms, a.id, b.created_at_ms, b.id);
    assert(
        listed_operation_approval(state.tenant_id, crate::authorization::wanted_status(status), cursor, Some(c.now_ms)) =~= wanted
    );
    assert(operation_approval_of() =~= shown);
    assert(oldest_approval() =~= before);
    lemma_place_order(before, |a: OperationApprovalRecordView| (a.created_at_ms, a.id));
    lemma_page_shows(state.operation_approvals, wanted, shown, before, most_of(limit, 101));
}

/// The grants of the tenant are listed from the oldest on, those of a node or with a
/// status where one is named, behind the cursor, a hundred and one at most.
pub proof fn grants_are_listed_oldest_first(
    state: StoreView,
    c: ClockReadingView,
    node: Option<Seq<char>>,
    status: Option<Seq<char>>,
    cursor: Option<(i64, Seq<char>)>,
    limit: u32,
)
    requires
        runs(state, c),
    ensures
        ({
            let (after, reply) = state.list_grants(c, node, status, cursor, limit);
            &&& after == state.checkpoint_clock(c).0
            &&& reply is Ok
            &&& shows_rows(
                reply->Ok_0,
                state.grants,
                |row: GrantRowView|
                    row.tenant_id == state.tenant_id && takes(node, row.record.node_id)
                        && takes(status, row.record.status)
                            && behind_cursor(cursor, row.record.created_at_ms, row.record.id),
                |row: GrantRowView| row.record,
                |a: GrantRecordView, b: GrantRecordView|
                    earlier(a.created_at_ms, a.id, b.created_at_ms, b.id),
                most_of(limit, 101),
            )
        }),
{
    lemma_runs(state, c);
    let wanted = |row: GrantRowView|
        row.tenant_id == state.tenant_id && takes(node, row.record.node_id)
            && takes(status, row.record.status)
                && behind_cursor(cursor, row.record.created_at_ms, row.record.id);
    let shown = |row: GrantRowView| row.record;
    let before = |a: GrantRecordView, b: GrantRecordView|
        earlier(a.created_at_ms, a.id, b.created_at_ms, b.id);
    assert(
        listed_grant(state.tenant_id, crate::authorization::wanted_status(node), crate::authorization::wanted_status(status), cursor) =~= wanted
    );
    assert(grant_of() =~= shown);
    assert(oldest_grant() =~= before);
    lemma_place_order(before, |a: GrantRecordView| (a.created_at_ms, a.id));
    lemma_page_shows(state.grants, wanted, shown, before, most_of(limit, 101));
}

/// The approvals of the tenant are listed from the oldest on, those with a status where
/// one is named, behind the cursor, a hundred and one at most. One that is pending is
/// listed only until its deadline.
pub proof fn approvals_are_listed_oldest_first(
    state: StoreView,
    c: ClockReadingView,
    status: Option<Seq<char>>,
    cursor: Option<(i64, Seq<char>)>,
    limit: u32,
)
    requires
        runs(state, c),
    ensures
        ({
            let (after, reply) = state.list_approvals(c, status, cursor, limit);
            &&& after == state.checkpoint_clock(c).0
            &&& reply is Ok
            &&& shows_rows(
                reply->Ok_0,
                state.approvals,
                |row: ApprovalRowView|
                    row.tenant_id == state.tenant_id && takes(status, row.status)
                        && behind_cursor(cursor, row.created_at_ms, row.reference)
                            && (row.status == "pending"@ ==> row.expires_at_ms > c.now_ms),
                |row: ApprovalRowView| ApprovalRecordView {
            approval_reference: row.reference,
            requester_id: row.requester_agent_id,
            workspace_id: row.tenant_id,
            secret_name: row.secret_name,
            purpose: row.purpose,
            fulfiller_hint: row.fulfiller_hint,
            rule_id: row.rule_id,
            reason: row.reason,
            requester_ring: row.requester_ring,
            fulfiller_ring: row.fulfiller_ring,
            approver_ids: stored_strings(row.approver_ids_json),
            approver_rings: stored_strings(row.approver_rings_json),
            status: row.status,
            created_at_ms: row.created_at_ms,
            expires_at_ms: row.expires_at_ms,
            decided_at_ms: row.decided_at_ms,
            decided_by: row.decided_by,
        },
                |a: ApprovalRecordView, b: ApprovalRecordView|
                    earlier(
                        a.created_at_ms, a.approval_reference, b.created_at_ms, b.approval_reference,
                    ),
                most_of(limit, 101),
            )
        }),
{
    lemma_runs(state, c);
    let wanted = |row: ApprovalRowView|
        row.tenant_id == state.tenant_id && takes(status, row.status)
            && behind_cursor(cursor, row.created_at_ms, row.reference)
                && (row.status == "pending"@ ==> row.expires_at_ms > c.now_ms);
    let shown = |row: ApprovalRowView| ApprovalRecordView {
            approval_reference: row.reference,
            requester_id: row.requester_agent_id,
            workspace_id: row.tenant_id,
            secret_name: row.secret_name,
            purpose: row.purpose,
            fulfiller_hint: row.fulfiller_hint,
            rule_id: row.rule_id,
            reason: row.reason,
            requester_ring: row.requester_ring,
            fulfiller_ring: row.fulfiller_ring,
            approver_ids: stored_strings(row.approver_ids_json),
            approver_rings: stored_strings(row.approver_rings_json),
            status: row.status,
            created_at_ms: row.created_at_ms,
            expires_at_ms: row.expires_at_ms,
            decided_at_ms: row.decided_at_ms,
            decided_by: row.decided_by,
        };
    let before = |a: ApprovalRecordView, b: ApprovalRecordView|
        earlier(a.created_at_ms, a.approval_reference, b.created_at_ms, b.approval_reference);
    assert(
        listed_approval(state.tenant_id, crate::authorization::wanted_status(status), cursor, Some(c.now_ms)) =~= wanted
    );
    assert(approval_of() =~= shown);
    assert(approval_order() =~= before);
    lemma_place_order(before, |a: ApprovalRecordView| (a.created_at_ms, a.approval_reference));
    lemma_page_shows(state.approvals, wanted, shown, before, most_of(limit, 101));
}

/// The steps of an exchange of the tenant are listed from the oldest on, two hundred at
/// most.
pub proof fn the_steps_of_an_exchange_are_listed_oldest_first(
    state: StoreView,
    c: ClockReadingView,
    exchange: Seq<char>,
    limit: u32,
)
    requires
        runs(state, c),
    ensures
        ({
            let (after, reply) = state.list_exchange_lifecycle(c, exchange, limit);
            &&& after == state.checkpoint_clock(c).0
            &&& reply is Ok
            &&& shows_rows(
                reply->Ok_0,
                state.exchange_lifecycle,
                |row: LifecycleRowView|
                    row.tenant_id == state.tenant_id && row.exchange_id == Some(exchange),
                |row: LifecycleRowView| AuditRecordView {
            id: row.id,
            workspace_id: row.tenant_id,
            event_type: row.event,
            actor_id: row.actor_id,
            actor_type: "local"@,
            resource_id: Some(exchange),
            metadata: read_metadata(row.metadata_json),
            created_at_ms: row.created_at_ms,
        },
                |a: AuditRecordView, b: AuditRecordView|
                    earlier(a.created_at_ms, a.id, b.created_at_ms, b.id),
                most_of(limit, 200),
            )
        }),
{
    lemma_runs(state, c);
    let wanted = |row: LifecycleRowView|
        row.tenant_id == state.tenant_id && row.exchange_id == Some(exchange);
    let shown = |row: LifecycleRowView| AuditRecordView {
            id: row.id,
            workspace_id: row.tenant_id,
            event_type: row.event,
            actor_id: row.actor_id,
            actor_type: "local"@,
            resource_id: Some(exchange),
            metadata: read_metadata(row.metadata_json),
            created_at_ms: row.created_at_ms,
        };
    let before = |a: AuditRecordView, b: AuditRecordView|
        earlier(a.created_at_ms, a.id, b.created_at_ms, b.id);
    assert(step_in(state.tenant_id, exchange) =~= wanted);
    assert(step_of(exchange) =~= shown);
    assert(oldest_first() =~= before);
    lemma_place_order(before, |a: AuditRecordView| (a.created_at_ms, a.id));
    lemma_page_shows(state.exchange_lifecycle, wanted, shown, before, most_of(limit, 200));
}

/// The audit of the tenant is listed from the newest event on, before the cursor, as many
/// events as the page holds.
pub proof fn the_audit_is_listed_newest_first(
    state: StoreView,
    c: ClockReadingView,
    cursor: Option<(i64, Seq<char>)>,
    size: int,
)
    requires
        runs(state, c),
        size >= 0,
    ensures
        ({
            let (after, reply) = state.audit_page(c, cursor, size);
            &&& after == state.checkpoint_clock(c).0
            &&& reply is Ok
            &&& shows_rows(
                reply->Ok_0,
                state.audit_events,
                |row: AuditRowView|
                    row.tenant_id == state.tenant_id
                        && before_cursor(cursor, row.created_at_ms, row.id),
                |row: AuditRowView| AuditRecordView {
            id: row.id,
            workspace_id: row.tenant_id,
            event_type: row.action,
            actor_id: row.actor_id,
            actor_type: row.actor_type,
            resource_id: row.target_id,
            metadata: read_metadata(row.metadata_json),
            created_at_ms: row.created_at_ms,
        },
                |a: AuditRecordView, b: AuditRecordView|
                    earlier(b.created_at_ms, b.id, a.created_at_ms, a.id),
                size,
            )
        }),
{
    lemma_runs(state, c);
    let wanted = |row: AuditRowView|
        row.tenant_id == state.tenant_id && before_cursor(cursor, row.created_at_ms, row.id);
    let shown = |row: AuditRowView| AuditRecordView {
            id: row.id,
            workspace_id: row.tenant_id,
            event_type: row.action,
            actor_id: row.actor_id,
            actor_type: row.actor_type,
            resource_id: row.target_id,
            metadata: read_metadata(row.metadata_json),
            created_at_ms: row.created_at_ms,
        };
    let before = |a: AuditRecordView, b: AuditRecordView|
        earlier(b.created_at_ms, b.id, a.created_at_ms, a.id);
    assert(event_ahead(state.tenant_id, cursor) =~= wanted);
    assert(audit_of() =~= shown);
    assert(newest_first() =~= before);
    lemma_place_order(before, |a: AuditRecordView| (a.created_at_ms, a.id));
    lemma_page_shows(state.audit_events, wanted, shown, before, size);
}

/// The agents of the tenant are listed without their keys, by name and then by
/// identifier, all of them.
pub proof fn agents_are_listed_by_name(
    state: StoreView,
    c: ClockReadingView,
)
    requires
        runs(state, c),
    ensures
        ({
            let (after, reply) = state.list_admin_agents(c);
            &&& after == state.checkpoint_clock(c).0
            &&& reply is Ok
            &&& shows_rows(
                reply->Ok_0,
                state.agents,
                |row: AgentRowView| row.tenant_id == state.tenant_id,
                |row: AgentRowView| AdminAgentRecordView {
            id: row.credential.id,
            agent_id: row.credential.agent_id,
            name: row.credential.name,
            status: row.credential.status,
            created_at_ms: row.credential.created_at_ms,
            revoked_at_ms: row.credential.revoked_at_ms,
        },
                |a: AdminAgentRecordView, b: AdminAgentRecordView|
                    text_before(a.agent_id, b.agent_id) || (a.agent_id == b.agent_id
                        && text_before(a.id, b.id)),
                state.agents.filter(|row: AgentRowView|
                    row.tenant_id == state.tenant_id).len() as int,
            )
        }),
{
    lemma_runs(state, c);
    let wanted = |row: AgentRowView| row.tenant_id == state.tenant_id;
    let shown = |row: AgentRowView| AdminAgentRecordView {
            id: row.credential.id,
            agent_id: row.credential.agent_id,
            name: row.credential.name,
            status: row.credential.status,
            created_at_ms: row.credential.created_at_ms,
            revoked_at_ms: row.credential.revoked_at_ms,
        };
    let before = |a: AdminAgentRecordView, b: AdminAgentRecordView|
        text_before(a.agent_id, b.agent_id) || (a.agent_id == b.agent_id
            && text_before(a.id, b.id));
    assert(agent_of(state.tenant_id) =~= wanted);
    assert(admin_agent() =~= shown);
    assert(agent_order() =~= before);
    lemma_pair_order(before, |a: AdminAgentRecordView| (a.agent_id, a.id));
    lemma_whole_shows(state.agents, wanted, shown, before);
}

/// The operators are listed by name and then by identifier, all of them.
pub proof fn operators_are_listed_by_name(
    state: StoreView,
    c: ClockReadingView,
)
    requires
        runs(state, c),
    ensures
        ({
            let (after, reply) = state.list_local_operators(c);
            &&& after == state.checkpoint_clock(c).0
            &&& reply is Ok
            &&& shows_rows(
                reply->Ok_0,
                state.operators,
                |row: OperatorRowView| true,
                |row: OperatorRowView| row.operator,
                |a: LocalOperatorView, b: LocalOperatorView|
                    text_before(a.username, b.username) || (a.username == b.username
                        && text_before(a.id, b.id)),
                state.operators.filter(|row: OperatorRowView| true).len() as int,
            )
        }),
{
    lemma_runs(state, c);
    let wanted = |row: OperatorRowView| true;
    let shown = |row: OperatorRowView| row.operator;
    let before = |a: LocalOperatorView, b: LocalOperatorView|
        text_before(a.username, b.username) || (a.username == b.username
            && text_before(a.id, b.id));
    assert(every_operator() =~= wanted);
    assert(operator_of() =~= shown);
    assert(operator_order() =~= before);
    lemma_pair_order(before, |a: LocalOperatorView| (a.username, a.id));
    lemma_whole_shows(state.operators, wanted, shown, before);
}

/// The identifiers of the active nodes of the tenant are listed in order, all of them.
pub proof fn active_nodes_are_listed_in_order(
    state: StoreView,
    c: ClockReadingView,
)
    requires
        runs(state, c),
    ensures
        ({
            let (after, reply) = state.active_node_ids(c);
            &&& after == state.checkpoint_clock(c).0
            &&& reply is Ok
            &&& shows_rows(
                reply->Ok_0,
                state.nodes,
                |row: NodeRowView| row.tenant_id == state.tenant_id && row.status == "active"@,
                |row: NodeRowView| row.id,
                |a: Seq<char>, b: Seq<char>| text_before(a, b),
                state.nodes.filter(|row: NodeRowView|
                    row.tenant_id == state.tenant_id && row.status == "active"@).len() as int,
            )
        }),
{
    lemma_runs(state, c);
    let wanted = |row: NodeRowView| row.tenant_id == state.tenant_id && row.status == "active"@;
    let shown = |row: NodeRowView| row.id;
    let before = |a: Seq<char>, b: Seq<char>| text_before(a, b);
    assert(active_node_of(state.tenant_id) =~= wanted);
    assert(node_id_of() =~= shown);
    assert(text_order() =~= before);
    assert(!text_before(Seq::<char>::empty(), Seq::<char>::empty()));
    lemma_pair_order(before, |a: Seq<char>| (a, Seq::<char>::empty()));
    lemma_whole_shows(state.nodes, wanted, shown, before);
}

/// A page holds what is asked for, but one row at least and no more than the largest.
pub proof fn a_page_holds_what_is_asked_for_within_its_bounds(limit: u32, largest: u32)
    requires
        largest >= 1,
    ensures
        crate::limits::page_size(limit, largest) == most_of(limit, largest as int),
{
}

/// A text comes before another one exactly where it is a proper front of it, or has the
/// lower character at the first place at which they differ.
pub proof fn a_text_comes_before_where_it_first_differs(a: Seq<char>, b: Seq<char>)
    ensures
        text_before(a, b) <==> exists|k: int|
            0 <= k < b.len() && k <= a.len() && #[trigger] a.take(k) == b.take(k)
                && (k == a.len() || (
            a[k] as u32) < (b[k] as u32)),
    decreases a.len(),
{
    if b.len() > 0 {
        if a.len() == 0 {
            assert(a.take(0) =~= b.take(0));
        } else if a[0] != b[0] {
            if text_before(a, b) {
                assert(a.take(0) =~= b.take(0));
            }
            assert forall|k: int| 0 < k < b.len() && k <= a.len() implies #[trigger] a.take(k)
                != b.take(k) by {
                assert(a.take(k)[0] == a[0] && b.take(k)[0] == b[0]);
            }
        } else {
            let x = a.skip(1);
            let y = b.skip(1);
            a_text_comes_before_where_it_first_differs(x, y);
            if text_before(x, y) {
                let k = choose|k: int|
                    0 <= k < y.len() && k <= x.len() && #[trigger] x.take(k) == y.take(k) && (k
                        == x.len() || (x[k] as u32) < (y[k] as u32));
                assert forall|j: int| 0 <= j < k + 1 implies a[j] == b[j] by {
                    if j > 0 {
                        assert(x.take(k)[j - 1] == y.take(k)[j - 1]);
                    }
                }
                assert(a.take(k + 1) =~= b.take(k + 1));
            }
            if exists|k: int|
                0 <= k < b.len() && k <= a.len() && #[trigger] a.take(k) == b.take(k) && (k
                    == a.len() || (a[k] as u32) < (b[k] as u32)) {
                let k = choose|k: int|
                    0 <= k < b.len() && k <= a.len() && #[trigger] a.take(k) == b.take(k) && (k
                        == a.len() || (a[k] as u32) < (b[k] as u32));
                assert(k > 0);
                assert forall|j: int| 0 <= j < k - 1 implies x[j] == y[j] by {
                    assert(a.take(k)[j + 1] == b.take(k)[j + 1]);
                }
                assert(x.take(k - 1) =~= y.take(k - 1));
            }
        }
    }
}

} // verus!
