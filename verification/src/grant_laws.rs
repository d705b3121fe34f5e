//! What holds of grants and of the authority that nodes hold by them.

use crate::authorization::operation_with;
use crate::clock::ClockReadingView;
use crate::documents::{
    GrantIssueDraftView, NodeGrantRevocationDraftView, NodeKeyRotationDraftView,
    NodeRevocationView, Parsed, RevocationView,
};
use crate::error::StoreError;
use crate::grants::{
    draft_ids, draft_of, grant_with, group_check, operation_granted, requested_at, usable_grant,
    GrantContextView,
};
use crate::keys::{grant_id, operation_id};
use crate::node_authority::{
    active_node, active_workload_on, cancelled_operation, checked_drafts, deadline_order,
    grant_deadline, grant_expired, grant_revoked, lapsed_grant, live_grant, live_grant_with,
    node_revoked, node_with, overdue_operation, queued_revocation, rotation_of, workload_revoked,
};
use crate::operations::{is_live, reason_result, settled};
use crate::paging_laws::texts_are_strictly_ordered;
use crate::records::{GrantIssueOutcomeView, GrantRevocationOutcomeView};
use crate::relation::{any, attempted, count, first, lemma_any_counted, selected, updated};
use crate::relation_laws::{
    lemma_attempted, lemma_filter_members, lemma_first_satisfies, lemma_unique_first,
    lemma_unique_hit, lemma_unique_updated, ordered_is_a_sorted_permutation, strict_weak_order,
    unique,
};
use crate::store::StoreView;
use crate::tables::{GrantRowView, OperationRowView};
use vstd::prelude::*;

verus! {

/// A grant that a node may still use.
pub open spec fn held_grant(node: Seq<char>, tenant: Seq<char>) -> spec_fn(GrantRowView) -> bool {
    |row: GrantRowView|
        row.record.node_id == node && row.tenant_id == tenant && is_live(row.record.status)
}

/// An operation of a node that waits to be approved or granted.
pub open spec fn waiting_operation(node: Seq<char>, tenant: Seq<char>) -> spec_fn(
    OperationRowView,
) -> bool {
    |row: OperationRowView|
        row.record.node_id == node && row.tenant_id == tenant && (row.record.status
            == "requested"@ || row.record.status == "awaiting_approval"@)
}

/// The status texts differ where the proofs need it.
proof fn lemma_status_texts()
    ensures
        !is_live("revoked"@),
        !is_live("expired"@),
        "active"@ != "revoked"@,
        "cancelled"@ != "requested"@,
        "cancelled"@ != "awaiting_approval"@,
        "failed"@ != "requested"@,
        "failed"@ != "awaiting_approval"@,
        "revoked"@ != "requested"@,
        "revoked"@ != "awaiting_approval"@,
        "granted"@ != "requested"@,
        "revoked"@ != "consumed"@,
{
    reveal_strlit("revoked");
    reveal_strlit("expired");
    reveal_strlit("issued");
    reveal_strlit("delivered");
    reveal_strlit("active");
    reveal_strlit("cancelled");
    reveal_strlit("requested");
    reveal_strlit("awaiting_approval");
    reveal_strlit("failed");
    reveal_strlit("granted");
    reveal_strlit("consumed");
    assert("revoked"@.len() == 7 && "expired"@.len() == 7 && "issued"@.len() == 6);
    assert("delivered"@.len() == 9 && "active"@.len() == 6 && "failed"@.len() == 6);
    assert("cancelled"@.len() == 9 && "requested"@.len() == 9 && "granted"@.len() == 7);
    assert("awaiting_approval"@.len() == 17 && "consumed"@.len() == 8);
    assert("cancelled"@[0] == 'c' && "requested"@[0] == 'r');
}

/// Deadlines are ordered strictly by their grant.
pub(crate) proof fn lemma_deadline_order()
    ensures
        strict_weak_order(deadline_order()),
{
    let before = deadline_order();
    assert forall|a: (Seq<char>, i64)| !#[trigger] before(a, a) by {
        texts_are_strictly_ordered(a.0, a.0, a.0);
    }
    assert forall|a: (Seq<char>, i64), b: (Seq<char>, i64), c: (Seq<char>, i64)|
        #![trigger before(a, b), before(b, c)]
        before(a, b) && before(b, c) implies before(a, c) by {
        texts_are_strictly_ordered(a.0, b.0, c.0);
    }
    assert forall|a: (Seq<char>, i64), b: (Seq<char>, i64), c: (Seq<char>, i64)|
        #![trigger before(a, b), before(b, c)]
        !before(a, b) && !before(b, c) implies !before(a, c) by {
        texts_are_strictly_ordered(a.0, b.0, c.0);
        texts_are_strictly_ordered(b.0, a.0, c.0);
    }
}

/// Every live grant of a node is among those that its revocation asks for.
proof fn lemma_live_grants(state: StoreView, node: Seq<char>, now_ms: i64, i: int) -> (k: int)
    requires
        0 <= i < state.grants.len(),
        live_grant(node, state.tenant_id, now_ms)(state.grants[i]),
    ensures
        0 <= k < state.live_grants(node, now_ms).len(),
        state.live_grants(node, now_ms)[k].0 == state.grants[i].record.id,
{
    broadcast use vstd::seq_lib::group_to_multiset_ensures;

    let live = live_grant(node, state.tenant_id, now_ms);
    let picked = selected(state.grants, live, grant_deadline());
    let deadline = grant_deadline()(state.grants[i]);
    lemma_deadline_order();
    ordered_is_a_sorted_permutation(picked, deadline_order());
    lemma_filter_members(state.grants, live);
    assert(state.grants.filter(live).contains(state.grants[i]));
    let m = choose|m: int|
        0 <= m < state.grants.filter(live).len() && state.grants.filter(live)[m]
            == state.grants[i];
    assert(picked[m] == deadline);
    assert(picked.contains(deadline));
    assert(picked.to_multiset().count(deadline) > 0);
    assert(state.live_grants(node, now_ms).contains(deadline));
    choose|k: int|
        0 <= k < state.live_grants(node, now_ms).len() && state.live_grants(node, now_ms)[k]
            == deadline
}

/// Checked drafts stand in the order of the grants they revoke.
proof fn lemma_checked_drafts(
    grants: Seq<(Seq<char>, i64)>,
    drafts: Seq<NodeGrantRevocationDraftView>,
    reason: Option<Seq<char>>,
    node: Seq<char>,
    now_ms: i64,
    issuer_epoch: i64,
)
    requires
        checked_drafts(grants, drafts, reason, node, now_ms, issuer_epoch) is Ok,
    ensures
        ({
            let checked = checked_drafts(
                grants,
                drafts,
                reason,
                node,
                now_ms,
                issuer_epoch,
            )->Ok_0;
            &&& checked.len() == grants.len()
            &&& forall|k: int|
                0 <= k < grants.len() ==> (#[trigger] checked[k]).0.grant_id == grants[k].0
        }),
    decreases grants.len(),
{
    if grants.len() > 0 {
        lemma_checked_drafts(grants.drop_last(), drafts, reason, node, now_ms, issuer_epoch);
        lemma_first_satisfies(drafts, crate::node_authority::draft_for(grants.last().0));
    }
}

/// Whether two states agree on what retiring grants leaves alone.
spec fn same_frame(before: StoreView, after: StoreView) -> bool {
    after == (StoreView {
        grants: after.grants,
        operations: after.operations,
        grant_tombstones: after.grant_tombstones,
        node_inbox: after.node_inbox,
        ..before
    })
}

/// Retiring grants revokes those that the drafts name and leaves the others.
proof fn lemma_retire_grants(
    state: StoreView,
    validated: Seq<(NodeGrantRevocationDraftView, i64)>,
    node: Seq<char>,
    reason: Seq<char>,
    now_ms: i64,
)
    requires
        state.retire_grants(validated, node, reason, now_ms) is Ok,
    ensures
        ({
            let after = state.retire_grants(validated, node, reason, now_ms)->Ok_0;
            &&& same_frame(state, after)
            &&& after.grants.len() == state.grants.len()
            &&& forall|i: int|
                0 <= i < state.grants.len() ==> (#[trigger] after.grants[i]) == state.grants[i]
                    || after.grants[i] == grant_revoked(now_ms)(state.grants[i])
            &&& forall|i: int, k: int|
                0 <= i < state.grants.len() && 0 <= k < validated.len() && live_grant_with(
                    (#[trigger] validated[k]).0.grant_id,
                    node,
                    state.tenant_id,
                )(state.grants[i]) ==> !is_live((#[trigger] after.grants[i]).record.status)
        }),
    decreases validated.len(),
{
    lemma_status_texts();
    if validated.len() > 0 {
        let front = validated.drop_last();
        let last = validated.last();
        lemma_retire_grants(state, front, node, reason, now_ms);
        let mid = state.retire_grants(front, node, reason, now_ms)->Ok_0;
        let after = mid.retire_grant(last.0, last.1, node, reason, now_ms)->Ok_0;
        let hit = live_grant_with(last.0.grant_id, node, mid.tenant_id);
        assert(after.grants == updated(mid.grants, hit, grant_revoked(now_ms)));
        assert forall|i: int| 0 <= i < state.grants.len() implies (#[trigger] after.grants[i])
            == state.grants[i] || after.grants[i] == grant_revoked(now_ms)(state.grants[i]) by {
            assert(mid.grants[i] == state.grants[i] || mid.grants[i] == grant_revoked(now_ms)(
                state.grants[i],
            ));
        }
        assert forall|i: int, k: int|
            0 <= i < state.grants.len() && 0 <= k < validated.len() && live_grant_with(
                (#[trigger] validated[k]).0.grant_id,
                node,
                state.tenant_id,
            )(state.grants[i]) implies !is_live((#[trigger] after.grants[i]).record.status) by {
            if k < front.len() {
                assert(front[k] == validated[k]);
                assert(!is_live(mid.grants[i].record.status));
            } else {
                assert(mid.grants[i] == state.grants[i] || mid.grants[i] == grant_revoked(now_ms)(
                    state.grants[i],
                ));
            }
        }
    }
}

/// Retiring every live grant of a node and expiring the rest leaves it none.
proof fn lemma_grants_gone(
    state: StoreView,
    drafts: Seq<NodeGrantRevocationDraftView>,
    demanded: Option<Seq<char>>,
    node: Seq<char>,
    reason: Seq<char>,
    now_ms: i64,
)
    requires
        state.retire_node_grants(drafts, demanded, node, reason, now_ms) is Ok,
    ensures
        ({
            let retired = state.retire_node_grants(drafts, demanded, node, reason, now_ms)->Ok_0;
            &&& same_frame(state, retired)
            &&& !any(
                updated(
                    retired.grants,
                    lapsed_grant(node, state.tenant_id, now_ms),
                    grant_expired(),
                ),
                held_grant(node, state.tenant_id),
            )
        }),
{
    lemma_status_texts();
    let asked = state.live_grants(node, now_ms);
    lemma_checked_drafts(asked, drafts, demanded, node, now_ms, state.meta.issuer_epoch);
    let validated = checked_drafts(
        asked,
        drafts,
        demanded,
        node,
        now_ms,
        state.meta.issuer_epoch,
    )->Ok_0;
    lemma_retire_grants(state, validated, node, reason, now_ms);
    let retired = state.retire_grants(validated, node, reason, now_ms)->Ok_0;
    let held = held_grant(node, state.tenant_id);
    let left = updated(
        retired.grants,
        lapsed_grant(node, state.tenant_id, now_ms),
        grant_expired(),
    );
    assert forall|i: int| 0 <= i < left.len() implies !held(#[trigger] left[i]) by {
        let row = state.grants[i];
        assert(retired.grants[i] == row || retired.grants[i] == grant_revoked(now_ms)(row));
        if held(row) && row.record.expires_at_ms > now_ms {
            let k = lemma_live_grants(state, node, now_ms, i);
            assert(validated[k].0.grant_id == row.record.id);
            assert(!is_live(retired.grants[i].record.status));
        }
    }
}

/// A node that was revoked holds nothing: it is not active, no workload on it is,
/// it has no grant to use, nothing waits to be granted to it, and its revocation
/// is queued for it.
pub proof fn a_revoked_node_holds_nothing(
    state: StoreView,
    c: ClockReadingView,
    node: Seq<char>,
    revocations: Seq<NodeGrantRevocationDraftView>,
    document_json: Seq<char>,
    document: Parsed<NodeRevocationView>,
)
    requires
        any(state.nodes, node_with(node, state.tenant_id)),
        first(state.nodes, node_with(node, state.tenant_id))->0.status != "revoked"@,
        state.revoke_node(c, node, revocations, document_json, document).1 == Ok::<
            bool,
            StoreError,
        >(true),
    ensures
        ({
            let after = state.revoke_node(c, node, revocations, document_json, document).0;
            &&& !any(after.nodes, active_node(node, state.tenant_id))
            &&& !any(after.workloads, active_workload_on(node, state.tenant_id))
            &&& !any(after.grants, held_grant(node, state.tenant_id))
            &&& !any(after.operations, waiting_operation(node, state.tenant_id))
            &&& any(after.node_revocation_queue, queued_revocation(node))
        }),
{
    lemma_status_texts();
    let s = state.checkpoint_clock(c).0;
    let now_ms = s.now(c.now_ms)->0;
    lemma_any_counted(s.nodes, node_with(node, s.tenant_id));
    lemma_grants_gone(s, revocations, None, node, "operator"@, now_ms);
    let retired = s.retire_node_grants(revocations, None, node, "operator"@, now_ms)->Ok_0;
    let sent = retired.enqueue(node, document_json, Some(now_ms))->Ok_0;
    let queued = sent.queue_revocation(node, now_ms);
    let cancelled = queued.cancel_node_operations(node, "node_revoked"@, now_ms)->Ok_0;
    let failed = cancelled.fail_overdue_operations(node, now_ms)->Ok_0;
    let expired = failed.expire_node_grants(node, now_ms);
    let after = expired.strip_node(node, now_ms)->Ok_0;
    assert(expired.grants == updated(
        retired.grants,
        lapsed_grant(node, s.tenant_id, now_ms),
        grant_expired(),
    ));
    lemma_nothing_waits(queued, node, now_ms);
    lemma_stripped(expired, node, now_ms);
    if !any(sent.node_revocation_queue, queued_revocation(node)) {
        let queue = queued.node_revocation_queue;
        assert(queued_revocation(node)(queue[queue.len() - 1]));
    }
}

/// Withdrawing the authority of a node revokes it where it is active, and leaves the
/// other nodes.
pub(crate) proof fn lemma_withdrawn(
    state: StoreView,
    node: Seq<char>,
    revocations: Seq<NodeGrantRevocationDraftView>,
    document_json: Seq<char>,
    document: Parsed<NodeRevocationView>,
    now_ms: i64,
)
    requires
        state.withdraw_node(node, revocations, document_json, document, now_ms) is Ok,
    ensures
        ({
            let after = state.withdraw_node(
                node,
                revocations,
                document_json,
                document,
                now_ms,
            )->Ok_0;
            let active = active_node(node, state.tenant_id);
            &&& after.tenant_id == state.tenant_id
            &&& after.nodes.len() == state.nodes.len()
            &&& forall|i: int|
                0 <= i < state.nodes.len() ==> #[trigger] after.nodes[i] == if active(
                    state.nodes[i],
                ) {
                    node_revoked(now_ms)(state.nodes[i])->0
                } else {
                    state.nodes[i]
                }
            &&& forall|i: int|
                0 <= i < state.nodes.len() && active(#[trigger] state.nodes[i])
                    ==> node_revoked(now_ms)(state.nodes[i]) is Some
        }),
{
    lemma_grants_gone(state, revocations, None, node, "operator"@, now_ms);
    lemma_attempted(state.nodes, active_node(node, state.tenant_id), node_revoked(now_ms));
}

/// Cancelling what waits on a node, and failing what is overdue, leaves nothing
/// that waits.
proof fn lemma_nothing_waits(state: StoreView, node: Seq<char>, now_ms: i64)
    requires
        state.cancel_node_operations(node, "node_revoked"@, now_ms) is Ok,
        state.cancel_node_operations(
            node,
            "node_revoked"@,
            now_ms,
        )->Ok_0.fail_overdue_operations(node, now_ms) is Ok,
    ensures
        !any(
            state.cancel_node_operations(
                node,
                "node_revoked"@,
                now_ms,
            )->Ok_0.fail_overdue_operations(node, now_ms)->Ok_0.operations,
            waiting_operation(node, state.tenant_id),
        ),
{
    lemma_status_texts();
    let rows = state.operations;
    let cancel = cancelled_operation(rows, node, state.tenant_id);
    let settle = settled("cancelled"@, reason_result("node_revoked"@), now_ms);
    lemma_attempted(rows, cancel, settle);
    let cancelled = state.cancel_node_operations(node, "node_revoked"@, now_ms)->Ok_0;
    let overdue = overdue_operation(cancelled.grants, node, cancelled.tenant_id, now_ms);
    let fail = settled("failed"@, reason_result("expired"@), now_ms);
    lemma_attempted(cancelled.operations, overdue, fail);
    let after = cancelled.fail_overdue_operations(node, now_ms)->Ok_0.operations;
    let waiting = waiting_operation(node, state.tenant_id);
    assert forall|i: int| 0 <= i < after.len() implies !waiting(#[trigger] after[i]) by {
        if cancel(rows[i]) {
            assert(settle(rows[i]) is Some);
            assert(cancelled.operations[i] == settle(rows[i])->0);
        } else {
            assert(cancelled.operations[i] == rows[i]);
        }
        assert(!waiting(cancelled.operations[i]));
        if overdue(cancelled.operations[i]) {
            assert(fail(cancelled.operations[i]) is Some);
            assert(after[i] == fail(cancelled.operations[i])->0);
        }
    }
}

/// A node that was stripped is not active, and no workload on it is.
proof fn lemma_stripped(state: StoreView, node: Seq<char>, now_ms: i64)
    requires
        state.strip_node(node, now_ms) is Ok,
    ensures
        !any(state.strip_node(node, now_ms)->Ok_0.nodes, active_node(node, state.tenant_id)),
        !any(
            state.strip_node(node, now_ms)->Ok_0.workloads,
            active_workload_on(node, state.tenant_id),
        ),
        state.strip_node(node, now_ms)->Ok_0 == (StoreView {
            nodes: state.strip_node(node, now_ms)->Ok_0.nodes,
            workloads: state.strip_node(node, now_ms)->Ok_0.workloads,
            ..state
        }),
{
    lemma_status_texts();
    let after = state.strip_node(node, now_ms)->Ok_0;
    let on = active_workload_on(node, state.tenant_id);
    let active = active_node(node, state.tenant_id);
    lemma_attempted(state.workloads, on, workload_revoked(Some(now_ms)));
    lemma_attempted(state.nodes, active, node_revoked(now_ms));
    assert forall|i: int| 0 <= i < after.workloads.len() implies !on(
        #[trigger] after.workloads[i],
    ) by {
        if on(state.workloads[i]) {
            assert(workload_revoked(Some(now_ms))(state.workloads[i]) is Some);
        }
    }
    assert forall|i: int| 0 <= i < after.nodes.len() implies !active(#[trigger] after.nodes[i]) by {
        if active(state.nodes[i]) {
            assert(node_revoked(now_ms)(state.nodes[i]) is Some);
        }
    }
}

/// A node that is not active is not challenged, not authenticated, and no
/// challenge of it is consumed.
pub proof fn an_inactive_node_is_shut_out(
    state: StoreView,
    c: ClockReadingView,
    node: Seq<char>,
    challenge: crate::records::NodeChallengeView,
    id: Seq<char>,
    nonce_hash: Seq<char>,
    token_hash: Seq<char>,
    key_version: i64,
    issuer_epoch: i64,
    protocol_version: Seq<char>,
    capabilities_json: Seq<char>,
    capabilities_hash: Seq<char>,
    expires_at_ms: i64,
    poll: bool,
)
    requires
        !any(state.nodes, active_node(node, state.tenant_id)),
        challenge.node_id == node,
    ensures
        !(state.issue_node_challenge(
            c,
            id,
            node,
            nonce_hash,
            protocol_version,
            capabilities_json,
            capabilities_hash,
        ).1 matches Ok(Some(_))),
        state.consume_node_challenge(
            c,
            challenge,
            nonce_hash,
            id,
            token_hash,
            expires_at_ms,
        ).1 != Ok::<bool, StoreError>(true),
        state.authenticate_node_session(
            c,
            id,
            node,
            token_hash,
            key_version,
            issuer_epoch,
            protocol_version,
            poll,
        ).1 != Ok::<bool, StoreError>(true),
{
    let s = state.checkpoint_clock(c).0;
    let active = active_node(node, state.tenant_id);
    let greeted = crate::node_channel::greeted_node(
        node,
        s.tenant_id,
        protocol_version,
        capabilities_json,
    );
    let challenged = crate::node_channel::challenged_node(challenge, s.tenant_id);
    let bearer = crate::node_channel::bearer_node(
        s.node_sessions,
        s.meta.issuer_epoch == issuer_epoch,
        id,
        node,
        s.tenant_id,
        token_hash,
        key_version,
        protocol_version,
        s.now(c.now_ms),
    );
    assert(s.nodes == state.nodes && s.tenant_id == state.tenant_id);
    assert forall|i: int| 0 <= i < s.nodes.len() implies !greeted(#[trigger] s.nodes[i])
        && !challenged(s.nodes[i]) && !bearer(s.nodes[i]) by {
        assert(!active(s.nodes[i]));
    }
    assert(!any(s.nodes, greeted));
    assert(!any(s.nodes, challenged));
    assert(!any(s.nodes, bearer));
    lemma_any_counted(s.nodes, greeted);
    lemma_any_counted(s.nodes, bearer);
}

/// Staging a rotation leaves every node at its key, leaves the node no grant to
/// use, and keeps a second rotation from being staged.
pub proof fn a_staged_rotation_keeps_the_key(
    state: StoreView,
    c: ClockReadingView,
    node: Seq<char>,
    expected_key_version: i64,
    draft: NodeKeyRotationDraftView,
    later: ClockReadingView,
    second_version: i64,
    second: NodeKeyRotationDraftView,
)
    requires
        state.stage_node_key_rotation(c, node, expected_key_version, draft).1 == Ok::<
            bool,
            StoreError,
        >(true),
    ensures
        ({
            let after = state.stage_node_key_rotation(c, node, expected_key_version, draft).0;
            &&& after.nodes == state.nodes
            &&& !any(after.grants, held_grant(node, state.tenant_id))
            &&& any(after.node_key_rotations, rotation_of(node))
            &&& after.stage_node_key_rotation(later, node, second_version, second).1 != Ok::<
                bool,
                StoreError,
            >(true)
        }),
{
    let s = state.checkpoint_clock(c).0;
    let now_ms = s.now(c.now_ms)->0;
    let reason = "key_rotation"@;
    lemma_grants_gone(s, draft.grant_revocations, Some(reason), node, reason, now_ms);
    let retired = s.retire_node_grants(
        draft.grant_revocations,
        Some(reason),
        node,
        reason,
        now_ms,
    )->Ok_0;
    let after = state.stage_node_key_rotation(c, node, expected_key_version, draft).0;
    let rotations = after.node_key_rotations;
    assert(rotation_of(node)(rotations[rotations.len() - 1]));
}

/// A grant that was revoked reads as revoked, and revoking it again says so and
/// changes nothing.
pub proof fn a_revoked_grant_stays_revoked(
    state: StoreView,
    c: ClockReadingView,
    id: Seq<char>,
    reason: Seq<char>,
    envelope_json: Seq<char>,
    parsed: Parsed<RevocationView>,
    later: ClockReadingView,
    again_json: Seq<char>,
    again: Parsed<RevocationView>,
)
    requires
        unique(state.grants, grant_id()),
        state.revoke_grant(c, id, reason, envelope_json, parsed).1 matches Ok(
            GrantRevocationOutcomeView::Revoked { .. },
        ),
        ({
            let after = state.revoke_grant(c, id, reason, envelope_json, parsed).0;
            let (then, gate) = after.checkpoint_clock(later);
            gate is Ok && then.clock.last_observed_ms <= later.now_ms
        }),
    ensures
        ({
            let after = state.revoke_grant(c, id, reason, envelope_json, parsed).0;
            let (then, reply) = after.revoke_grant(later, id, reason, again_json, again);
            let read = after.grant_by_id(later, id).1;
            &&& then == after.checkpoint_clock(later).0
            &&& reply matches Ok(GrantRevocationOutcomeView::Revoked { grant_id, .. }) && grant_id
                == id
            &&& read matches Ok(Some(grant)) && grant.status == "revoked"@ && grant.id == id
        }),
{
    lemma_status_texts();
    let s = state.checkpoint_clock(c).0;
    let wanted = grant_with(id, s.tenant_id);
    lemma_first_satisfies(s.grants, wanted);
    lemma_any_counted(s.grants, wanted);
    let i = lemma_unique_first(s.grants, grant_id(), id, wanted);
    let row = s.grants[i];
    let after = state.revoke_grant(c, id, reason, envelope_json, parsed).0;
    if row.record.status != "revoked"@ {
        let now_ms = s.now(c.now_ms)->0;
        let hit = usable_grant(id, s.tenant_id);
        lemma_unique_updated(s.grants, grant_id(), hit, grant_revoked(now_ms));
        assert(after.grants == updated(s.grants, hit, grant_revoked(now_ms)));
        assert(hit(row));
        assert(after.grants[i].record.status == "revoked"@);
        lemma_settled_operation(s, after, row.record.operation_id, reason, now_ms);
    }
    lemma_unique_hit(after.grants, grant_id(), id, wanted, i);
}

/// Ending an operation leaves it to be found under its identifier.
proof fn lemma_settled_operation(
    before: StoreView,
    after: StoreView,
    id: Seq<char>,
    reason: Seq<char>,
    now_ms: i64,
)
    requires
        first(before.operations, crate::authorization::operation_taken(id)) is Some,
        attempted(
            before.operations,
            crate::grants::running_operation(id, before.tenant_id),
            settled("revoked"@, reason_result(reason), now_ms),
        ) == Some(after.operations),
    ensures
        first(after.operations, crate::authorization::operation_taken(id)) is Some,
{
    let hit = crate::grants::running_operation(id, before.tenant_id);
    let settle = settled("revoked"@, reason_result(reason), now_ms);
    let taken = crate::authorization::operation_taken(id);
    lemma_attempted(before.operations, hit, settle);
    lemma_any_counted(before.operations, taken);
    let i = choose|i: int|
        0 <= i < before.operations.len() && taken(#[trigger] before.operations[i]);
    if hit(before.operations[i]) {
        assert(settle(before.operations[i]) is Some);
    }
    assert(taken(after.operations[i]));
    lemma_any_counted(after.operations, taken);
}

/// Whether an operation is granted, and by which grant.
spec fn granted_by(row: OperationRowView, grant: Seq<char>) -> bool {
    row.record.status == "granted"@ && row.record.grant_id == Some(grant)
}

/// Whether an operation kept what a grant is bound to.
spec fn same_subject(before: OperationRowView, after: OperationRowView) -> bool {
    &&& after.tenant_id == before.tenant_id
    &&& after.record.id == before.record.id
    &&& after.record.workload_id == before.record.workload_id
    &&& after.record.node_id == before.record.node_id
}

/// Whether no two drafts from a position on are for one operation.
spec fn distinct_operations(drafts: Seq<GrantIssueDraftView>, from: int) -> bool {
    forall|i: int, k: int|
        from <= i < k < drafts.len() ==> (#[trigger] drafts[i]).grant.operation_id != (
        #[trigger] drafts[k]).grant.operation_id
}

/// A group that passes its checks asks for each operation once.
proof fn lemma_group_distinct(drafts: Seq<GrantIssueDraftView>, from: int)
    requires
        0 <= from,
        group_check(drafts, from) is Ok,
    ensures
        forall|i: int, k: int|
            0 <= i < k < drafts.len() && from <= k ==> (#[trigger] drafts[i]).grant.operation_id
                != (#[trigger] drafts[k]).grant.operation_id,
    decreases drafts.len() - from,
{
    if from < drafts.len() {
        lemma_group_distinct(drafts, from + 1);
        let taken = draft_of(drafts[from].grant.operation_id);
        assert forall|i: int, k: int|
            0 <= i < k < drafts.len() && from <= k implies (
        #[trigger] drafts[i]).grant.operation_id != (#[trigger] drafts[k]).grant.operation_id by {
            if k == from {
                assert(drafts.take(from)[i] == drafts[i]);
                assert(!taken(drafts.take(from)[i]));
            }
        }
    }
}

/// Issuing one grant grants its operation and leaves the others.
proof fn lemma_issue_grant(state: StoreView, draft: GrantIssueDraftView, now_ms: i64)
    requires
        unique(state.operations, operation_id()),
        state.issue_grant(draft, now_ms) is Ok,
    ensures
        ({
            let after = state.issue_grant(draft, now_ms)->Ok_0;
            &&& after == (StoreView {
                grants: after.grants,
                operations: after.operations,
                node_inbox: after.node_inbox,
                ..state
            })
            &&& unique(after.operations, operation_id())
            &&& after.operations.len() == state.operations.len()
            &&& after.grants == state.grants.push(after.grants.last())
            &&& after.grants.last().record.id == draft.grant.id
            &&& after.grants.last().record.status == "issued"@
            &&& forall|j: int|
                0 <= j < state.operations.len() ==> {
                    let row = #[trigger] after.operations[j];
                    &&& same_subject(state.operations[j], row)
                    &&& row.record.id != draft.grant.operation_id ==> row == state.operations[j]
                    &&& row.record.id == draft.grant.operation_id ==> granted_by(
                        row,
                        draft.grant.id,
                    )
                }
        }),
{
    let after = state.issue_grant(draft, now_ms)->Ok_0;
    let expires_at_ms = after.grants.last().record.expires_at_ms;
    let hit = requested_at(
        draft.grant.operation_id,
        state.tenant_id,
        draft.expected_operation_version,
    );
    let change = operation_granted(draft.grant.id, expires_at_ms);
    lemma_attempted(state.operations, hit, change);
    lemma_any_counted(state.operations, hit);
    let i = lemma_unique_first(state.operations, operation_id(), draft.grant.operation_id, hit);
    lemma_unique_updated(
        state.operations,
        operation_id(),
        hit,
        |v: OperationRowView| change(v)->0,
    );
    assert forall|j: int| 0 <= j < state.operations.len() implies {
        let row = #[trigger] after.operations[j];
        &&& same_subject(state.operations[j], row)
        &&& row.record.id != draft.grant.operation_id ==> row == state.operations[j]
        &&& row.record.id == draft.grant.operation_id ==> granted_by(row, draft.grant.id)
    } by {
        if hit(state.operations[j]) {
            assert(change(state.operations[j]) is Some);
        } else if j < i {
            assert(operation_id()(state.operations[j]) != operation_id()(state.operations[i]));
        } else {
            assert(operation_id()(state.operations[i]) != operation_id()(state.operations[j]));
        }
    }
}

/// Issuing a group grants each of its operations by its own grant.
proof fn lemma_issue_group(
    state: StoreView,
    drafts: Seq<GrantIssueDraftView>,
    from: int,
    now_ms: i64,
)
    requires
        0 <= from,
        unique(state.operations, operation_id()),
        distinct_operations(drafts, from),
        state.issue_group(drafts, from, now_ms) is Ok,
    ensures
        ({
            let after = state.issue_group(drafts, from, now_ms)->Ok_0;
            &&& after == (StoreView {
                grants: after.grants,
                operations: after.operations,
                node_inbox: after.node_inbox,
                ..state
            })
            &&& unique(after.operations, operation_id())
            &&& after.operations.len() == state.operations.len()
            &&& state.grants.len() <= after.grants.len()
            &&& forall|j: int|
                0 <= j < state.grants.len() ==> (#[trigger] after.grants[j]) == state.grants[j]
            &&& forall|j: int|
                0 <= j < state.operations.len() ==> same_subject(
                    state.operations[j],
                    #[trigger] after.operations[j],
                )
            &&& forall|j: int|
                0 <= j < state.operations.len() && (forall|i: int|
                    from <= i < drafts.len() ==> (#[trigger] drafts[i]).grant.operation_id
                        != state.operations[j].record.id) ==> (#[trigger] after.operations[j])
                    == state.operations[j]
            &&& forall|j: int, i: int|
                0 <= j < state.operations.len() && from <= i < drafts.len() && (
                #[trigger] drafts[i]).grant.operation_id == (
                #[trigger] after.operations[j]).record.id ==> granted_by(
                    after.operations[j],
                    drafts[i].grant.id,
                )
            &&& forall|i: int|
                from <= i < drafts.len() ==> any(
                    after.grants,
                    issued_under((#[trigger] drafts[i]).grant.id),
                )
        }),
    decreases drafts.len() - from,
{
    if from < drafts.len() {
        let draft = drafts[from];
        lemma_issue_grant(state, draft, now_ms);
        let next = state.issue_grant(draft, now_ms)->Ok_0;
        lemma_issue_group(next, drafts, from + 1, now_ms);
        let after = next.issue_group(drafts, from + 1, now_ms)->Ok_0;
        assert forall|j: int| 0 <= j < state.operations.len() implies same_subject(
            state.operations[j],
            #[trigger] after.operations[j],
        ) by {
            assert(same_subject(next.operations[j], after.operations[j]));
        }
        assert forall|j: int|
            0 <= j < state.operations.len() && (forall|i: int|
                from <= i < drafts.len() ==> (#[trigger] drafts[i]).grant.operation_id
                    != state.operations[j].record.id) implies (#[trigger] after.operations[j])
            == state.operations[j] by {
            assert(drafts[from].grant.operation_id != state.operations[j].record.id);
            assert(next.operations[j] == state.operations[j]);
        }
        assert forall|j: int, i: int|
            0 <= j < state.operations.len() && from <= i < drafts.len() && (
            #[trigger] drafts[i]).grant.operation_id == (
            #[trigger] after.operations[j]).record.id implies granted_by(
            after.operations[j],
            drafts[i].grant.id,
        ) by {
            if i == from {
                assert(same_subject(next.operations[j], after.operations[j]));
                assert forall|k: int| from + 1 <= k < drafts.len() implies (
                #[trigger] drafts[k]).grant.operation_id != next.operations[j].record.id by {
                    assert(drafts[from].grant.operation_id != drafts[k].grant.operation_id);
                }
                assert(after.operations[j] == next.operations[j]);
            }
        }
        assert forall|j: int| 0 <= j < state.grants.len() implies (#[trigger] after.grants[j])
            == state.grants[j] by {
            assert(after.grants[j] == next.grants[j]);
        }
        assert forall|i: int| from <= i < drafts.len() implies any(
            after.grants,
            issued_under((#[trigger] drafts[i]).grant.id),
        ) by {
            if i == from {
                let last = next.grants.len() - 1;
                assert(after.grants[last] == next.grants[last]);
                assert(issued_under(draft.grant.id)(after.grants[last]));
            }
        }
    }
}

/// The issued grant under an identifier.
pub open spec fn issued_under(id: Seq<char>) -> spec_fn(GrantRowView) -> bool {
    |row: GrantRowView| row.record.id == id && row.record.status == "issued"@
}

/// The contexts of drafts stand in the order of the drafts, where each has one.
proof fn lemma_contexts(state: StoreView, drafts: Seq<GrantIssueDraftView>)
    ensures
        state.grant_contexts(drafts).len() <= drafts.len(),
        state.grant_contexts(drafts).len() == drafts.len() <==> (forall|i: int|
            0 <= i < drafts.len() ==> state.grant_context(
                (#[trigger] drafts[i]).grant.operation_id,
            ) is Some),
        state.grant_contexts(drafts).len() == drafts.len() ==> forall|i: int|
            0 <= i < drafts.len() ==> Some(#[trigger] state.grant_contexts(drafts)[i])
                == state.grant_context(drafts[i].grant.operation_id),
    decreases drafts.len(),
{
    if drafts.len() > 0 {
        let front = drafts.drop_last();
        lemma_contexts(state, front);
        let rest = state.grant_contexts(front);
        let all = state.grant_contexts(drafts);
        assert forall|i: int| 0 <= i < front.len() implies front[i] == drafts[i] by {}
        let last = state.grant_context(drafts.last().grant.operation_id);
        if rest.len() == front.len() && last is Some {
            assert(all == rest.push(last->0));
            assert forall|i: int| 0 <= i < drafts.len() implies Some(#[trigger] all[i])
                == state.grant_context(drafts[i].grant.operation_id) by {
                if i < front.len() {
                    assert(all[i] == rest[i]);
                    assert(front[i] == drafts[i]);
                }
            }
            assert forall|i: int| 0 <= i < drafts.len() implies state.grant_context(
                (#[trigger] drafts[i]).grant.operation_id,
            ) is Some by {
                assert(Some(all[i]) == state.grant_context(drafts[i].grant.operation_id));
            }
        } else {
            assert(all.len() < drafts.len());
            if rest.len() < front.len() {
                let i = choose|i: int|
                    0 <= i < front.len() && state.grant_context(
                        (#[trigger] front[i]).grant.operation_id,
                    ) is None;
                assert(drafts[i] == front[i]);
            } else {
                assert(drafts[drafts.len() - 1] == drafts.last());
            }
        }
    }
}

/// A group of grants is issued whole and once: each grant is recorded, each
/// operation is granted, and issuing the same group again names the same grants
/// and changes nothing.
pub proof fn a_group_is_issued_once(
    state: StoreView,
    c: ClockReadingView,
    drafts: Seq<GrantIssueDraftView>,
    later: ClockReadingView,
)
    requires
        unique(state.operations, operation_id()),
        state.issue_operation_grants(c, drafts).1 matches Ok(GrantIssueOutcomeView::Issued(_)),
        ({
            let after = state.issue_operation_grants(c, drafts).0;
            let (then, gate) = after.checkpoint_clock(later);
            gate is Ok && then.clock.last_observed_ms <= later.now_ms
        }),
    ensures
        ({
            let after = state.issue_operation_grants(c, drafts).0;
            &&& forall|i: int|
                0 <= i < drafts.len() ==> any(
                    after.grants,
                    issued_under((#[trigger] drafts[i]).grant.id),
                )
            &&& after.issue_operation_grants(later, drafts) == (
                after.checkpoint_clock(later).0,
                Ok::<GrantIssueOutcomeView, StoreError>(
                    GrantIssueOutcomeView::Existing(draft_ids(drafts)),
                ),
            )
        }),
{
    let s = state.checkpoint_clock(c).0;
    let now_ms = s.now(c.now_ms)->0;
    let after = state.issue_operation_grants(c, drafts).0;
    let then = after.checkpoint_clock(later).0;
    lemma_group_distinct(drafts, 0);
    lemma_issue_group(s, drafts, 0, now_ms);
    lemma_contexts(s, drafts);
    assert forall|i: int| 0 <= i < drafts.len() implies granted_context(
        then.grant_context((#[trigger] drafts[i]).grant.operation_id),
        drafts[i].grant.id,
    ) by {
        let id = drafts[i].grant.operation_id;
        let wanted = operation_with(id, s.tenant_id);
        assert(s.grant_context(id) is Some);
        lemma_any_counted(s.operations, wanted);
        let j = lemma_unique_first(s.operations, operation_id(), id, wanted);
        assert(same_subject(s.operations[j], after.operations[j]));
        lemma_unique_hit(after.operations, operation_id(), id, wanted, j);
        assert(granted_by(after.operations[j], drafts[i].grant.id));
    }
    lemma_contexts(then, drafts);
    let contexts = then.grant_contexts(drafts);
    assert(contexts.len() == drafts.len());
    let missing = |context: GrantContextView|
        context.operation.status != "granted"@ || context.operation.grant_id is None;
    assert forall|i: int| 0 <= i < contexts.len() implies !missing(#[trigger] contexts[i])
        && contexts[i].operation.grant_id == Some(drafts[i].grant.id) by {
        assert(granted_context(
            then.grant_context(drafts[i].grant.operation_id),
            drafts[i].grant.id,
        ));
    }
    assert(!any(contexts, missing));
    assert(crate::grants::issued_ids(contexts) == Some(draft_ids(drafts)));
}

/// Whether a context shows an operation that a grant was issued for.
spec fn granted_context(context: Option<GrantContextView>, grant: Seq<char>) -> bool {
    &&& context is Some
    &&& context->0.operation.status == "granted"@
    &&& context->0.operation.grant_id == Some(grant)
}

} // verus!
