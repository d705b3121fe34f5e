//! What a node loses when it is revoked or moved to another key, by what the rows say.

use crate::clock::ClockReadingView;
use crate::document_laws::{
    a_grant_goes_with_its_node_by_its_own_document, a_key_is_rotated_by_its_own_document,
    a_node_is_revoked_by_its_own_document, kept_long_enough, signed_about,
};
use crate::documents::{
    node_grant_revocation, DocumentKind, NodeGrantRevocationDraftView, NodeKeyRotationDraftView,
    NodeKeyRotationView, NodeRevocationView, Parsed,
};
use crate::error::StoreError;
use crate::grant_laws::lemma_deadline_order;
use crate::keys::{grant_id, node_id};
use crate::listing_laws::{comes_from, lemma_page_shows};
use crate::moment_laws::{lemma_runs, runs};
use crate::node_authority::{
    active_node, active_workload_on, awaited_approval, awaits, cancelled_operation, checked_drafts,
    deadline_order, draft_for, grant_deadline, grant_revoked, key_with, lapsed_grant, live_grant,
    live_grant_with, node_revoked, node_with, overdue_operation, queued_revocation, rotation_of,
    running_under, tombstone_of, workload_revoked,
};
use crate::operations::{is_live, is_running, lapsed, reason_result, settled};
use crate::records::{
    GrantRecordView, OperationApprovalRecordView, OperationRecordView, WorkloadRecordView,
};
use crate::relation::{any, attempted, ordered, page, selected, updated};
use crate::relation_laws::{
    lemma_attempted, lemma_first_satisfies, lemma_none, lemma_sole, unique,
};
use crate::sending_laws::{a_document_is_sent_behind_the_others, roomy, sendable, sent};
use crate::store::StoreView;
use crate::tables::{
    GrantRowView, InboxRowView, NodeKeyRotationRowView, NodeKeyRowView, NodeRevocationRowView,
    NodeRowView, OperationApprovalRowView, OperationRowView, TombstoneRowView, WorkloadRowView,
};
use vstd::prelude::*;

verus! {

/// Whether a grant can still be used by a node.
pub open spec fn usable(
    row: GrantRowView,
    node: Seq<char>,
    tenant: Seq<char>,
    now_ms: i64,
) -> bool {
    row.tenant_id == tenant && row.record.node_id == node && (row.record.status == "issued"@
        || row.record.status == "delivered"@) && row.record.expires_at_ms > now_ms
}

/// Whether a grant of a node ran out without having been used.
pub open spec fn ran_out(
    row: GrantRowView,
    node: Seq<char>,
    tenant: Seq<char>,
    now_ms: i64,
) -> bool {
    row.tenant_id == tenant && row.record.node_id == node && (row.record.status == "issued"@
        || row.record.status == "delivered"@) && row.record.expires_at_ms <= now_ms
}

/// Whether an operation runs under a grant that the node can still use.
pub open spec fn runs_under_usable(
    state: StoreView,
    row: OperationRowView,
    node: Seq<char>,
    now_ms: i64,
) -> bool {
    row.tenant_id == state.tenant_id && (row.record.status == "granted"@ || row.record.status
        == "executing"@) && row.record.grant_id is Some && exists|q: int|
        0 <= q < state.grants.len() && (#[trigger] state.grants[q]).record.id
            == row.record.grant_id->0 && usable(state.grants[q], node, state.tenant_id, now_ms)
}

/// Whether an operation runs under a grant of the node that ran out.
pub open spec fn runs_under_ran_out(
    state: StoreView,
    row: OperationRowView,
    node: Seq<char>,
    now_ms: i64,
) -> bool {
    row.tenant_id == state.tenant_id && (row.record.status == "granted"@ || row.record.status
        == "executing"@) && row.record.grant_id is Some && exists|q: int|
        0 <= q < state.grants.len() && (#[trigger] state.grants[q]).record.id
            == row.record.grant_id->0 && ran_out(state.grants[q], node, state.tenant_id, now_ms)
}

/// Whether an operation on the node waits for an approval.
pub open spec fn awaits_on(
    state: StoreView,
    row: OperationRowView,
    node: Seq<char>,
    approval: Seq<char>,
) -> bool {
    row.tenant_id == state.tenant_id && row.record.node_id == node && row.record.status
        == "awaiting_approval"@ && row.record.approval_id == Some(approval)
}

/// Whether an approval is one that an operation on the node waits for.
pub open spec fn awaited_on(state: StoreView, node: Seq<char>, approval: Seq<char>) -> bool {
    exists|q: int|
        0 <= q < state.operations.len() && awaits_on(
            state,
            #[trigger] state.operations[q],
            node,
            approval,
        )
}

/// Whether an operation waits on the node: for a grant or an approval itself, or for an
/// approval that an operation on the node waits for.
pub open spec fn waits_on(state: StoreView, row: OperationRowView, node: Seq<char>) -> bool {
    row.tenant_id == state.tenant_id && ((row.record.node_id == node && (row.record.status
        == "requested"@ || row.record.status == "awaiting_approval"@)) || (row.record.status
        == "awaiting_approval"@ && row.record.approval_id is Some && awaited_on(
        state,
        node,
        row.record.approval_id->0,
    )))
}

/// An operation that ended for a reason, at its next version.
pub open spec fn closed_for(
    row: OperationRowView,
    status: Seq<char>,
    reason: Seq<char>,
    now_ms: i64,
) -> OperationRowView {
    OperationRowView {
        record: OperationRecordView {
            status,
            result_json: Some("{\"reason\":\""@ + reason + "\"}"@),
            completed_at_ms: Some(now_ms),
            version: (row.record.version + 1) as i64,
            ..row.record
        },
        ..row
    }
}

/// Whether a draft revokes a grant together with its node, as its document says.
pub open spec fn draft_revokes(
    draft: NodeGrantRevocationDraftView,
    grant: GrantRecordView,
    node: Seq<char>,
    reason: Seq<char>,
    epoch: i64,
    now_ms: i64,
) -> bool {
    draft.grant_id == grant.id && sendable(draft.envelope_json) && match draft.parsed {
        Parsed::Document { kind, epoch: signed, body } => kind == DocumentKind::Revocation
            && signed == epoch && body.issuer_epoch == epoch && body.grant_id == grant.id
            && body.node_id == node && body.reason == reason && body.revoked_at_ms <= i64::MAX
            && body.retain_until_ms <= i64::MAX && signed_about(body.revoked_at_ms, now_ms)
            && kept_long_enough(body.retain_until_ms, now_ms, grant.expires_at_ms),
        _ => false,
    }
}

/// Whether drafts revoke the grants that the node can still use: there are as many, and
/// there is one for each of them.
pub open spec fn drafts_cover(
    state: StoreView,
    drafts: Seq<NodeGrantRevocationDraftView>,
    demanded: Option<Seq<char>>,
    node: Seq<char>,
    now_ms: i64,
) -> bool {
    &&& drafts.len() == state.grants.filter(
        |row: GrantRowView| usable(row, node, state.tenant_id, now_ms),
    ).len()
    &&& forall|q: int|
        0 <= q < state.grants.len() && usable(
            #[trigger] state.grants[q],
            node,
            state.tenant_id,
            now_ms,
        ) ==> is_covered(state, drafts, demanded, node, now_ms, state.grants[q].record)
    &&& demanded is Some ==> forall|d: int|
        0 <= d < drafts.len() ==> (#[trigger] drafts[d]).reason == demanded->0
}

/// Whether a draft revokes a grant, for the reason that is demanded or else for its own.
pub open spec fn is_covered(
    state: StoreView,
    drafts: Seq<NodeGrantRevocationDraftView>,
    demanded: Option<Seq<char>>,
    node: Seq<char>,
    now_ms: i64,
    grant: GrantRecordView,
) -> bool {
    exists|d: int|
        0 <= d < drafts.len() && draft_revokes(
            #[trigger] drafts[d],
            grant,
            node,
            if demanded is Some {
                demanded->0
            } else {
                drafts[d].reason
            },
            state.meta.issuer_epoch,
            now_ms,
        )
}

/// Whether the grants of a node ended: what it could use is revoked now, what ran out
/// is expired, and every other grant is as it was.
pub open spec fn grants_ended(
    before: StoreView,
    after: StoreView,
    node: Seq<char>,
    now_ms: i64,
) -> bool {
    &&& after.grants.len() == before.grants.len()
    &&& forall|q: int|
        0 <= q < before.grants.len() ==> #[trigger] after.grants[q] == {
            let row = before.grants[q];
            if usable(row, node, before.tenant_id, now_ms) {
                GrantRowView {
                    record: GrantRecordView {
                        status: "revoked"@,
                        revoked_at_ms: Some(now_ms),
                        ..row.record
                    },
                    ..row
                }
            } else if ran_out(row, node, before.tenant_id, now_ms) {
                GrantRowView { record: GrantRecordView { status: "expired"@, ..row.record }, ..row }
            } else {
                row
            }
        }
}

/// Whether approvals lapsed that operations on the node waited for: such an approval of
/// the tenant that was pending is expired now, and every other one is as it was.
pub open spec fn approvals_lapsed(
    before: StoreView,
    after: StoreView,
    node: Seq<char>,
    now_ms: i64,
) -> bool {
    &&& after.operation_approvals.len() == before.operation_approvals.len()
    &&& forall|q: int|
        0 <= q < before.operation_approvals.len() ==> #[trigger] after.operation_approvals[q] == {
            let row = before.operation_approvals[q];
            if row.tenant_id == before.tenant_id && row.record.status == "pending"@ && awaited_on(
                before,
                node,
                row.record.id,
            ) {
                OperationApprovalRowView {
                    record: OperationApprovalRecordView {
                        status: "expired"@,
                        decided_at_ms: Some(now_ms),
                        version: (row.record.version + 1) as i64,
                        ..row.record
                    },
                    ..row
                }
            } else {
                row
            }
        }
}

/// Whether a tombstone was left at a moment for each grant that the node could use, and
/// no tombstone went.
pub open spec fn tombstones_left(
    before: StoreView,
    after: StoreView,
    node: Seq<char>,
    reason: Seq<char>,
    drafts: nat,
    now_ms: i64,
) -> bool {
    let old = before.grant_tombstones;
    let new = after.grant_tombstones;
    &&& new.len() == old.len() + drafts
    &&& new.take(old.len() as int) == old
    &&& forall|k: int|
        old.len() <= k < new.len() ==> (#[trigger] new[k]).node_id == node && new[k].reason
            == reason && new[k].created_at_ms == now_ms
    &&& forall|q: int|
        0 <= q < before.grants.len() && usable(
            #[trigger] before.grants[q],
            node,
            before.tenant_id,
            now_ms,
        ) ==> exists|k: int|
            old.len() <= k < new.len() && (#[trigger] new[k]).grant_id
                == before.grants[q].record.id
}

/// Whether documents were sent to a node behind all others: those of the drafts, and
/// one more behind them.
pub open spec fn documents_sent(
    before: Seq<InboxRowView>,
    after: Seq<InboxRowView>,
    drafts: Seq<NodeGrantRevocationDraftView>,
    node: Seq<char>,
    text: Seq<char>,
    now_ms: i64,
) -> bool {
    &&& after.len() == before.len() + drafts.len() + 1
    &&& after.take(before.len() as int) == before
    &&& forall|k: int|
        before.len() <= k < after.len() ==> (#[trigger] after[k]).node_id == node
            && after[k].created_at_ms == now_ms && after[k].delivered_at_ms is None
            && after[k].acked_at_ms is None
    &&& forall|k: int|
        before.len() <= k < after.len() - 1
            ==> is_a_draft(drafts, (#[trigger] after[k]).envelope_json)
    &&& sent(after.drop_last(), after, node, text, now_ms)
}

/// Whether a text is that of one of the drafts.
pub open spec fn is_a_draft(drafts: Seq<NodeGrantRevocationDraftView>, text: Seq<char>) -> bool {
    exists|d: int| 0 <= d < drafts.len() && (#[trigger] drafts[d]).envelope_json == text
}

spec fn named(validated: Seq<(NodeGrantRevocationDraftView, i64)>, grant: Seq<char>) -> bool {
    exists|k: int| 0 <= k < validated.len() && (#[trigger] validated[k]).0.grant_id == grant
}

proof fn lemma_words()
    ensures
        !is_live("revoked"@),
        !is_running("revoked"@),
        !is_running("requested"@),
        !is_running("awaiting_approval"@),
        !is_running("cancelled"@),
        "revoked"@ != "requested"@,
        "revoked"@ != "awaiting_approval"@,
{
    reveal_strlit("revoked");
    reveal_strlit("issued");
    reveal_strlit("delivered");
    reveal_strlit("granted");
    reveal_strlit("executing");
    reveal_strlit("requested");
    reveal_strlit("awaiting_approval");
    reveal_strlit("cancelled");
    assert("revoked"@.len() == 7 && "granted"@.len() == 7 && "issued"@.len() == 6);
    assert("revoked"@[0] == 'r' && "granted"@[0] == 'g');
    assert("delivered"@.len() == 9 && "executing"@.len() == 9 && "requested"@.len() == 9);
    assert("awaiting_approval"@.len() == 17 && "cancelled"@.len() == 9);
    assert("executing"@[0] == 'e' && "requested"@[0] == 'r' && "cancelled"@[0] == 'c');
}

/// What the grants, operations, tombstones and the inbox are once drafts were retired.
spec fn is_retired(
    state: StoreView,
    after: StoreView,
    validated: Seq<(NodeGrantRevocationDraftView, i64)>,
    node: Seq<char>,
    reason: Seq<char>,
    now_ms: i64,
) -> bool {
    &&& after == (StoreView {
        grants: after.grants,
        operations: after.operations,
        grant_tombstones: after.grant_tombstones,
        node_inbox: after.node_inbox,
        ..state
    })
    &&& after.grants.len() == state.grants.len()
    &&& forall|q: int|
        0 <= q < state.grants.len() ==> #[trigger] after.grants[q] == if state.grants[q].tenant_id
            == state.tenant_id && state.grants[q].record.node_id == node && is_live(
            state.grants[q].record.status,
        ) && named(validated, state.grants[q].record.id) {
            grant_revoked(now_ms)(state.grants[q])
        } else {
            state.grants[q]
        }
    &&& after.operations.len() == state.operations.len()
    &&& forall|q: int|
        0 <= q < state.operations.len() ==> #[trigger] after.operations[q]
            == if state.operations[q].tenant_id == state.tenant_id && is_running(
            state.operations[q].record.status,
        ) && state.operations[q].record.grant_id is Some && named(
            validated,
            state.operations[q].record.grant_id->0,
        ) {
            closed_for(state.operations[q], "revoked"@, reason, now_ms)
        } else {
            state.operations[q]
        }
    &&& after.grant_tombstones.len() == state.grant_tombstones.len() + validated.len()
    &&& after.grant_tombstones.take(state.grant_tombstones.len() as int) == state.grant_tombstones
    &&& forall|k: int|
        0 <= k < validated.len() ==> after.grant_tombstones[state.grant_tombstones.len() + k] == (
        TombstoneRowView {
            grant_id: (#[trigger] validated[k]).0.grant_id,
            node_id: node,
            reason,
            created_at_ms: now_ms,
            retain_until_ms: validated[k].1,
        })
    &&& after.node_inbox.len() == state.node_inbox.len() + validated.len()
    &&& after.node_inbox.take(state.node_inbox.len() as int) == state.node_inbox
    &&& forall|k: int|
        0 <= k < validated.len() ==> {
            let sent = after.node_inbox[state.node_inbox.len() + k];
            sent.envelope_json == (#[trigger] validated[k]).0.envelope_json && sent.node_id == node
                && sent.created_at_ms == now_ms && sent.delivered_at_ms is None
                && sent.acked_at_ms is None
        }
}

#[verifier::rlimit(60)]
proof fn lemma_is_retired(
    state: StoreView,
    validated: Seq<(NodeGrantRevocationDraftView, i64)>,
    node: Seq<char>,
    reason: Seq<char>,
    now_ms: i64,
)
    requires
        state.retire_grants(validated, node, reason, now_ms) is Ok,
    ensures
        is_retired(
            state,
            state.retire_grants(validated, node, reason, now_ms)->Ok_0,
            validated,
            node,
            reason,
            now_ms,
        ),
    decreases validated.len(),
{
    lemma_words();
    if validated.len() == 0 {
        let after = state.retire_grants(validated, node, reason, now_ms)->Ok_0;
        assert(after == state);
        assert(state.grant_tombstones.take(state.grant_tombstones.len() as int)
            =~= state.grant_tombstones);
        assert(state.node_inbox.take(state.node_inbox.len() as int) =~= state.node_inbox);
    } else {
        let front = validated.drop_last();
        let last = validated.last();
        lemma_is_retired(state, front, node, reason, now_ms);
        let mid = state.retire_grants(front, node, reason, now_ms)->Ok_0;
        let after = mid.retire_grant(last.0, last.1, node, reason, now_ms)->Ok_0;
        assert(after == state.retire_grants(validated, node, reason, now_ms)->Ok_0);
        let under = running_under(last.0.grant_id, mid.tenant_id);
        let settle = settled("revoked"@, reason_result(reason), now_ms);
        lemma_attempted(mid.operations, under, settle);
        let hit = live_grant_with(last.0.grant_id, node, mid.tenant_id);
        assert(after.grants == updated(mid.grants, hit, grant_revoked(now_ms)));
        assert(validated[validated.len() - 1] == last);
        assert forall|g: Seq<char>| #[trigger] named(validated, g) == (named(front, g) || g
            == last.0.grant_id) by {
            if named(front, g) {
                let k = choose|k: int|
                    0 <= k < front.len() && (#[trigger] front[k]).0.grant_id == g;
                assert(validated[k].0.grant_id == g);
            }
            if named(validated, g) {
                let k = choose|k: int|
                    0 <= k < validated.len() && (#[trigger] validated[k]).0.grant_id == g;
                if k < front.len() {
                    assert(front[k].0.grant_id == g);
                }
            }
        }
        assert forall|q: int| 0 <= q < state.grants.len() implies #[trigger] after.grants[q]
            == if state.grants[q].tenant_id == state.tenant_id && state.grants[q].record.node_id
            == node && is_live(state.grants[q].record.status) && named(
            validated,
            state.grants[q].record.id,
        ) {
            grant_revoked(now_ms)(state.grants[q])
        } else {
            state.grants[q]
        } by {
            let was = mid.grants[q];
            assert(named(validated, state.grants[q].record.id) == (named(
                front,
                state.grants[q].record.id,
            ) || state.grants[q].record.id == last.0.grant_id));
        }
        assert forall|q: int| 0 <= q < state.operations.len() implies #[trigger] after.operations[q]
            == if state.operations[q].tenant_id == state.tenant_id && is_running(
            state.operations[q].record.status,
        ) && state.operations[q].record.grant_id is Some && named(
            validated,
            state.operations[q].record.grant_id->0,
        ) {
            closed_for(state.operations[q], "revoked"@, reason, now_ms)
        } else {
            state.operations[q]
        } by {
            let was = mid.operations[q];
            if under(was) {
                assert(settle(was) is Some);
            }
        }
        let old = state.grant_tombstones;
        assert(after.grant_tombstones.take(old.len() as int) =~= mid.grant_tombstones.take(
            old.len() as int,
        ));
        assert forall|k: int| 0 <= k < validated.len() implies after.grant_tombstones[old.len() + k]
            == (TombstoneRowView {
            grant_id: (#[trigger] validated[k]).0.grant_id,
            node_id: node,
            reason,
            created_at_ms: now_ms,
            retain_until_ms: validated[k].1,
        }) by {
            if k < front.len() {
                assert(front[k] == validated[k]);
                assert(after.grant_tombstones[old.len() + k]
                    == mid.grant_tombstones[old.len() + k]);
            }
        }
        let inbox = state.node_inbox;
        assert(after.node_inbox.take(inbox.len() as int) =~= mid.node_inbox.take(
            inbox.len() as int,
        ));
        assert forall|k: int| 0 <= k < validated.len() implies {
            let sent = after.node_inbox[inbox.len() + k];
            sent.envelope_json == (#[trigger] validated[k]).0.envelope_json && sent.node_id == node
                && sent.created_at_ms == now_ms && sent.delivered_at_ms is None
                && sent.acked_at_ms is None
        } by {
            if k < front.len() {
                assert(front[k] == validated[k]);
                assert(after.node_inbox[inbox.len() + k] == mid.node_inbox[inbox.len() + k]);
            }
        }
    }
}

/// Checked drafts stand in the order of the grants that they revoke, and each one is a
/// draft whose document was taken.
proof fn lemma_checked(
    grants: Seq<(Seq<char>, i64)>,
    drafts: Seq<NodeGrantRevocationDraftView>,
    reason: Option<Seq<char>>,
    node: Seq<char>,
    now_ms: i64,
    epoch: i64,
)
    requires
        checked_drafts(grants, drafts, reason, node, now_ms, epoch) is Ok,
    ensures
        ({
            let checked = checked_drafts(grants, drafts, reason, node, now_ms, epoch)->Ok_0;
            &&& checked.len() == grants.len()
            &&& forall|k: int|
                0 <= k < grants.len() ==> {
                    let draft = (#[trigger] checked[k]).0;
                    &&& draft.grant_id == grants[k].0
                    &&& drafts.contains(draft)
                    &&& node_grant_revocation(
                        draft.envelope_json,
                        draft.parsed,
                        grants[k].0,
                        node,
                        now_ms,
                        grants[k].1,
                        epoch,
                        match reason {
                            Some(expected) => expected,
                            None => draft.reason,
                        },
                    ) is Ok
                }
        }),
    decreases grants.len(),
{
    if grants.len() > 0 {
        lemma_checked(grants.drop_last(), drafts, reason, node, now_ms, epoch);
        lemma_first_satisfies(drafts, draft_for(grants.last().0));
        let checked = checked_drafts(grants, drafts, reason, node, now_ms, epoch)->Ok_0;
        let front = checked_drafts(
            grants.drop_last(),
            drafts,
            reason,
            node,
            now_ms,
            epoch,
        )->Ok_0;
        assert forall|k: int| 0 <= k < grants.len() implies {
            let draft = (#[trigger] checked[k]).0;
            &&& draft.grant_id == grants[k].0
            &&& drafts.contains(draft)
            &&& node_grant_revocation(
                draft.envelope_json,
                draft.parsed,
                grants[k].0,
                node,
                now_ms,
                grants[k].1,
                epoch,
                match reason {
                    Some(expected) => expected,
                    None => draft.reason,
                },
            ) is Ok
        } by {
            if k < grants.len() - 1 {
                assert(checked[k] == front[k]);
                assert(grants.drop_last()[k] == grants[k]);
            }
        }
    }
}

/// What it means that the grants of a node were retired, told by what they said before.
#[verifier::rlimit(60)]
proof fn lemma_node_retired(
    state: StoreView,
    drafts: Seq<NodeGrantRevocationDraftView>,
    demanded: Option<Seq<char>>,
    node: Seq<char>,
    reason: Seq<char>,
    now_ms: i64,
) -> (validated: Seq<(NodeGrantRevocationDraftView, i64)>)
    requires
        unique(state.grants, grant_id()),
        state.retire_node_grants(drafts, demanded, node, reason, now_ms) is Ok,
    ensures
        is_retired(
            state,
            state.retire_node_grants(drafts, demanded, node, reason, now_ms)->Ok_0,
            validated,
            node,
            reason,
            now_ms,
        ),
        validated.len() == drafts.len(),
        forall|k: int| 0 <= k < validated.len() ==> drafts.contains((#[trigger] validated[k]).0),
        forall|q: int|
            0 <= q < state.grants.len() ==> named(
                validated,
                (#[trigger] state.grants[q]).record.id,
            ) == usable(state.grants[q], node, state.tenant_id, now_ms),
        forall|g: Seq<char>| #[trigger]
            named(validated, g) ==> exists|q: int|
                0 <= q < state.grants.len() && (#[trigger] state.grants[q]).record.id == g,
        drafts_cover(state, drafts, demanded, node, now_ms),
{
    let epoch = state.meta.issuer_epoch;
    let asked = state.live_grants(node, now_ms);
    lemma_checked(asked, drafts, demanded, node, now_ms, epoch);
    let validated = checked_drafts(asked, drafts, demanded, node, now_ms, epoch)->Ok_0;
    lemma_is_retired(state, validated, node, reason, now_ms);
    let live = live_grant(node, state.tenant_id, now_ms);
    let picked = |row: GrantRowView| usable(row, node, state.tenant_id, now_ms);
    assert(live =~= picked);
    lemma_deadline_order();
    let most = state.grants.filter(live).len() as int;
    lemma_page_shows(state.grants, live, grant_deadline(), deadline_order(), most);
    let whole = ordered(selected(state.grants, live, grant_deadline()), deadline_order());
    assert(whole == asked);
    crate::relation_laws::ordered_is_a_sorted_permutation(
        selected(state.grants, live, grant_deadline()),
        deadline_order(),
    );
    assert(asked.len() == most) by {
        broadcast use vstd::seq_lib::group_to_multiset_ensures;

        assert(whole.to_multiset().len() == selected(
            state.grants,
            live,
            grant_deadline(),
        ).to_multiset().len());
    }
    assert(page(whole, most) == asked);
    assert forall|q: int| 0 <= q < state.grants.len() implies named(
        validated,
        (#[trigger] state.grants[q]).record.id,
    ) == usable(state.grants[q], node, state.tenant_id, now_ms) by {
        let row = state.grants[q];
        if live(row) {
            lemma_place_of(state, node, now_ms, q);
            let k = choose|k: int| 0 <= k < asked.len() && asked[k] == grant_deadline()(row);
            assert(validated[k].0.grant_id == row.record.id);
        }
        if named(validated, row.record.id) {
            let k = choose|k: int|
                0 <= k < validated.len() && (#[trigger] validated[k]).0.grant_id == row.record.id;
            assert(comes_from(state.grants, live, grant_deadline(), asked[k]));
            let p = choose|p: int|
                0 <= p < state.grants.len() && live(#[trigger] state.grants[p])
                    && grant_deadline()(state.grants[p]) == asked[k];
            if p != q {
                assert(grant_id()(state.grants[p]) == grant_id()(state.grants[q]));
            }
        }
    }
    assert forall|g: Seq<char>| #[trigger] named(validated, g) implies exists|q: int|
        0 <= q < state.grants.len() && (#[trigger] state.grants[q]).record.id == g by {
        let k = choose|k: int|
            0 <= k < validated.len() && (#[trigger] validated[k]).0.grant_id == g;
        assert(comes_from(state.grants, live, grant_deadline(), asked[k]));
        let p = choose|p: int|
            0 <= p < state.grants.len() && live(#[trigger] state.grants[p]) && grant_deadline()(
                state.grants[p],
            ) == asked[k];
        assert(state.grants[p].record.id == g);
    }
    assert forall|q: int| 0 <= q < state.grants.len() && usable(
        #[trigger] state.grants[q],
        node,
        state.tenant_id,
        now_ms,
    ) implies is_covered(state, drafts, demanded, node, now_ms, state.grants[q].record) by {
        let row = state.grants[q];
        assert(live(row));
        lemma_place_of(state, node, now_ms, q);
        let k = choose|k: int| 0 <= k < asked.len() && asked[k] == grant_deadline()(row);
        let draft = validated[k].0;
        let d = choose|d: int| 0 <= d < drafts.len() && drafts[d] == draft;
        let why = if demanded is Some {
            demanded->0
        } else {
            draft.reason
        };
        a_grant_goes_with_its_node_by_its_own_document(
            draft.envelope_json,
            draft.parsed,
            row.record.id,
            node,
            now_ms,
            row.record.expires_at_ms,
            epoch,
            why,
        );
        assert(draft_revokes(drafts[d], row.record, node, why, epoch, now_ms));
    }
    if demanded is Some {
        assert forall|d: int| 0 <= d < drafts.len() implies (#[trigger] drafts[d]).reason
            == demanded->0 by {
            assert(!crate::node_authority::stray_draft(validated, demanded)(drafts[d]));
        }
    }
    validated
}

/// A usable grant stands among those that are asked for.
proof fn lemma_place_of(state: StoreView, node: Seq<char>, now_ms: i64, q: int)
    requires
        0 <= q < state.grants.len(),
        live_grant(node, state.tenant_id, now_ms)(state.grants[q]),
    ensures
        exists|k: int|
            0 <= k < state.live_grants(node, now_ms).len() && state.live_grants(node, now_ms)[k]
                == grant_deadline()(state.grants[q]),
{
    broadcast use vstd::seq_lib::group_to_multiset_ensures;

    let live = live_grant(node, state.tenant_id, now_ms);
    let picked = selected(state.grants, live, grant_deadline());
    let deadline = grant_deadline()(state.grants[q]);
    lemma_deadline_order();
    crate::relation_laws::ordered_is_a_sorted_permutation(picked, deadline_order());
    crate::relation_laws::lemma_filter_members(state.grants, live);
    assert(state.grants.filter(live).contains(state.grants[q]));
    let m = choose|m: int|
        0 <= m < state.grants.filter(live).len() && state.grants.filter(live)[m]
            == state.grants[q];
    assert(picked[m] == deadline);
    assert(picked.contains(deadline));
    assert(picked.to_multiset().count(deadline) > 0);
    assert(state.live_grants(node, now_ms).contains(deadline));
}

/// Whether exactly what ran under usable grants of the node was closed so far.
spec fn is_midway(
    before: StoreView,
    mid: StoreView,
    node: Seq<char>,
    reason: Seq<char>,
    now_ms: i64,
) -> bool {
    &&& mid.tenant_id == before.tenant_id
    &&& mid.operation_approvals == before.operation_approvals
    &&& mid.operations.len() == before.operations.len()
    &&& forall|q: int|
        0 <= q < before.operations.len() ==> #[trigger] mid.operations[q] == if runs_under_usable(
            before,
            before.operations[q],
            node,
            now_ms,
        ) {
            closed_for(before.operations[q], "revoked"@, reason, now_ms)
        } else {
            before.operations[q]
        }
}

proof fn lemma_midway(
    before: StoreView,
    mid: StoreView,
    validated: Seq<(NodeGrantRevocationDraftView, i64)>,
    node: Seq<char>,
    reason: Seq<char>,
    now_ms: i64,
)
    requires
        is_retired(before, mid, validated, node, reason, now_ms),
        forall|q: int|
            0 <= q < before.grants.len() ==> named(
                validated,
                (#[trigger] before.grants[q]).record.id,
            ) == usable(before.grants[q], node, before.tenant_id, now_ms),
        forall|g: Seq<char>| #[trigger]
            named(validated, g) ==> exists|q: int|
                0 <= q < before.grants.len() && (#[trigger] before.grants[q]).record.id == g,
    ensures
        is_midway(before, mid, node, reason, now_ms),
{
    assert forall|q: int| 0 <= q < before.operations.len() implies #[trigger] mid.operations[q]
        == if runs_under_usable(before, before.operations[q], node, now_ms) {
        closed_for(before.operations[q], "revoked"@, reason, now_ms)
    } else {
        before.operations[q]
    } by {
        let row = before.operations[q];
        if row.record.grant_id is Some {
            let g = row.record.grant_id->0;
            if named(validated, g) {
                let p = choose|p: int|
                    0 <= p < before.grants.len() && (#[trigger] before.grants[p]).record.id == g;
                assert(usable(before.grants[p], node, before.tenant_id, now_ms));
            }
            if runs_under_usable(before, row, node, now_ms) {
                let p = choose|p: int|
                    0 <= p < before.grants.len() && (#[trigger] before.grants[p]).record.id == g
                        && usable(before.grants[p], node, before.tenant_id, now_ms);
                assert(named(validated, before.grants[p].record.id));
            }
        }
    }
}

/// What waited on the node was cancelled, and what it waited for lapsed.
#[verifier::rlimit(60)]
proof fn lemma_cancelled(
    before: StoreView,
    mid: StoreView,
    node: Seq<char>,
    reason: Seq<char>,
    word: Seq<char>,
    now_ms: i64,
)
    requires
        is_midway(before, mid, node, reason, now_ms),
    ensures
        mid.cancel_node_operations(node, word, now_ms) is Ok <==> {
            &&& forall|q: int|
                0 <= q < before.operations.len() && waits_on(
                    before,
                    #[trigger] before.operations[q],
                    node,
                ) ==> before.operations[q].record.version < i64::MAX
            &&& forall|q: int|
                0 <= q < before.operation_approvals.len() && (
                #[trigger] before.operation_approvals[q]).tenant_id == before.tenant_id
                    && before.operation_approvals[q].record.status == "pending"@ && awaited_on(
                    before,
                    node,
                    before.operation_approvals[q].record.id,
                ) ==> before.operation_approvals[q].record.version < i64::MAX
        },
        mid.cancel_node_operations(node, word, now_ms) is Ok ==> {
            let after = mid.cancel_node_operations(node, word, now_ms)->Ok_0;
            &&& after == (StoreView {
                operations: after.operations,
                operation_approvals: after.operation_approvals,
                ..mid
            })
            &&& approvals_lapsed(before, after, node, now_ms)
            &&& after.operations.len() == before.operations.len()
            &&& forall|q: int|
                0 <= q < before.operations.len() ==> #[trigger] after.operations[q]
                    == if runs_under_usable(before, before.operations[q], node, now_ms) {
                    closed_for(before.operations[q], "revoked"@, reason, now_ms)
                } else if waits_on(before, before.operations[q], node) {
                    closed_for(before.operations[q], "cancelled"@, word, now_ms)
                } else {
                    before.operations[q]
                }
        },
{
    lemma_words();
    let t = before.tenant_id;
    let rows = mid.operations;
    assert forall|a: Seq<char>| any(rows, #[trigger] awaits(node, t, a)) == awaited_on(
        before,
        node,
        a,
    ) by {
        let hit = awaits(node, t, a);
        if any(rows, hit) {
            let q = choose|q: int| 0 <= q < rows.len() && hit(#[trigger] rows[q]);
            assert(rows[q] == before.operations[q]);
            assert(awaits_on(before, before.operations[q], node, a));
        }
        if awaited_on(before, node, a) {
            let q = choose|q: int|
                0 <= q < before.operations.len() && awaits_on(
                    before,
                    #[trigger] before.operations[q],
                    node,
                    a,
                );
            assert(rows[q] == before.operations[q]);
            assert(hit(rows[q]));
        }
    }
    let cancel = cancelled_operation(rows, node, t);
    let settle = settled("cancelled"@, reason_result(word), now_ms);
    assert forall|q: int| 0 <= q < rows.len() implies cancel(#[trigger] rows[q]) == waits_on(
        before,
        before.operations[q],
        node,
    ) && (cancel(rows[q]) ==> rows[q] == before.operations[q]) by {
        let row = before.operations[q];
        if row.record.approval_id is Some {
            assert(any(rows, awaits(node, t, row.record.approval_id->0)) == awaited_on(
                before,
                node,
                row.record.approval_id->0,
            ));
        }
    }
    let wanted = awaited_approval(rows, node, t);
    let approvals = before.operation_approvals;
    assert forall|q: int| 0 <= q < approvals.len() implies wanted(#[trigger] approvals[q]) == (
    approvals[q].tenant_id == t && approvals[q].record.status == "pending"@ && awaited_on(
        before,
        node,
        approvals[q].record.id,
    )) by {
        assert(any(rows, awaits(node, t, approvals[q].record.id)) == awaited_on(
            before,
            node,
            approvals[q].record.id,
        ));
    }
    lemma_attempts(approvals, wanted, lapsed(now_ms));
    lemma_attempts(rows, cancel, settle);
    if attempted(approvals, wanted, lapsed(now_ms)) is Some {
        lemma_attempted(approvals, wanted, lapsed(now_ms));
        if attempted(rows, cancel, settle) is Some {
            lemma_attempted(rows, cancel, settle);
            let after = mid.cancel_node_operations(node, word, now_ms)->Ok_0;
            assert forall|q: int| 0 <= q < before.operations.len() implies
                #[trigger] after.operations[q] == if runs_under_usable(
                before,
                before.operations[q],
                node,
                now_ms,
            ) {
                closed_for(before.operations[q], "revoked"@, reason, now_ms)
            } else if waits_on(before, before.operations[q], node) {
                closed_for(before.operations[q], "cancelled"@, word, now_ms)
            } else {
                before.operations[q]
            } by {
                let row = rows[q];
                assert(cancel(row) == waits_on(before, before.operations[q], node));
            }
            assert forall|q: int| 0 <= q < before.operations.len() && waits_on(
                before,
                #[trigger] before.operations[q],
                node,
            ) implies before.operations[q].record.version < i64::MAX by {
                assert(cancel(rows[q]));
                assert(settle(rows[q]) is Some);
            }
            assert forall|q: int| 0 <= q < approvals.len() implies
                #[trigger] after.operation_approvals[q] == {
                let row = approvals[q];
                if row.tenant_id == t && row.record.status == "pending"@ && awaited_on(
                    before,
                    node,
                    row.record.id,
                ) {
                    OperationApprovalRowView {
                        record: OperationApprovalRecordView {
                            status: "expired"@,
                            decided_at_ms: Some(now_ms),
                            version: (row.record.version + 1) as i64,
                            ..row.record
                        },
                        ..row
                    }
                } else {
                    row
                }
            } by {
                if wanted(approvals[q]) {
                    assert(lapsed(now_ms)(approvals[q]) is Some);
                }
            }
        } else {
            let q = choose|q: int|
                0 <= q < rows.len() && cancel(#[trigger] rows[q]) && settle(rows[q]) is None;
            assert(waits_on(before, before.operations[q], node));
        }
    } else {
        let q = choose|q: int|
            0 <= q < approvals.len() && wanted(#[trigger] approvals[q]) && lapsed(now_ms)(
                approvals[q],
            ) is None;
        assert(approvals[q].record.version == i64::MAX);
    }
}

/// A rewriting of rows fails exactly where one of them cannot be rewritten.
proof fn lemma_attempts<V>(rows: Seq<V>, hit: spec_fn(V) -> bool, change: spec_fn(V) -> Option<V>)
    ensures
        attempted(rows, hit, change) is None <==> exists|q: int|
            0 <= q < rows.len() && hit(#[trigger] rows[q]) && change(rows[q]) is None,
{
    let bad = |v: V| hit(v) && change(v) is None;
    if any(rows, bad) {
        let q = choose|q: int| 0 <= q < rows.len() && bad(#[trigger] rows[q]);
        assert(hit(rows[q]) && change(rows[q]) is None);
    }
    if exists|q: int| 0 <= q < rows.len() && hit(#[trigger] rows[q]) && change(rows[q]) is None {
        let q = choose|q: int|
            0 <= q < rows.len() && hit(#[trigger] rows[q]) && change(rows[q]) is None;
        assert(bad(rows[q]));
    }
}

/// What ran under grants of the node that ran out failed, where the rows of grants that
/// ran out are as they were.
#[verifier::rlimit(40)]
proof fn lemma_failed(
    before: StoreView,
    mid: StoreView,
    node: Seq<char>,
    reason: Seq<char>,
    word: Seq<char>,
    now_ms: i64,
)
    requires
        unique(before.grants, grant_id()),
        mid.tenant_id == before.tenant_id,
        mid.grants.len() == before.grants.len(),
        forall|q: int|
            0 <= q < before.grants.len() ==> #[trigger] mid.grants[q] == if usable(
                before.grants[q],
                node,
                before.tenant_id,
                now_ms,
            ) {
                grant_revoked(now_ms)(before.grants[q])
            } else {
                before.grants[q]
            },
        mid.operations.len() == before.operations.len(),
        forall|q: int|
            0 <= q < before.operations.len() ==> #[trigger] mid.operations[q]
                == if runs_under_usable(before, before.operations[q], node, now_ms) {
                closed_for(before.operations[q], "revoked"@, reason, now_ms)
            } else if waits_on(before, before.operations[q], node) {
                closed_for(before.operations[q], "cancelled"@, word, now_ms)
            } else {
                before.operations[q]
            },
    ensures
        mid.fail_overdue_operations(node, now_ms) is Ok <==> forall|q: int|
            0 <= q < before.operations.len() && runs_under_ran_out(
                before,
                #[trigger] before.operations[q],
                node,
                now_ms,
            ) ==> before.operations[q].record.version < i64::MAX,
        mid.fail_overdue_operations(node, now_ms) is Ok ==> {
            let after = mid.fail_overdue_operations(node, now_ms)->Ok_0;
            &&& after == (StoreView { operations: after.operations, ..mid })
            &&& after.operations.len() == before.operations.len()
            &&& forall|q: int|
                0 <= q < before.operations.len() ==> #[trigger] after.operations[q]
                    == if runs_under_usable(before, before.operations[q], node, now_ms) {
                    closed_for(before.operations[q], "revoked"@, reason, now_ms)
                } else if waits_on(before, before.operations[q], node) {
                    closed_for(before.operations[q], "cancelled"@, word, now_ms)
                } else if runs_under_ran_out(before, before.operations[q], node, now_ms) {
                    closed_for(before.operations[q], "failed"@, "expired"@, now_ms)
                } else {
                    before.operations[q]
                }
        },
{
    lemma_words();
    let t = before.tenant_id;
    let rows = mid.operations;
    let hit = overdue_operation(mid.grants, node, t, now_ms);
    let settle = settled("failed"@, reason_result("expired"@), now_ms);
    assert forall|q: int| 0 <= q < rows.len() implies hit(#[trigger] rows[q])
        == runs_under_ran_out(before, before.operations[q], node, now_ms) && (hit(rows[q])
        ==> rows[q] == before.operations[q] && !waits_on(before, before.operations[q], node)
        && !runs_under_usable(before, before.operations[q], node, now_ms)) by {
        let row = before.operations[q];
        if row.record.grant_id is Some {
            let g = row.record.grant_id->0;
            let over = |grant: GrantRowView|
                grant.record.id == g && lapsed_grant(node, t, now_ms)(grant);
            if runs_under_ran_out(before, row, node, now_ms) {
                let p = choose|p: int|
                    0 <= p < before.grants.len() && (#[trigger] before.grants[p]).record.id == g
                        && ran_out(before.grants[p], node, t, now_ms);
                assert(mid.grants[p] == before.grants[p]);
                assert(over(mid.grants[p]));
                if runs_under_usable(before, row, node, now_ms) {
                    let u = choose|u: int|
                        0 <= u < before.grants.len() && (#[trigger] before.grants[u]).record.id
                            == g && usable(before.grants[u], node, t, now_ms);
                    if u != p {
                        assert(grant_id()(before.grants[u]) == grant_id()(before.grants[p]));
                    }
                }
            }
            if any(mid.grants, over) {
                let p = choose|p: int| 0 <= p < mid.grants.len() && over(#[trigger] mid.grants[p]);
                assert(mid.grants[p] == before.grants[p]);
                assert(ran_out(before.grants[p], node, t, now_ms));
            }
        }
    }
    lemma_attempts(rows, hit, settle);
    if attempted(rows, hit, settle) is Some {
        lemma_attempted(rows, hit, settle);
        assert forall|q: int| 0 <= q < before.operations.len() && runs_under_ran_out(
            before,
            #[trigger] before.operations[q],
            node,
            now_ms,
        ) implies before.operations[q].record.version < i64::MAX by {
            assert(hit(rows[q]));
            assert(settle(rows[q]) is Some);
        }
        let after = mid.fail_overdue_operations(node, now_ms)->Ok_0;
        assert forall|q: int| 0 <= q < before.operations.len() implies
            #[trigger] after.operations[q] == if runs_under_usable(
            before,
            before.operations[q],
            node,
            now_ms,
        ) {
            closed_for(before.operations[q], "revoked"@, reason, now_ms)
        } else if waits_on(before, before.operations[q], node) {
            closed_for(before.operations[q], "cancelled"@, word, now_ms)
        } else if runs_under_ran_out(before, before.operations[q], node, now_ms) {
            closed_for(before.operations[q], "failed"@, "expired"@, now_ms)
        } else {
            before.operations[q]
        } by {
            let row = rows[q];
            if hit(row) {
                assert(settle(row) is Some);
            }
        }
    } else {
        let q = choose|q: int|
            0 <= q < rows.len() && hit(#[trigger] rows[q]) && settle(rows[q]) is None;
        assert(runs_under_ran_out(before, before.operations[q], node, now_ms));
    }
}

/// Whether a document revokes a node, as it says.
pub open spec fn document_revokes(
    text: Seq<char>,
    parsed: Parsed<NodeRevocationView>,
    node: Seq<char>,
    epoch: i64,
    now_ms: i64,
) -> bool {
    sendable(text) && match parsed {
        Parsed::Document { kind, epoch: signed, body } => kind == DocumentKind::NodeRevocation
            && signed == epoch && body.issuer_epoch == epoch && body.node_id == node
            && body.revoked_at_ms <= i64::MAX && signed_about(body.revoked_at_ms, now_ms),
        _ => false,
    }
}

/// Whether the authority of a node was withdrawn: it is revoked where it was active,
/// with its active workloads; its usable grants are revoked and its other open ones
/// expired; what ran under them is revoked or failed; what waited on it is cancelled,
/// with the approvals it waited for; and it is queued to be told.
pub open spec fn is_withdrawn(
    before: StoreView,
    after: StoreView,
    node: Seq<char>,
    now_ms: i64,
) -> bool {
    &&& grants_ended(before, after, node, now_ms)
    &&& approvals_lapsed(before, after, node, now_ms)
    &&& after.operations.len() == before.operations.len()
    &&& forall|q: int|
        0 <= q < before.operations.len() ==> #[trigger] after.operations[q]
            == if runs_under_usable(before, before.operations[q], node, now_ms) {
            closed_for(before.operations[q], "revoked"@, "operator"@, now_ms)
        } else if waits_on(before, before.operations[q], node) {
            closed_for(before.operations[q], "cancelled"@, "node_revoked"@, now_ms)
        } else if runs_under_ran_out(before, before.operations[q], node, now_ms) {
            closed_for(before.operations[q], "failed"@, "expired"@, now_ms)
        } else {
            before.operations[q]
        }
    &&& after.workloads.len() == before.workloads.len()
    &&& forall|q: int|
        0 <= q < before.workloads.len() ==> #[trigger] after.workloads[q] == {
            let row = before.workloads[q];
            if row.tenant_id == before.tenant_id && row.record.node_id == node && row.record.status
                == "active"@ {
                WorkloadRowView {
                    record: WorkloadRecordView {
                        status: "revoked"@,
                        revoked_at_ms: Some(now_ms),
                        registration_version: (row.record.registration_version + 1) as i64,
                        version: (row.record.version + 1) as i64,
                        ..row.record
                    },
                    ..row
                }
            } else {
                row
            }
        }
    &&& after.nodes.len() == before.nodes.len()
    &&& forall|q: int|
        0 <= q < before.nodes.len() ==> #[trigger] after.nodes[q] == {
            let row = before.nodes[q];
            if row.id == node && row.tenant_id == before.tenant_id && row.status == "active"@ {
                NodeRowView {
                    status: "revoked"@,
                    revoked_at_ms: Some(now_ms),
                    version: (row.version + 1) as i64,
                    ..row
                }
            } else {
                row
            }
        }
    &&& after.node_revocation_queue == if exists|q: int|
        0 <= q < before.node_revocation_queue.len()
            && (#[trigger] before.node_revocation_queue[q]).node_id == node {
        before.node_revocation_queue
    } else {
        before.node_revocation_queue.push(
            NodeRevocationRowView { node_id: node, created_at_ms: now_ms },
        )
    }
}

/// Whether every row that a revocation rewrites has a version left.
pub open spec fn versions_are_left(state: StoreView, node: Seq<char>, now_ms: i64) -> bool {
    &&& forall|q: int|
        0 <= q < state.operations.len() && (waits_on(state, #[trigger] state.operations[q], node)
            || runs_under_ran_out(state, state.operations[q], node, now_ms))
            ==> state.operations[q].record.version < i64::MAX
    &&& forall|q: int|
        0 <= q < state.operation_approvals.len()
            && (#[trigger] state.operation_approvals[q]).tenant_id
            == state.tenant_id && state.operation_approvals[q].record.status == "pending"@
            && awaited_on(state, node, state.operation_approvals[q].record.id)
            ==> state.operation_approvals[q].record.version < i64::MAX
    &&& forall|q: int|
        0 <= q < state.workloads.len() && (#[trigger] state.workloads[q]).tenant_id
            == state.tenant_id && state.workloads[q].record.node_id == node
            && state.workloads[q].record.status == "active"@
            ==> state.workloads[q].record.version < i64::MAX
            && state.workloads[q].record.registration_version < i64::MAX
    &&& forall|q: int|
        0 <= q < state.nodes.len() && (#[trigger] state.nodes[q]).id == node
            && state.nodes[q].tenant_id == state.tenant_id && state.nodes[q].status == "active"@
            ==> state.nodes[q].version < i64::MAX
}

/// Stripping a node succeeds exactly where the versions of what it strips are left.
proof fn lemma_strip(state: StoreView, node: Seq<char>, now_ms: i64)
    ensures
        state.strip_node(node, now_ms) is Ok <==> {
            &&& forall|q: int|
                0 <= q < state.workloads.len() && (#[trigger] state.workloads[q]).tenant_id
                    == state.tenant_id && state.workloads[q].record.node_id == node
                    && state.workloads[q].record.status == "active"@
                    ==> state.workloads[q].record.version < i64::MAX
                    && state.workloads[q].record.registration_version < i64::MAX
            &&& forall|q: int|
                0 <= q < state.nodes.len() && (#[trigger] state.nodes[q]).id == node
                    && state.nodes[q].tenant_id == state.tenant_id && state.nodes[q].status
                    == "active"@ ==> state.nodes[q].version < i64::MAX
        },
        state.strip_node(node, now_ms) is Ok ==> {
            let after = state.strip_node(node, now_ms)->Ok_0;
            &&& after == (StoreView { workloads: after.workloads, nodes: after.nodes, ..state })
            &&& after.workloads == updated(
                state.workloads,
                active_workload_on(node, state.tenant_id),
                |row: WorkloadRowView| workload_revoked(Some(now_ms))(row)->0,
            )
            &&& after.nodes == updated(
                state.nodes,
                active_node(node, state.tenant_id),
                |row: NodeRowView| node_revoked(now_ms)(row)->0,
            )
            &&& forall|q: int|
                0 <= q < state.workloads.len() && active_workload_on(node, state.tenant_id)(
                    #[trigger] state.workloads[q],
                ) ==> workload_revoked(Some(now_ms))(state.workloads[q]) is Some
            &&& forall|q: int|
                0 <= q < state.nodes.len() && active_node(node, state.tenant_id)(
                    #[trigger] state.nodes[q],
                ) ==> node_revoked(now_ms)(state.nodes[q]) is Some
        },
{
    let on = active_workload_on(node, state.tenant_id);
    let active = active_node(node, state.tenant_id);
    lemma_attempts(state.workloads, on, workload_revoked(Some(now_ms)));
    lemma_attempts(state.nodes, active, node_revoked(now_ms));
    if attempted(state.workloads, on, workload_revoked(Some(now_ms))) is Some {
        lemma_attempted(state.workloads, on, workload_revoked(Some(now_ms)));
        assert forall|q: int| 0 <= q < state.workloads.len() && (
        #[trigger] state.workloads[q]).tenant_id == state.tenant_id
            && state.workloads[q].record.node_id == node && state.workloads[q].record.status
            == "active"@ implies state.workloads[q].record.version < i64::MAX
            && state.workloads[q].record.registration_version < i64::MAX by {
            assert(on(state.workloads[q]));
        }
    } else {
        let q = choose|q: int|
            0 <= q < state.workloads.len() && on(#[trigger] state.workloads[q])
                && workload_revoked(Some(now_ms))(state.workloads[q]) is None;
        assert(state.workloads[q].record.node_id == node);
    }
    if attempted(state.nodes, active, node_revoked(now_ms)) is Some {
        lemma_attempted(state.nodes, active, node_revoked(now_ms));
        assert forall|q: int| 0 <= q < state.nodes.len() && (#[trigger] state.nodes[q]).id == node
            && state.nodes[q].tenant_id == state.tenant_id && state.nodes[q].status
            == "active"@ implies state.nodes[q].version < i64::MAX by {
            assert(active(state.nodes[q]));
        }
    } else {
        let q = choose|q: int|
            0 <= q < state.nodes.len() && active(#[trigger] state.nodes[q]) && node_revoked(
                now_ms,
            )(state.nodes[q]) is None;
        assert(state.nodes[q].id == node);
    }
}

/// A node of the tenant that is not revoked is revoked only by its own document, with
/// drafts that revoke every grant it can still use. Its authority is then withdrawn
/// whole, with a tombstone for each of those grants, and the documents are sent to it.
/// Where anything is amiss there is an error and nothing changes.
#[verifier::rlimit(80)]
pub proof fn a_revoked_node_loses_its_whole_authority(
    state: StoreView,
    c: ClockReadingView,
    node: Seq<char>,
    revocations: Seq<NodeGrantRevocationDraftView>,
    document_json: Seq<char>,
    document: Parsed<NodeRevocationView>,
    i: int,
)
    requires
        unique(state.nodes, node_id()),
        unique(state.grants, grant_id()),
        runs(state, c),
        0 <= i < state.nodes.len(),
        state.nodes[i].id == node,
        state.nodes[i].tenant_id == state.tenant_id,
        state.nodes[i].status != "revoked"@,
    ensures
        ({
            let (after, reply) = state.revoke_node(c, node, revocations, document_json, document);
            let s = state.checkpoint_clock(c).0;
            match reply {
                Err(_) => after == s,
                Ok(done) => {
                    &&& done
                    &&& document_revokes(
                        document_json,
                        document,
                        node,
                        state.meta.issuer_epoch,
                        c.now_ms,
                    )
                    &&& drafts_cover(state, revocations, None, node, c.now_ms)
                    &&& versions_are_left(state, node, c.now_ms)
                    &&& is_withdrawn(state, after, node, c.now_ms)
                    &&& tombstones_left(
                        state,
                        after,
                        node,
                        "operator"@,
                        revocations.len(),
                        c.now_ms,
                    )
                    &&& documents_sent(
                        state.node_inbox,
                        after.node_inbox,
                        revocations,
                        node,
                        document_json,
                        c.now_ms,
                    )
                    &&& after == (StoreView {
                        grants: after.grants,
                        operations: after.operations,
                        operation_approvals: after.operation_approvals,
                        grant_tombstones: after.grant_tombstones,
                        node_inbox: after.node_inbox,
                        node_revocation_queue: after.node_revocation_queue,
                        workloads: after.workloads,
                        nodes: after.nodes,
                        ..s
                    })
                },
            }
        }),
{
    lemma_runs(state, c);
    lemma_words();
    let s = state.checkpoint_clock(c).0;
    let t = state.tenant_id;
    let now_ms = c.now_ms;
    lemma_sole(state.nodes, node_id(), node_with(node, t), i);
    a_node_is_revoked_by_its_own_document(
        document_json,
        document,
        node,
        now_ms,
        state.meta.issuer_epoch,
    );
    if state.revoke_node(c, node, revocations, document_json, document).1 is Ok {
        let validated = lemma_node_retired(s, revocations, None, node, "operator"@, now_ms);
        let retired = s.retire_node_grants(revocations, None, node, "operator"@, now_ms)->Ok_0;
        lemma_midway(s, retired, validated, node, "operator"@, now_ms);
        a_document_is_sent_behind_the_others(retired, node, document_json, Some(now_ms));
        let mailed = retired.enqueue(node, document_json, Some(now_ms))->Ok_0;
        let queued = mailed.queue_revocation(node, now_ms);
        assert({
        let taken = queued_revocation(node);
        any(s.node_revocation_queue, taken) == (exists|q: int|
            0 <= q < s.node_revocation_queue.len()
                && (#[trigger] s.node_revocation_queue[q]).node_id == node)
    }) by {
        let taken = queued_revocation(node);
        if exists|q: int|
            0 <= q < s.node_revocation_queue.len()
                && (#[trigger] s.node_revocation_queue[q]).node_id == node {
            let q = choose|q: int|
                0 <= q < s.node_revocation_queue.len()
                    && (#[trigger] s.node_revocation_queue[q]).node_id == node;
            assert(taken(s.node_revocation_queue[q]));
        }
        if any(s.node_revocation_queue, taken) {
            let q = choose|q: int|
                0 <= q < s.node_revocation_queue.len()
                    && taken(#[trigger] s.node_revocation_queue[q]);
            assert(s.node_revocation_queue[q].node_id == node);
        }
    };
        assert(is_midway(s, queued, node, "operator"@, now_ms));
        lemma_cancelled(s, queued, node, "operator"@, "node_revoked"@, now_ms);
        let cancelled = queued.cancel_node_operations(node, "node_revoked"@, now_ms)->Ok_0;
        lemma_failed(s, cancelled, node, "operator"@, "node_revoked"@, now_ms);
        let failed = cancelled.fail_overdue_operations(node, now_ms)->Ok_0;
        let expired = failed.expire_node_grants(node, now_ms);
        lemma_strip(expired, node, now_ms);
        let after = expired.strip_node(node, now_ms)->Ok_0;
        assert(grants_ended(s, after, node, now_ms));
        assert(is_withdrawn(s, after, node, now_ms));
        lemma_left(s, retired, after, validated, revocations, node, "operator"@, now_ms);
        lemma_sent(s, retired, after, validated, revocations, node, document_json, now_ms);
        assert(is_withdrawn(state, after, node, now_ms)) by {
            lemma_same(state, s, node, now_ms);
        }
    }
}

/// What an operation waits for or runs under does not depend on the clock's marks.
proof fn lemma_same(state: StoreView, s: StoreView, node: Seq<char>, now_ms: i64)
    requires
        s == crate::moment_laws::timed(state, s),
    ensures
        forall|row: OperationRowView| #[trigger]
            waits_on(s, row, node) == waits_on(state, row, node),
        forall|row: OperationRowView| #[trigger]
            runs_under_usable(s, row, node, now_ms) == runs_under_usable(state, row, node, now_ms),
        forall|row: OperationRowView| #[trigger]
            runs_under_ran_out(s, row, node, now_ms) == runs_under_ran_out(
                state,
                row,
                node,
                now_ms,
            ),
        forall|a: Seq<char>| #[trigger] awaited_on(s, node, a) == awaited_on(state, node, a),
{
    assert forall|a: Seq<char>| #[trigger] awaited_on(s, node, a) == awaited_on(state, node, a) by {
        if awaited_on(s, node, a) {
            let q = choose|q: int|
                0 <= q < s.operations.len() && awaits_on(s, #[trigger] s.operations[q], node, a);
            assert(awaits_on(state, state.operations[q], node, a));
        }
        if awaited_on(state, node, a) {
            let q = choose|q: int|
                0 <= q < state.operations.len() && awaits_on(
                    state,
                    #[trigger] state.operations[q],
                    node,
                    a,
                );
            assert(awaits_on(s, s.operations[q], node, a));
        }
    }
}

/// The tombstones of the retired grants are those that were left.
proof fn lemma_left(
    state: StoreView,
    retired: StoreView,
    after: StoreView,
    validated: Seq<(NodeGrantRevocationDraftView, i64)>,
    drafts: Seq<NodeGrantRevocationDraftView>,
    node: Seq<char>,
    reason: Seq<char>,
    now_ms: i64,
)
    requires
        is_retired(state, retired, validated, node, reason, now_ms),
        after.grant_tombstones == retired.grant_tombstones,
        validated.len() == drafts.len(),
        forall|q: int|
            0 <= q < state.grants.len() ==> named(
                validated,
                (#[trigger] state.grants[q]).record.id,
            ) == usable(state.grants[q], node, state.tenant_id, now_ms),
    ensures
        tombstones_left(state, after, node, reason, drafts.len(), now_ms),
{
    let old = state.grant_tombstones;
    let new = after.grant_tombstones;
    assert forall|k: int| old.len() <= k < new.len() implies (#[trigger] new[k]).node_id == node
        && new[k].reason == reason && new[k].created_at_ms == now_ms by {
        let entry = validated[k - old.len()];
        assert(new[old.len() + (k - old.len())] == new[k]);
    }
    assert forall|q: int| 0 <= q < state.grants.len() && usable(
        #[trigger] state.grants[q],
        node,
        state.tenant_id,
        now_ms,
    ) implies exists|k: int|
        old.len() <= k < new.len() && (#[trigger] new[k]).grant_id == state.grants[q].record.id by {
        let k = choose|k: int|
            0 <= k < validated.len() && (#[trigger] validated[k]).0.grant_id
                == state.grants[q].record.id;
        assert(new[old.len() + k].grant_id == state.grants[q].record.id);
    }
}

/// The documents of the drafts, and one more behind them, are those that were sent.
proof fn lemma_sent(
    state: StoreView,
    retired: StoreView,
    after: StoreView,
    validated: Seq<(NodeGrantRevocationDraftView, i64)>,
    drafts: Seq<NodeGrantRevocationDraftView>,
    node: Seq<char>,
    text: Seq<char>,
    now_ms: i64,
)
    requires
        exists|reason: Seq<char>| is_retired(state, retired, validated, node, reason, now_ms),
        sent(retired.node_inbox, after.node_inbox, node, text, now_ms),
        validated.len() == drafts.len(),
        forall|k: int| 0 <= k < validated.len() ==> drafts.contains((#[trigger] validated[k]).0),
    ensures
        documents_sent(state.node_inbox, after.node_inbox, drafts, node, text, now_ms),
{
    let reason = choose|reason: Seq<char>|
        is_retired(state, retired, validated, node, reason, now_ms);
    let before = state.node_inbox;
    let rows = after.node_inbox;
    assert(rows.drop_last() == retired.node_inbox);
    assert(rows.take(before.len() as int) =~= retired.node_inbox.take(before.len() as int));
    assert forall|k: int| before.len() <= k < rows.len() - 1 implies {
        let row = #[trigger] rows[k];
        row.node_id == node && row.created_at_ms == now_ms && row.delivered_at_ms is None
            && row.acked_at_ms is None && is_a_draft(drafts, row.envelope_json)
    } by {
        assert(rows.drop_last()[k] == rows[k]);
        let entry = validated[k - before.len()];
        assert(retired.node_inbox[before.len() + (k - before.len())] == rows[k]);
        assert(drafts.contains(entry.0));
        let d = choose|d: int| 0 <= d < drafts.len() && drafts[d] == entry.0;
        assert(drafts[d].envelope_json == rows[k].envelope_json);
    }
}


/// Where a node can use no grant, nothing has to be retired.
proof fn lemma_nothing_to_retire(
    state: StoreView,
    demanded: Option<Seq<char>>,
    node: Seq<char>,
    reason: Seq<char>,
    now_ms: i64,
)
    requires
        forall|q: int|
            0 <= q < state.grants.len() ==> !usable(
                #[trigger] state.grants[q],
                node,
                state.tenant_id,
                now_ms,
            ),
    ensures
        state.retire_node_grants(Seq::empty(), demanded, node, reason, now_ms)
            == Ok::<StoreView, StoreError>(
            state,
        ),
{
    let live = live_grant(node, state.tenant_id, now_ms);
    assert forall|q: int| 0 <= q < state.grants.len() implies !live(#[trigger] state.grants[q]) by {
        assert(!usable(state.grants[q], node, state.tenant_id, now_ms));
    }
    lemma_none(state.grants, live);
    let picked = selected(state.grants, live, grant_deadline());
    assert(picked.len() == 0);
    lemma_deadline_order();
    crate::relation_laws::ordered_is_a_sorted_permutation(picked, deadline_order());
    assert(state.live_grants(node, now_ms).len() == 0) by {
        broadcast use vstd::seq_lib::group_to_multiset_ensures;

        assert(state.live_grants(node, now_ms).to_multiset().len() == picked.to_multiset().len());
    }
    let none = Seq::<NodeGrantRevocationDraftView>::empty();
    let checked = checked_drafts(
        state.live_grants(node, now_ms),
        none,
        demanded,
        node,
        now_ms,
        state.meta.issuer_epoch,
    );
    assert(checked is Ok && checked->Ok_0.len() == 0);
    assert(state.retire_grants(checked->Ok_0, node, reason, now_ms)
        == Ok::<StoreView, StoreError>(state));
}

/// A node of the tenant that is not revoked, and that can use no grant, is revoked
/// exactly where its own document comes without drafts, its inbox has a number left and
/// so has the version of every row that is rewritten.
#[verifier::rlimit(60)]
pub proof fn a_node_without_usable_grants_is_revoked_by_its_document_alone(
    state: StoreView,
    c: ClockReadingView,
    node: Seq<char>,
    document_json: Seq<char>,
    document: Parsed<NodeRevocationView>,
    i: int,
)
    requires
        unique(state.nodes, node_id()),
        unique(state.grants, grant_id()),
        runs(state, c),
        0 <= i < state.nodes.len(),
        state.nodes[i].id == node,
        state.nodes[i].tenant_id == state.tenant_id,
        state.nodes[i].status != "revoked"@,
        forall|q: int|
            0 <= q < state.grants.len() ==> !usable(
                #[trigger] state.grants[q],
                node,
                state.tenant_id,
                c.now_ms,
            ),
    ensures
        state.revoke_node(c, node, Seq::empty(), document_json, document).1 is Ok
            <==> document_revokes(document_json, document, node, state.meta.issuer_epoch, c.now_ms)
            && roomy(state.node_inbox, node, 1) && versions_are_left(state, node, c.now_ms),
{
    lemma_runs(state, c);
    lemma_words();
    let s = state.checkpoint_clock(c).0;
    let t = state.tenant_id;
    let now_ms = c.now_ms;
    lemma_sole(state.nodes, node_id(), node_with(node, t), i);
    lemma_same(state, s, node, now_ms);
    a_node_is_revoked_by_its_own_document(
        document_json,
        document,
        node,
        now_ms,
        state.meta.issuer_epoch,
    );
    lemma_nothing_to_retire(s, None, node, "operator"@, now_ms);
    a_document_is_sent_behind_the_others(s, node, document_json, Some(now_ms));
    if s.enqueue(node, document_json, Some(now_ms)) is Ok {
        let mailed = s.enqueue(node, document_json, Some(now_ms))->Ok_0;
        let queued = mailed.queue_revocation(node, now_ms);
        assert forall|q: int| 0 <= q < s.operations.len() implies !runs_under_usable(
            s,
            #[trigger] s.operations[q],
            node,
            now_ms,
        ) by {}
        assert(is_midway(s, queued, node, "operator"@, now_ms));
        lemma_cancelled(s, queued, node, "operator"@, "node_revoked"@, now_ms);
        if queued.cancel_node_operations(node, "node_revoked"@, now_ms) is Ok {
            let cancelled = queued.cancel_node_operations(node, "node_revoked"@, now_ms)->Ok_0;
            lemma_failed(s, cancelled, node, "operator"@, "node_revoked"@, now_ms);
            if cancelled.fail_overdue_operations(node, now_ms) is Ok {
                let failed = cancelled.fail_overdue_operations(node, now_ms)->Ok_0;
                let expired = failed.expire_node_grants(node, now_ms);
                lemma_strip(expired, node, now_ms);
                assert(expired.workloads == state.workloads && expired.nodes == state.nodes);
            }
        }
    }
}

/// Whether a rotation may be staged for a node: it is active, none is staged for it, it
/// is at the key that was expected, and the draft takes it from this key to the next
/// one, with other keys.
pub open spec fn can_be_staged(
    state: StoreView,
    row: NodeRowView,
    expected_key_version: i64,
    rotation: NodeKeyRotationView,
) -> bool {
    &&& row.status == "active"@
    &&& forall|q: int|
        0 <= q < state.node_key_rotations.len() ==> (#[trigger] state.node_key_rotations[q]).node_id
            != row.id
    &&& row.key_version == expected_key_version
    &&& row.key_version < 0 ==> rotation.from_key_version == 0
    &&& row.key_version >= 0 ==> rotation.from_key_version == row.key_version
    &&& row.key_version < 0 ==> rotation.to_key_version == 0
    &&& 0 <= row.key_version < i64::MAX ==> rotation.to_key_version == row.key_version + 1
    &&& row.key_version == i64::MAX ==> rotation.to_key_version == i64::MAX
    &&& rotation.node_id == row.id
    &&& rotation.signing_public != row.signing_pub
    &&& rotation.recipient_public != row.recipient_pub
}

/// Whether a document rotates the key of a node as the draft says.
pub open spec fn document_rotates(
    draft: NodeKeyRotationDraftView,
    node: Seq<char>,
    epoch: i64,
    now_ms: i64,
) -> bool {
    sendable(draft.rotation_document_json) && now_ms > 0 && match draft.parsed {
        Parsed::Document { kind, epoch: signed, body } => kind == DocumentKind::NodeKeyRotation
            && signed == epoch && body.issuer_epoch == epoch && body.node_id == node && body
            == draft.rotation,
        _ => false,
    }
}

/// Whether a rotation was staged: the node keeps its key; its usable grants are revoked
/// and its other open ones expired; what ran under the usable ones is revoked; what
/// waited on it is cancelled, with the approvals it waited for; and the rotation is
/// stored, with its key in the history.
pub open spec fn is_staged(
    before: StoreView,
    after: StoreView,
    node: Seq<char>,
    from_key_version: i64,
    rotation: NodeKeyRotationView,
    now_ms: i64,
) -> bool {
    &&& grants_ended(before, after, node, now_ms)
    &&& approvals_lapsed(before, after, node, now_ms)
    &&& after.operations.len() == before.operations.len()
    &&& forall|q: int|
        0 <= q < before.operations.len() ==> #[trigger] after.operations[q]
            == if runs_under_usable(before, before.operations[q], node, now_ms) {
            closed_for(before.operations[q], "revoked"@, "key_rotation"@, now_ms)
        } else if waits_on(before, before.operations[q], node) {
            closed_for(before.operations[q], "cancelled"@, "node_key_rotation"@, now_ms)
        } else {
            before.operations[q]
        }
    &&& after.node_key_rotations == before.node_key_rotations.push(
        NodeKeyRotationRowView {
            node_id: node,
            rotation_id: rotation.rotation_id,
            from_key_version,
            to_key_version: rotation.to_key_version as i64,
            signing_pub: rotation.signing_public,
            recipient_pub: rotation.recipient_public,
            fingerprint: rotation.fingerprint,
            created_at_ms: now_ms,
        },
    )
    &&& after.node_key_history == before.node_key_history.push(
        NodeKeyRowView {
            node_id: node,
            key_version: rotation.to_key_version as i64,
            signing_pub: rotation.signing_public,
            recipient_pub: rotation.recipient_public,
            created_at_ms: now_ms,
            retired_at_ms: None,
        },
    )
}

/// A rotation is staged only where it may be, by its own document, with drafts that
/// revoke every grant that the node can still use because of the rotation. The grants
/// are then gone, with a tombstone for each that was usable, and the documents are sent
/// to the node. Where it may not be staged, or anything is amiss, nothing changes.
#[verifier::rlimit(80)]
pub proof fn a_staged_rotation_leaves_the_node_no_grant(
    state: StoreView,
    c: ClockReadingView,
    node: Seq<char>,
    expected_key_version: i64,
    draft: NodeKeyRotationDraftView,
    i: int,
)
    requires
        unique(state.nodes, node_id()),
        unique(state.grants, grant_id()),
        runs(state, c),
        0 <= i < state.nodes.len(),
        state.nodes[i].id == node,
        state.nodes[i].tenant_id == state.tenant_id,
    ensures
        ({
            let (after, reply) = state.stage_node_key_rotation(
                c,
                node,
                expected_key_version,
                draft,
            );
            let s = state.checkpoint_clock(c).0;
            if !can_be_staged(state, state.nodes[i], expected_key_version, draft.rotation) {
                after == s && reply == Ok::<bool, StoreError>(false)
            } else {
                match reply {
                    Err(_) => after == s,
                    Ok(done) => {
                        &&& done
                        &&& document_rotates(draft, node, state.meta.issuer_epoch, c.now_ms)
                        &&& drafts_cover(
                            state,
                            draft.grant_revocations,
                            Some("key_rotation"@),
                            node,
                            c.now_ms,
                        )
                        &&& is_staged(
                            state,
                            after,
                            node,
                            state.nodes[i].key_version,
                            draft.rotation,
                            c.now_ms,
                        )
                        &&& tombstones_left(
                            state,
                            after,
                            node,
                            "key_rotation"@,
                            draft.grant_revocations.len(),
                            c.now_ms,
                        )
                        &&& documents_sent(
                            state.node_inbox,
                            after.node_inbox,
                            draft.grant_revocations,
                            node,
                            draft.rotation_document_json,
                            c.now_ms,
                        )
                        &&& after == (StoreView {
                            grants: after.grants,
                            operations: after.operations,
                            operation_approvals: after.operation_approvals,
                            grant_tombstones: after.grant_tombstones,
                            node_inbox: after.node_inbox,
                            node_key_rotations: after.node_key_rotations,
                            node_key_history: after.node_key_history,
                            ..s
                        })
                    },
                }
            }
        }),
{
    lemma_runs(state, c);
    lemma_words();
    let s = state.checkpoint_clock(c).0;
    let t = state.tenant_id;
    let now_ms = c.now_ms;
    let why = "key_rotation"@;
    let word = "node_key_rotation"@;
    lemma_sole(state.nodes, node_id(), node_with(node, t), i);
    assert({
        let taken = rotation_of(node);
        any(state.node_key_rotations, taken) == (exists|q: int|
            0 <= q < state.node_key_rotations.len()
                && (#[trigger] state.node_key_rotations[q]).node_id == node)
    }) by {
        let taken = rotation_of(node);
        if exists|q: int|
            0 <= q < state.node_key_rotations.len()
                && (#[trigger] state.node_key_rotations[q]).node_id == node {
            let q = choose|q: int|
                0 <= q < state.node_key_rotations.len()
                    && (#[trigger] state.node_key_rotations[q]).node_id == node;
            assert(taken(state.node_key_rotations[q]));
        }
        if any(state.node_key_rotations, taken) {
            let q = choose|q: int|
                0 <= q < state.node_key_rotations.len()
                    && taken(#[trigger] state.node_key_rotations[q]);
            assert(state.node_key_rotations[q].node_id == node);
        }
    };
    lemma_same(state, s, node, now_ms);
    a_key_is_rotated_by_its_own_document(
        draft.rotation_document_json,
        draft.parsed,
        draft.rotation,
        node,
        now_ms,
        state.meta.issuer_epoch,
    );
    let reply = state.stage_node_key_rotation(c, node, expected_key_version, draft).1;
    if reply == Ok::<bool, StoreError>(true) {
        let drafts = draft.grant_revocations;
        let validated = lemma_node_retired(s, drafts, Some(why), node, why, now_ms);
        let retired = s.retire_node_grants(drafts, Some(why), node, why, now_ms)->Ok_0;
        lemma_midway(s, retired, validated, node, why, now_ms);
        let expired = retired.expire_node_grants(node, now_ms);
        assert(is_midway(s, expired, node, why, now_ms));
        lemma_cancelled(s, expired, node, why, word, now_ms);
        let cancelled = expired.cancel_node_operations(node, word, now_ms)->Ok_0;
        let from = state.nodes[i].key_version;
        let staged = cancelled.stage_key(node, from, draft, now_ms)->Ok_0;
        a_document_is_sent_behind_the_others(
            staged,
            node,
            draft.rotation_document_json,
            Some(now_ms),
        );
        let after = staged.enqueue(node, draft.rotation_document_json, Some(now_ms))->Ok_0;
        assert(grants_ended(s, after, node, now_ms));
        assert(is_staged(s, after, node, from, draft.rotation, now_ms));
        lemma_left(s, retired, after, validated, drafts, node, why, now_ms);
        lemma_sent(
            s,
            retired,
            after,
            validated,
            drafts,
            node,
            draft.rotation_document_json,
            now_ms,
        );
        assert(is_staged(state, after, node, from, draft.rotation, now_ms));
    }
}

/// A rotation that may be staged for a node that can use no grant is staged exactly
/// where its own document comes without drafts, its key is not in the history, the
/// inbox has a number left and so has the version of every row that is rewritten.
#[verifier::rlimit(60)]
pub proof fn a_rotation_without_usable_grants_is_staged_by_its_document_alone(
    state: StoreView,
    c: ClockReadingView,
    node: Seq<char>,
    expected_key_version: i64,
    draft: NodeKeyRotationDraftView,
    i: int,
)
    requires
        unique(state.nodes, node_id()),
        runs(state, c),
        0 <= i < state.nodes.len(),
        state.nodes[i].id == node,
        state.nodes[i].tenant_id == state.tenant_id,
        can_be_staged(state, state.nodes[i], expected_key_version, draft.rotation),
        draft.grant_revocations.len() == 0,
        forall|q: int|
            0 <= q < state.grants.len() ==> !usable(
                #[trigger] state.grants[q],
                node,
                state.tenant_id,
                c.now_ms,
            ),
    ensures
        state.stage_node_key_rotation(c, node, expected_key_version, draft).1 is Ok <==> {
            &&& document_rotates(draft, node, state.meta.issuer_epoch, c.now_ms)
            &&& forall|q: int|
                0 <= q < state.node_key_history.len() ==> !((
                #[trigger] state.node_key_history[q]).node_id == node
                    && state.node_key_history[q].key_version == draft.rotation.to_key_version)
            &&& roomy(state.node_inbox, node, 1)
            &&& forall|q: int|
                0 <= q < state.operations.len() && waits_on(
                    state,
                    #[trigger] state.operations[q],
                    node,
                ) ==> state.operations[q].record.version < i64::MAX
            &&& forall|q: int|
                0 <= q < state.operation_approvals.len() && (
                #[trigger] state.operation_approvals[q]).tenant_id == state.tenant_id
                    && state.operation_approvals[q].record.status == "pending"@ && awaited_on(
                    state,
                    node,
                    state.operation_approvals[q].record.id,
                ) ==> state.operation_approvals[q].record.version < i64::MAX
        },
{
    lemma_runs(state, c);
    lemma_words();
    let s = state.checkpoint_clock(c).0;
    let t = state.tenant_id;
    let now_ms = c.now_ms;
    let why = "key_rotation"@;
    let word = "node_key_rotation"@;
    lemma_sole(state.nodes, node_id(), node_with(node, t), i);
    assert({
        let taken = rotation_of(node);
        any(state.node_key_rotations, taken) == (exists|q: int|
            0 <= q < state.node_key_rotations.len()
                && (#[trigger] state.node_key_rotations[q]).node_id == node)
    }) by {
        let taken = rotation_of(node);
        if exists|q: int|
            0 <= q < state.node_key_rotations.len()
                && (#[trigger] state.node_key_rotations[q]).node_id == node {
            let q = choose|q: int|
                0 <= q < state.node_key_rotations.len()
                    && (#[trigger] state.node_key_rotations[q]).node_id == node;
            assert(taken(state.node_key_rotations[q]));
        }
        if any(state.node_key_rotations, taken) {
            let q = choose|q: int|
                0 <= q < state.node_key_rotations.len()
                    && taken(#[trigger] state.node_key_rotations[q]);
            assert(state.node_key_rotations[q].node_id == node);
        }
    };
    lemma_same(state, s, node, now_ms);
    a_key_is_rotated_by_its_own_document(
        draft.rotation_document_json,
        draft.parsed,
        draft.rotation,
        node,
        now_ms,
        state.meta.issuer_epoch,
    );
    assert(draft.grant_revocations =~= Seq::empty());
    lemma_nothing_to_retire(s, Some(why), node, why, now_ms);
    let expired = s.expire_node_grants(node, now_ms);
    assert(is_midway(s, expired, node, why, now_ms));
    lemma_cancelled(s, expired, node, why, word, now_ms);
    if expired.cancel_node_operations(node, word, now_ms) is Ok {
        let cancelled = expired.cancel_node_operations(node, word, now_ms)->Ok_0;
        let from = state.nodes[i].key_version;
        let key = key_with(node, draft.rotation.to_key_version as i64);
        let rows = state.node_key_history;
        if any(rows, key) {
            let q = choose|q: int| 0 <= q < rows.len() && key(#[trigger] rows[q]);
            assert(rows[q].key_version == draft.rotation.to_key_version);
        } else {
            assert forall|q: int| 0 <= q < rows.len() implies !((#[trigger] rows[q]).node_id == node
                && rows[q].key_version == draft.rotation.to_key_version) by {
                assert(!key(rows[q]));
            }
        }
        if cancelled.stage_key(node, from, draft, now_ms) is Ok {
            let staged = cancelled.stage_key(node, from, draft, now_ms)->Ok_0;
            a_document_is_sent_behind_the_others(
                staged,
                node,
                draft.rotation_document_json,
                Some(now_ms),
            );
        }
    }
}

/// No rotation is staged for a node that the tenant does not have.
pub proof fn no_rotation_is_staged_for_an_absent_node(
    state: StoreView,
    c: ClockReadingView,
    node: Seq<char>,
    expected_key_version: i64,
    draft: NodeKeyRotationDraftView,
)
    requires
        runs(state, c),
        forall|q: int|
            0 <= q < state.nodes.len() ==> (#[trigger] state.nodes[q]).id != node
                || state.nodes[q].tenant_id != state.tenant_id,
    ensures
        state.stage_node_key_rotation(c, node, expected_key_version, draft) == (
            state.checkpoint_clock(c).0,
            Ok::<bool, StoreError>(false),
        ),
{
    lemma_runs(state, c);
    lemma_none(state.nodes, node_with(node, state.tenant_id));
}

/// A revoked node is revoked again without effect, and a node that the tenant does not
/// have is not revoked.
pub proof fn only_a_node_that_is_not_revoked_is_revoked(
    state: StoreView,
    c: ClockReadingView,
    node: Seq<char>,
    revocations: Seq<NodeGrantRevocationDraftView>,
    document_json: Seq<char>,
    document: Parsed<NodeRevocationView>,
)
    requires
        unique(state.nodes, node_id()),
        runs(state, c),
        forall|q: int|
            0 <= q < state.nodes.len() && (#[trigger] state.nodes[q]).id == node
                && state.nodes[q].tenant_id == state.tenant_id ==> state.nodes[q].status
                == "revoked"@,
    ensures
        state.revoke_node(c, node, revocations, document_json, document) == (
            state.checkpoint_clock(c).0,
            Ok::<bool, StoreError>(
                exists|q: int|
                    0 <= q < state.nodes.len() && (#[trigger] state.nodes[q]).id == node
                        && state.nodes[q].tenant_id == state.tenant_id,
            ),
        ),
{
    lemma_runs(state, c);
    let wanted = node_with(node, state.tenant_id);
    if exists|q: int|
        0 <= q < state.nodes.len() && (#[trigger] state.nodes[q]).id == node
            && state.nodes[q].tenant_id == state.tenant_id {
        let i = choose|q: int|
            0 <= q < state.nodes.len() && (#[trigger] state.nodes[q]).id == node
                && state.nodes[q].tenant_id == state.tenant_id;
        lemma_sole(state.nodes, node_id(), wanted, i);
    } else {
        lemma_none(state.nodes, wanted);
    }
}

/// Whether drafts revoke the grants that a node can still use, and nothing else: there
/// are as many, each for another grant, each for one that is usable, and each of these
/// is covered.
pub open spec fn drafts_fit(
    state: StoreView,
    drafts: Seq<NodeGrantRevocationDraftView>,
    demanded: Option<Seq<char>>,
    node: Seq<char>,
    now_ms: i64,
) -> bool {
    &&& drafts_cover(state, drafts, demanded, node, now_ms)
    &&& forall|d: int, e: int|
        0 <= d < e < drafts.len() ==> (#[trigger] drafts[d]).grant_id != (
        #[trigger] drafts[e]).grant_id
    &&& forall|d: int|
        0 <= d < drafts.len() ==> names_usable(
            state,
            (#[trigger] drafts[d]).grant_id,
            node,
            now_ms,
        )
}

/// Whether an identifier is that of a grant that a node can still use.
pub open spec fn names_usable(
    state: StoreView,
    grant: Seq<char>,
    node: Seq<char>,
    now_ms: i64,
) -> bool {
    exists|q: int|
        0 <= q < state.grants.len() && (#[trigger] state.grants[q]).record.id == grant && usable(
            state.grants[q],
            node,
            state.tenant_id,
            now_ms,
        )
}

/// Whether the usable grants of a node can be retired: none has a tombstone, and what
/// runs under them has a version left.
pub open spec fn can_be_retired(state: StoreView, node: Seq<char>, now_ms: i64) -> bool {
    &&& forall|k: int|
        0 <= k < state.grant_tombstones.len() ==> !names_usable(
            state,
            (#[trigger] state.grant_tombstones[k]).grant_id,
            node,
            now_ms,
        )
    &&& forall|q: int|
        0 <= q < state.operations.len() && runs_under_usable(
            state,
            #[trigger] state.operations[q],
            node,
            now_ms,
        ) ==> state.operations[q].record.version < i64::MAX
}

/// The grants that are asked for are the usable ones, each once.
proof fn lemma_asked_once(state: StoreView, node: Seq<char>, now_ms: i64)
    requires
        unique(state.grants, grant_id()),
    ensures
        ({
            let asked = state.live_grants(node, now_ms);
            &&& asked.len() == state.grants.filter(
                |row: GrantRowView| usable(row, node, state.tenant_id, now_ms),
            ).len()
            &&& forall|k: int|
                0 <= k < asked.len() ==> is_asked(state, node, now_ms, #[trigger] asked[k])
            &&& forall|k: int, m: int|
                0 <= k < m < asked.len() ==> (#[trigger] asked[k]).0 != (#[trigger] asked[m]).0
        }),
{
    broadcast use vstd::seq_lib::group_to_multiset_ensures;

    let live = live_grant(node, state.tenant_id, now_ms);
    let literal = |row: GrantRowView| usable(row, node, state.tenant_id, now_ms);
    assert(live =~= literal);
    let hits = state.grants.filter(live);
    let picked = selected(state.grants, live, grant_deadline());
    let asked = state.live_grants(node, now_ms);
    lemma_deadline_order();
    crate::relation_laws::ordered_is_a_sorted_permutation(picked, deadline_order());
    crate::relation_laws::lemma_unique_filter(state.grants, grant_id(), live);
    crate::relation_laws::lemma_filter_members(state.grants, live);
    assert(asked.to_multiset().len() == picked.to_multiset().len());
    assert(picked.no_duplicates()) by {
        assert forall|i: int, j: int| 0 <= i < picked.len() && 0 <= j < picked.len() && i
            != j implies picked[i] != picked[j] by {
            let low = if i < j {
                i
            } else {
                j
            };
            let high = if i < j {
                j
            } else {
                i
            };
            assert(grant_id()(hits[low]) != grant_id()(hits[high]));
        }
    }
    picked.lemma_multiset_has_no_duplicates();
    assert(asked.to_multiset() == picked.to_multiset());
    asked.lemma_multiset_has_no_duplicates_conv();
    assert forall|k: int| 0 <= k < asked.len() implies is_asked(
        state,
        node,
        now_ms,
        #[trigger] asked[k],
    ) by {
        assert(asked.contains(asked[k]));
        assert(picked.to_multiset().contains(asked[k]));
        assert(picked.contains(asked[k]));
        let j = choose|j: int| 0 <= j < picked.len() && picked[j] == asked[k];
        assert(hits.contains(hits[j]));
        let q = choose|q: int| 0 <= q < state.grants.len() && state.grants[q] == hits[j];
        assert(literal(state.grants[q]));
    }
    assert forall|k: int, m: int| 0 <= k < m < asked.len() implies (#[trigger] asked[k]).0 != (
    #[trigger] asked[m]).0 by {
        if asked[k].0 == asked[m].0 {
            assert(is_asked(state, node, now_ms, asked[k]));
            assert(is_asked(state, node, now_ms, asked[m]));
            let p = choose|p: int|
                0 <= p < state.grants.len() && usable(
                    #[trigger] state.grants[p],
                    node,
                    state.tenant_id,
                    now_ms,
                ) && state.grants[p].record.id == asked[k].0 && state.grants[p].record.expires_at_ms
                    == asked[k].1;
            let q = choose|q: int|
                0 <= q < state.grants.len() && usable(
                    #[trigger] state.grants[q],
                    node,
                    state.tenant_id,
                    now_ms,
                ) && state.grants[q].record.id == asked[m].0 && state.grants[q].record.expires_at_ms
                    == asked[m].1;
            if p < q {
                assert(grant_id()(state.grants[p]) != grant_id()(state.grants[q]));
            } else if q < p {
                assert(grant_id()(state.grants[q]) != grant_id()(state.grants[p]));
            }
            assert(asked[k] == asked[m]);
        }
    }
}

/// Whether a deadline is that of a usable grant.
spec fn is_asked(
    state: StoreView,
    node: Seq<char>,
    now_ms: i64,
    deadline: (Seq<char>, i64),
) -> bool {
    exists|q: int|
        0 <= q < state.grants.len() && usable(
            #[trigger] state.grants[q],
            node,
            state.tenant_id,
            now_ms,
        ) && state.grants[q].record.id == deadline.0 && state.grants[q].record.expires_at_ms
            == deadline.1
}

/// Fitting drafts are checked without a fault.
proof fn lemma_fitting_checked(
    state: StoreView,
    grants: Seq<(Seq<char>, i64)>,
    drafts: Seq<NodeGrantRevocationDraftView>,
    demanded: Option<Seq<char>>,
    node: Seq<char>,
    now_ms: i64,
)
    requires
        drafts_fit(state, drafts, demanded, node, now_ms),
        forall|k: int|
            0 <= k < grants.len() ==> is_asked(state, node, now_ms, #[trigger] grants[k]),
    ensures
        checked_drafts(grants, drafts, demanded, node, now_ms, state.meta.issuer_epoch) is Ok,
    decreases grants.len(),
{
    if grants.len() > 0 {
        let front = grants.drop_last();
        assert forall|k: int| 0 <= k < front.len() implies is_asked(
            state,
            node,
            now_ms,
            #[trigger] front[k],
        ) by {
            assert(front[k] == grants[k]);
        }
        lemma_fitting_checked(state, front, drafts, demanded, node, now_ms);
        let last = grants.last();
        assert(is_asked(state, node, now_ms, grants[grants.len() - 1]));
        let q = choose|q: int|
            0 <= q < state.grants.len() && usable(
                #[trigger] state.grants[q],
                node,
                state.tenant_id,
                now_ms,
            ) && state.grants[q].record.id == last.0 && state.grants[q].record.expires_at_ms
                == last.1;
        let grant = state.grants[q].record;
        assert(is_covered(state, drafts, demanded, node, now_ms, grant));
        let epoch = state.meta.issuer_epoch;
        let d = choose|d: int|
            0 <= d < drafts.len() && draft_revokes(
                #[trigger] drafts[d],
                grant,
                node,
                if demanded is Some {
                    demanded->0
                } else {
                    drafts[d].reason
                },
                epoch,
                now_ms,
            );
        assert forall|e: int| 0 <= e < drafts.len() && e != d implies !draft_for(last.0)(
            #[trigger] drafts[e],
        ) by {
            if e < d {
                assert(drafts[e].grant_id != drafts[d].grant_id);
            } else {
                assert(drafts[d].grant_id != drafts[e].grant_id);
            }
        }
        crate::relation_laws::lemma_at_most_one(drafts, draft_for(last.0), d);
        a_grant_goes_with_its_node_by_its_own_document(
            drafts[d].envelope_json,
            drafts[d].parsed,
            last.0,
            node,
            now_ms,
            last.1,
            epoch,
            if demanded is Some {
                demanded->0
            } else {
                drafts[d].reason
            },
        );
    }
}

/// A node whose inbox has numbers left has one less after a document.
proof fn lemma_one_number_less(
    before: Seq<InboxRowView>,
    after: Seq<InboxRowView>,
    node: Seq<char>,
    text: Seq<char>,
    at_ms: i64,
    more: int,
)
    requires
        sent(before, after, node, text, at_ms),
        roomy(before, node, more),
        1 <= more <= i64::MAX,
    ensures
        roomy(after, node, more - 1),
{
    assert forall|j: int| 0 <= j < after.len() && (#[trigger] after[j]).node_id
        == node implies after[j].seq + (more - 1) <= i64::MAX by {
        if j < before.len() {
            assert(after.drop_last()[j] == before[j]);
            assert(before[j].node_id == node);
        } else if after.last().seq != 1 {
            let k = choose|k: int|
                0 <= k < before.len() && (#[trigger] before[k]).node_id == node && before[k].seq + 1
                    == after.last().seq;
            assert(before[k].seq + more <= i64::MAX);
        }
    }
}

/// Checked drafts are retired one after the other.
#[verifier::rlimit(60)]
proof fn lemma_fitting_retired(
    state: StoreView,
    validated: Seq<(NodeGrantRevocationDraftView, i64)>,
    node: Seq<char>,
    reason: Seq<char>,
    now_ms: i64,
    more: int,
)
    requires
        can_be_retired(state, node, now_ms),
        forall|k: int|
            0 <= k < validated.len() ==> names_usable(
                state,
                (#[trigger] validated[k]).0.grant_id,
                node,
                now_ms,
            ) && sendable(validated[k].0.envelope_json),
        forall|k: int, m: int|
            0 <= k < m < validated.len() ==> (#[trigger] validated[k]).0.grant_id != (
            #[trigger] validated[m]).0.grant_id,
        validated.len() <= more <= i64::MAX,
        roomy(state.node_inbox, node, more),
    ensures
        state.retire_grants(validated, node, reason, now_ms) is Ok,
        roomy(
            state.retire_grants(validated, node, reason, now_ms)->Ok_0.node_inbox,
            node,
            more - validated.len(),
        ),
    decreases validated.len(),
{
    lemma_words();
    if validated.len() > 0 {
        let front = validated.drop_last();
        let last = validated.last();
        assert forall|k: int| 0 <= k < front.len() implies names_usable(
            state,
            (#[trigger] front[k]).0.grant_id,
            node,
            now_ms,
        ) && sendable(front[k].0.envelope_json) by {
            assert(front[k] == validated[k]);
        }
        assert forall|k: int, m: int| 0 <= k < m < front.len() implies (
        #[trigger] front[k]).0.grant_id != (#[trigger] front[m]).0.grant_id by {
            assert(front[k] == validated[k] && front[m] == validated[m]);
        }
        lemma_fitting_retired(state, front, node, reason, now_ms, more);
        lemma_is_retired(state, front, node, reason, now_ms);
        let mid = state.retire_grants(front, node, reason, now_ms)->Ok_0;
        let grant = last.0.grant_id;
        assert(validated[validated.len() - 1] == last);
        assert(names_usable(state, grant, node, now_ms));
        let under = running_under(grant, mid.tenant_id);
        let settle = settled("revoked"@, reason_result(reason), now_ms);
        lemma_attempts(mid.operations, under, settle);
        assert(attempted(mid.operations, under, settle) is Some) by {
            if attempted(mid.operations, under, settle) is None {
                let q = choose|q: int|
                    0 <= q < mid.operations.len() && under(#[trigger] mid.operations[q]) && settle(
                        mid.operations[q],
                    ) is None;
                assert(mid.operations[q] == state.operations[q]);
                let p = choose|p: int|
                    0 <= p < state.grants.len() && (#[trigger] state.grants[p]).record.id == grant
                        && usable(state.grants[p], node, state.tenant_id, now_ms);
                assert(runs_under_usable(state, state.operations[q], node, now_ms));
            }
        }
        let buried = tombstone_of(grant);
        let old = state.grant_tombstones;
        let rows = mid.grant_tombstones;
        assert(!any(rows, buried)) by {
            if any(rows, buried) {
                let k = choose|k: int| 0 <= k < rows.len() && buried(#[trigger] rows[k]);
                if k < old.len() {
                    assert(rows.take(old.len() as int)[k] == rows[k]);
                    assert(old[k].grant_id == grant);
                } else {
                    let m = k - old.len();
                    assert(front[m] == validated[m]);
                    assert(rows[old.len() + m].grant_id == front[m].0.grant_id);
                    assert(validated[m].0.grant_id != validated[validated.len() - 1].0.grant_id);
                }
            }
        }
        let operations = attempted(mid.operations, under, settle)->0;
        let stored = StoreView {
            grants: updated(
                mid.grants,
                live_grant_with(grant, node, mid.tenant_id),
                grant_revoked(now_ms),
            ),
            operations,
            grant_tombstones: mid.grant_tombstones.push(
                TombstoneRowView {
                    grant_id: grant,
                    node_id: node,
                    reason,
                    created_at_ms: now_ms,
                    retain_until_ms: last.1,
                },
            ),
            ..mid
        };
        a_document_is_sent_behind_the_others(stored, node, last.0.envelope_json, Some(now_ms));
        assert forall|j: int|
            0 <= j < mid.node_inbox.len() && (#[trigger] mid.node_inbox[j]).node_id
            == node implies mid.node_inbox[j].seq + 1 <= i64::MAX by {}
        assert(roomy(stored.node_inbox, node, 1));
        let after = stored.enqueue(node, last.0.envelope_json, Some(now_ms))->Ok_0;
        lemma_one_number_less(
            mid.node_inbox,
            after.node_inbox,
            node,
            last.0.envelope_json,
            now_ms,
            more - front.len(),
        );
    }
}

/// Fitting drafts retire the grants of a node.
#[verifier::rlimit(60)]
proof fn lemma_fitting_node_retired(
    state: StoreView,
    drafts: Seq<NodeGrantRevocationDraftView>,
    demanded: Option<Seq<char>>,
    node: Seq<char>,
    reason: Seq<char>,
    now_ms: i64,
)
    requires
        unique(state.grants, grant_id()),
        drafts_fit(state, drafts, demanded, node, now_ms),
        can_be_retired(state, node, now_ms),
        drafts.len() < i64::MAX,
        roomy(state.node_inbox, node, (drafts.len() + 1) as int),
    ensures
        state.retire_node_grants(drafts, demanded, node, reason, now_ms) is Ok,
        roomy(
            state.retire_node_grants(drafts, demanded, node, reason, now_ms)->Ok_0.node_inbox,
            node,
            1,
        ),
{
    let epoch = state.meta.issuer_epoch;
    let asked = state.live_grants(node, now_ms);
    lemma_asked_once(state, node, now_ms);
    lemma_fitting_checked(state, asked, drafts, demanded, node, now_ms);
    lemma_checked(asked, drafts, demanded, node, now_ms, epoch);
    let validated = checked_drafts(asked, drafts, demanded, node, now_ms, epoch)->Ok_0;
    let stray = crate::node_authority::stray_draft(validated, demanded);
    assert forall|d: int| 0 <= d < drafts.len() implies !stray(#[trigger] drafts[d]) by {
        let id = drafts[d].grant_id;
        assert(names_usable(state, id, node, now_ms));
        let q = choose|q: int|
            0 <= q < state.grants.len() && (#[trigger] state.grants[q]).record.id == id && usable(
                state.grants[q],
                node,
                state.tenant_id,
                now_ms,
            );
        lemma_place_of(state, node, now_ms, q);
        let k = choose|k: int|
            0 <= k < asked.len() && asked[k] == grant_deadline()(state.grants[q]);
        let hit = crate::node_authority::checked_for(id);
        assert(validated[k].0.grant_id == asked[k].0);
        assert forall|m: int| 0 <= m < validated.len() && m != k implies !hit(
            #[trigger] validated[m],
        ) by {
            assert(validated[m].0.grant_id == asked[m].0);
            if m < k {
                assert(asked[m].0 != asked[k].0);
            } else {
                assert(asked[k].0 != asked[m].0);
            }
        }
        crate::relation_laws::lemma_at_most_one(validated, hit, k);
    }
    assert forall|k: int| 0 <= k < validated.len() implies names_usable(
        state,
        (#[trigger] validated[k]).0.grant_id,
        node,
        now_ms,
    ) && sendable(validated[k].0.envelope_json) by {
        let draft = validated[k].0;
        assert(is_asked(state, node, now_ms, asked[k]));
        let q = choose|q: int|
            0 <= q < state.grants.len() && usable(
                #[trigger] state.grants[q],
                node,
                state.tenant_id,
                now_ms,
            ) && state.grants[q].record.id == asked[k].0 && state.grants[q].record.expires_at_ms
                == asked[k].1;
        assert(state.grants[q].record.id == draft.grant_id);
        a_grant_goes_with_its_node_by_its_own_document(
            draft.envelope_json,
            draft.parsed,
            asked[k].0,
            node,
            now_ms,
            asked[k].1,
            epoch,
            match demanded {
                Some(expected) => expected,
                None => draft.reason,
            },
        );
    }
    assert forall|k: int, m: int| 0 <= k < m < validated.len() implies (
    #[trigger] validated[k]).0.grant_id != (#[trigger] validated[m]).0.grant_id by {
        assert(asked[k].0 != asked[m].0);
    }
    lemma_fitting_retired(state, validated, node, reason, now_ms, (drafts.len() + 1) as int);
}

/// A node of the tenant that is not revoked is revoked by its own document with fitting
/// drafts, where its grants can be retired, the inbox has a number left for each
/// document and so has the version of every row that is rewritten.
#[verifier::rlimit(60)]
pub proof fn a_node_is_revoked_by_its_document_and_fitting_drafts(
    state: StoreView,
    c: ClockReadingView,
    node: Seq<char>,
    revocations: Seq<NodeGrantRevocationDraftView>,
    document_json: Seq<char>,
    document: Parsed<NodeRevocationView>,
    i: int,
)
    requires
        unique(state.nodes, node_id()),
        unique(state.grants, grant_id()),
        runs(state, c),
        0 <= i < state.nodes.len(),
        state.nodes[i].id == node,
        state.nodes[i].tenant_id == state.tenant_id,
        state.nodes[i].status != "revoked"@,
        document_revokes(document_json, document, node, state.meta.issuer_epoch, c.now_ms),
        drafts_fit(state, revocations, None, node, c.now_ms),
        can_be_retired(state, node, c.now_ms),
        revocations.len() < i64::MAX,
        roomy(state.node_inbox, node, (revocations.len() + 1) as int),
        versions_are_left(state, node, c.now_ms),
    ensures
        state.revoke_node(c, node, revocations, document_json, document).1 == Ok::<
            bool,
            StoreError,
        >(true),
{
    lemma_runs(state, c);
    lemma_words();
    let s = state.checkpoint_clock(c).0;
    let now_ms = c.now_ms;
    lemma_sole(state.nodes, node_id(), node_with(node, state.tenant_id), i);
    lemma_same(state, s, node, now_ms);
    lemma_same_drafts(state, s, revocations, None, node, now_ms);
    a_node_is_revoked_by_its_own_document(
        document_json,
        document,
        node,
        now_ms,
        state.meta.issuer_epoch,
    );
    lemma_fitting_node_retired(s, revocations, None, node, "operator"@, now_ms);
    let validated = lemma_node_retired(s, revocations, None, node, "operator"@, now_ms);
    let retired = s.retire_node_grants(revocations, None, node, "operator"@, now_ms)->Ok_0;
    lemma_midway(s, retired, validated, node, "operator"@, now_ms);
    a_document_is_sent_behind_the_others(retired, node, document_json, Some(now_ms));
    let mailed = retired.enqueue(node, document_json, Some(now_ms))->Ok_0;
    let queued = mailed.queue_revocation(node, now_ms);
    assert(is_midway(s, queued, node, "operator"@, now_ms));
    lemma_cancelled(s, queued, node, "operator"@, "node_revoked"@, now_ms);
    let cancelled = queued.cancel_node_operations(node, "node_revoked"@, now_ms)->Ok_0;
    lemma_failed(s, cancelled, node, "operator"@, "node_revoked"@, now_ms);
    let failed = cancelled.fail_overdue_operations(node, now_ms)->Ok_0;
    let expired = failed.expire_node_grants(node, now_ms);
    lemma_strip(expired, node, now_ms);
    assert(expired.workloads == state.workloads && expired.nodes == state.nodes);
}

/// What fits and what can be retired does not depend on the clock's marks.
proof fn lemma_same_drafts(
    state: StoreView,
    s: StoreView,
    drafts: Seq<NodeGrantRevocationDraftView>,
    demanded: Option<Seq<char>>,
    node: Seq<char>,
    now_ms: i64,
)
    requires
        s == crate::moment_laws::timed(state, s),
    ensures
        drafts_fit(s, drafts, demanded, node, now_ms) == drafts_fit(
            state,
            drafts,
            demanded,
            node,
            now_ms,
        ),
        can_be_retired(state, node, now_ms) ==> can_be_retired(s, node, now_ms),
{
    lemma_same(state, s, node, now_ms);
    assert forall|g: Seq<char>| #[trigger] names_usable(s, g, node, now_ms) == names_usable(
        state,
        g,
        node,
        now_ms,
    ) by {}
    assert forall|grant: GrantRecordView| #[trigger]
        is_covered(s, drafts, demanded, node, now_ms, grant) == is_covered(
            state,
            drafts,
            demanded,
            node,
            now_ms,
            grant,
        ) by {}
    assert(s.grants == state.grants && s.tenant_id == state.tenant_id);
    if can_be_retired(state, node, now_ms) {
        assert forall|k: int| 0 <= k < s.grant_tombstones.len() implies !names_usable(
            s,
            (#[trigger] s.grant_tombstones[k]).grant_id,
            node,
            now_ms,
        ) by {
            assert(!names_usable(state, state.grant_tombstones[k].grant_id, node, now_ms));
        }
        assert forall|q: int| 0 <= q < s.operations.len() && runs_under_usable(
            s,
            #[trigger] s.operations[q],
            node,
            now_ms,
        ) implies s.operations[q].record.version < i64::MAX by {
            assert(runs_under_usable(state, state.operations[q], node, now_ms));
        }
    }
}

/// A rotation that may be staged is staged by its own document with fitting drafts,
/// where the grants of the node can be retired, its key is not in the history, the inbox
/// has a number left for each document and so has the version of every row that is
/// rewritten.
#[verifier::rlimit(60)]
pub proof fn a_rotation_is_staged_by_its_document_and_fitting_drafts(
    state: StoreView,
    c: ClockReadingView,
    node: Seq<char>,
    expected_key_version: i64,
    draft: NodeKeyRotationDraftView,
    i: int,
)
    requires
        unique(state.nodes, node_id()),
        unique(state.grants, grant_id()),
        runs(state, c),
        0 <= i < state.nodes.len(),
        state.nodes[i].id == node,
        state.nodes[i].tenant_id == state.tenant_id,
        can_be_staged(state, state.nodes[i], expected_key_version, draft.rotation),
        document_rotates(draft, node, state.meta.issuer_epoch, c.now_ms),
        drafts_fit(state, draft.grant_revocations, Some("key_rotation"@), node, c.now_ms),
        can_be_retired(state, node, c.now_ms),
        draft.grant_revocations.len() < i64::MAX,
        roomy(state.node_inbox, node, (draft.grant_revocations.len() + 1) as int),
        versions_are_left(state, node, c.now_ms),
        forall|q: int|
            0 <= q < state.node_key_history.len() ==> !((
            #[trigger] state.node_key_history[q]).node_id == node
                && state.node_key_history[q].key_version == draft.rotation.to_key_version),
    ensures
        state.stage_node_key_rotation(c, node, expected_key_version, draft).1 == Ok::<
            bool,
            StoreError,
        >(true),
{
    lemma_runs(state, c);
    lemma_words();
    let s = state.checkpoint_clock(c).0;
    let now_ms = c.now_ms;
    let why = "key_rotation"@;
    let word = "node_key_rotation"@;
    let drafts = draft.grant_revocations;
    lemma_sole(state.nodes, node_id(), node_with(node, state.tenant_id), i);
    lemma_same(state, s, node, now_ms);
    lemma_same_drafts(state, s, drafts, Some(why), node, now_ms);
    assert forall|q: int| 0 <= q < state.node_key_rotations.len() implies !rotation_of(node)(
        #[trigger] state.node_key_rotations[q],
    ) by {}
    lemma_none(state.node_key_rotations, rotation_of(node));
    a_key_is_rotated_by_its_own_document(
        draft.rotation_document_json,
        draft.parsed,
        draft.rotation,
        node,
        now_ms,
        state.meta.issuer_epoch,
    );
    lemma_fitting_node_retired(s, drafts, Some(why), node, why, now_ms);
    let validated = lemma_node_retired(s, drafts, Some(why), node, why, now_ms);
    let retired = s.retire_node_grants(drafts, Some(why), node, why, now_ms)->Ok_0;
    lemma_midway(s, retired, validated, node, why, now_ms);
    let expired = retired.expire_node_grants(node, now_ms);
    assert(is_midway(s, expired, node, why, now_ms));
    lemma_cancelled(s, expired, node, why, word, now_ms);
    let cancelled = expired.cancel_node_operations(node, word, now_ms)->Ok_0;
    let from = state.nodes[i].key_version;
    let key = key_with(node, draft.rotation.to_key_version as i64);
    assert forall|q: int| 0 <= q < state.node_key_history.len() implies !key(
        #[trigger] state.node_key_history[q],
    ) by {
        assert(draft.rotation.to_key_version <= i64::MAX);
    }
    lemma_none(state.node_key_history, key);
    assert(cancelled.node_key_history == state.node_key_history);
    assert(cancelled.node_key_rotations == state.node_key_rotations);
    let staged = cancelled.stage_key(node, from, draft, now_ms)->Ok_0;
    a_document_is_sent_behind_the_others(
        staged,
        node,
        draft.rotation_document_json,
        Some(now_ms),
    );
}

} // verus!
