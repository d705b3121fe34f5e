//! What holds of operations and of the decisions on them.

use crate::approvals::is_decision;
use crate::authorization::{
    approval_closed, operation_approval_with, operation_approved, operation_under, pending_at,
    waiting_for,
};
use crate::clock::ClockReadingView;
use crate::error::StoreError;
use crate::keys::operation_approval_id;
use crate::limits::clamped;
use crate::operations::restated;
use crate::records::{
    OperationApprovalDraftView, OperationApprovalRecordView, OperationCreateOutcomeView,
    OperationDecisionOutcomeView,
    OperationRecordView,
};
use crate::relation::{any, attempted, lemma_any_counted};
use crate::relation_laws::{
    lemma_attempted, lemma_first_satisfies, lemma_push_found, lemma_unique_first, lemma_unique_hit,
    lemma_unique_updated, unique,
};
use crate::store::StoreView;
use crate::tables::OperationApprovalRowView;
use vstd::prelude::*;

verus! {

/// Putting an operation to an approval changes the approvals alone.
proof fn lemma_join_frame(
    state: StoreView,
    candidates: Seq<OperationApprovalRecordView>,
    id: Seq<char>,
    draft: OperationApprovalDraftView,
    now_ms: i64,
)
    requires
        state.join_approval(candidates, id, draft, now_ms) is Ok,
    ensures
        ({
            let after = state.join_approval(candidates, id, draft, now_ms)->Ok_0.0;
            after == (StoreView { operation_approvals: after.operation_approvals, ..state })
        }),
    decreases candidates.len(),
{
    if candidates.len() > 0 {
        let rest = candidates.skip(1);
        let candidate = candidates[0];
        let ids = crate::json::json_strings(candidate.operation_ids_json)->0;
        if ids.len() >= crate::authorization::MAX_APPROVAL_OPERATIONS || ids.contains(id) {
            lemma_join_frame(state, rest, id, draft, now_ms);
        } else {
            let encoded = crate::json::json_list(ids.push(id));
            let hit = pending_at(candidate.id, state.tenant_id, candidate.version);
            let extended = StoreView {
                operation_approvals: attempted(
                    state.operation_approvals,
                    hit,
                    crate::authorization::approval_extended(encoded),
                )->0,
                ..state
            };
            if crate::relation::count(state.operation_approvals, hit) != 1 {
                lemma_join_frame(extended, rest, id, draft, now_ms);
            }
        }
    }
}

/// An operation is created once under its requester's idempotency key: asking
/// again for the same yields the operation that was created, asking for
/// something else is a conflict, and neither changes anything.
pub proof fn an_operation_is_created_once(
    state: StoreView,
    c: ClockReadingView,
    record: OperationRecordView,
    unit: Seq<char>,
    account: Seq<char>,
    ttl_seconds: i64,
    approval: Option<OperationApprovalDraftView>,
    later: ClockReadingView,
    second: OperationRecordView,
    second_unit: Seq<char>,
    second_account: Seq<char>,
    second_ttl: i64,
    second_approval: Option<OperationApprovalDraftView>,
)
    requires
        state.create_operation(c, record, unit, account, ttl_seconds, approval).1 matches Ok(
            OperationCreateOutcomeView::Created(_),
        ),
        state.create_operation(
            c,
            record,
            unit,
            account,
            ttl_seconds,
            approval,
        ).0.checkpoint_clock(later).1 is Ok,
        second.requested_by == record.requested_by,
        second.idempotency_key == record.idempotency_key,
    ensures
        ({
            let (after, reply) = state.create_operation(
                c,
                record,
                unit,
                account,
                ttl_seconds,
                approval,
            );
            let created = reply->Ok_0->Created_0;
            after.create_operation(
                later,
                second,
                second_unit,
                second_account,
                second_ttl,
                second_approval,
            ) == (
                after.checkpoint_clock(later).0,
                Ok::<OperationCreateOutcomeView, StoreError>(
                    if second.request_hash == record.request_hash {
                        OperationCreateOutcomeView::Existing(created)
                    } else {
                        OperationCreateOutcomeView::Conflict
                    },
                ),
            )
        }),
{
    let s = state.checkpoint_clock(c).0;
    let now_ms = s.now(c.now_ms)->0;
    if approval is Some {
        lemma_join_frame(
            s,
            s.approval_candidates(approval->0, Some(now_ms)),
            record.id,
            approval->0,
            now_ms,
        );
    }
    let after = state.create_operation(c, record, unit, account, ttl_seconds, approval).0;
    let under = operation_under(s.tenant_id, record.requested_by, record.idempotency_key);
    let row = after.operations.last();
    assert(after.operations == s.operations.push(row));
    lemma_any_counted(s.operations, under);
    lemma_push_found(s.operations, row, under);
}

/// The decision texts differ where the proofs need it.
proof fn lemma_decision_texts()
    ensures
        !is_decision("pending"@),
        "approved"@ != "rejected"@,
        "expired"@ != "pending"@,
        "requested"@ != "awaiting_approval"@,
        "denied"@ != "awaiting_approval"@,
{
    reveal_strlit("pending");
    reveal_strlit("approved");
    reveal_strlit("rejected");
    reveal_strlit("expired");
    reveal_strlit("requested");
    reveal_strlit("denied");
    reveal_strlit("awaiting_approval");
    assert("pending"@.len() == 7 && "approved"@.len() == 8 && "rejected"@.len() == 8);
    assert("expired"@.len() == 7 && "requested"@.len() == 9 && "denied"@.len() == 6);
    assert("awaiting_approval"@.len() == 17);
    assert("approved"@[0] == 'a' && "rejected"@[0] == 'r');
    assert("expired"@[0] == 'e' && "pending"@[0] == 'p');
}

/// A decision on an approval is applied once: the same decision by the same actor
/// under the same key, on the same version and operations, is replayed with the same
/// answer, every other one is a conflict, and none changes anything. Whatever is not
/// an approval repeats a rejection, and the version after the last one is the last
/// one.
pub proof fn a_group_is_decided_once(
    state: StoreView,
    c: ClockReadingView,
    id: Seq<char>,
    version: i64,
    ids: Seq<Seq<char>>,
    decision: Seq<char>,
    actor: Seq<char>,
    key_hash: Seq<char>,
    later: ClockReadingView,
    other_version: i64,
    other_ids: Seq<Seq<char>>,
    other_decision: Seq<char>,
    other_actor: Seq<char>,
    other_key: Seq<char>,
)
    requires
        unique(state.operation_approvals, operation_approval_id()),
        state.decide_operation_approval(c, id, version, ids, decision, actor, key_hash).1
            matches Ok(OperationDecisionOutcomeView::Applied(_)),
        state.decide_operation_approval(
            c,
            id,
            version,
            ids,
            decision,
            actor,
            key_hash,
        ).0.checkpoint_clock(later).1 is Ok,
    ensures
        ({
            let (after, reply) = state.decide_operation_approval(
                c,
                id,
                version,
                ids,
                decision,
                actor,
                key_hash,
            );
            let applied = reply->Ok_0->Applied_0;
            let (then, other) = after.decide_operation_approval(
                later,
                id,
                other_version,
                other_ids,
                other_decision,
                other_actor,
                other_key,
            );
            &&& applied.status == decision
            &&& applied.decided_by == Some(actor)
            &&& after.decide_operation_approval(
                later,
                id,
                version,
                ids,
                decision,
                actor,
                key_hash,
            ) == (
                after.checkpoint_clock(later).0,
                Ok::<OperationDecisionOutcomeView, StoreError>(
                    OperationDecisionOutcomeView::Replayed(applied),
                ),
            )
            &&& then == after.checkpoint_clock(later).0
            &&& other == Ok::<OperationDecisionOutcomeView, StoreError>(
                if (other_decision == "approved"@) == (decision == "approved"@)
                    && clamped(other_version + 1) == version + 1 && other_ids == ids
                    && other_actor == actor && other_key == key_hash {
                    OperationDecisionOutcomeView::Replayed(applied)
                } else {
                    OperationDecisionOutcomeView::Conflict
                },
            )
        }),
{
    lemma_decision_texts();
    let s = state.checkpoint_clock(c).0;
    let now_ms = s.now(c.now_ms)->0;
    let rows = s.operation_approvals;
    let wanted = operation_approval_with(id, s.tenant_id);
    lemma_any_counted(rows, wanted);
    let i = lemma_unique_first(rows, operation_approval_id(), id, wanted);
    let hit = pending_at(id, s.tenant_id, version);
    let change = approval_closed(decision, actor, now_ms, key_hash);
    lemma_attempted(rows, hit, change);
    assert(hit(rows[i]));
    assert(change(rows[i]) is Some);
    lemma_unique_updated(
        rows,
        operation_approval_id(),
        hit,
        |v: OperationApprovalRowView| change(v)->0,
    );
    let after = state.decide_operation_approval(
        c,
        id,
        version,
        ids,
        decision,
        actor,
        key_hash,
    ).0;
    assert(after.operation_approvals[i] == change(rows[i])->0);
    lemma_unique_hit(after.operation_approvals, operation_approval_id(), id, wanted, i);
}

/// After a decision took effect, or an approval was found stale, no operation
/// waits for that approval any more.
pub proof fn a_decided_group_waits_no_more(
    state: StoreView,
    c: ClockReadingView,
    id: Seq<char>,
    version: i64,
    ids: Seq<Seq<char>>,
    decision: Seq<char>,
    actor: Seq<char>,
    key_hash: Seq<char>,
)
    requires
        state.decide_operation_approval(c, id, version, ids, decision, actor, key_hash).1
            matches Ok(outcome) && (outcome is Applied || outcome is StalePolicy),
    ensures
        ({
            let after = state.decide_operation_approval(
                c,
                id,
                version,
                ids,
                decision,
                actor,
                key_hash,
            ).0;
            !any(after.operations, waiting_for(id, state.tenant_id))
        }),
{
    lemma_decision_texts();
    let s = state.checkpoint_clock(c).0;
    let now_ms = s.now(c.now_ms)->0;
    let waiting = waiting_for(id, s.tenant_id);
    let after = state.decide_operation_approval(
        c,
        id,
        version,
        ids,
        decision,
        actor,
        key_hash,
    ).0;
    lemma_first_satisfies(s.operation_approvals, operation_approval_with(id, s.tenant_id));
    lemma_first_satisfies(
        after.operation_approvals,
        operation_approval_with(id, s.tenant_id),
    );
    let approve = operation_approved(now_ms);
    let deny = restated("denied"@);
    let rows = s.operations;
    assert(attempted(rows, waiting, approve) == Some(after.operations) || attempted(
        rows,
        waiting,
        deny,
    ) == Some(after.operations));
    if attempted(rows, waiting, deny) == Some(after.operations) {
        lemma_attempted(rows, waiting, deny);
        assert forall|i: int| 0 <= i < after.operations.len() implies !waiting(
            #[trigger] after.operations[i],
        ) by {
            if waiting(rows[i]) {
                assert(deny(rows[i]) is Some);
            }
        }
    } else {
        lemma_attempted(rows, waiting, approve);
        assert forall|i: int| 0 <= i < after.operations.len() implies !waiting(
            #[trigger] after.operations[i],
        ) by {
            if waiting(rows[i]) {
                assert(approve(rows[i]) is Some);
            }
        }
    }
}

} // verus!
