//! What each step of an approval of a secret exchange does to it, by what it says.

use crate::approvals::{
    approval_with, decidable, decision_text, idempotency_key, live_approval, replay_of,
    stored_strings,
};
use crate::clock::{audit_event_with, ClockReadingView};
use crate::error::StoreError;
use crate::ids::hex;
use crate::json::{json_list, json_object, JsonScalarView};
use crate::keys::{approval_reference, idempotency_place};
use crate::moment_laws::{lemma_runs, runs, runs_twice};
use crate::records::{ApprovalDecisionOutcomeView, ApprovalRecordView};
use crate::relation::any;
use crate::relation_laws::{lemma_none, lemma_sole, lemma_unique_replaced, unique};
use crate::store::StoreView;
use crate::tables::{ApprovalRowView, AuditRowView, IdempotencyRowView};
use vstd::prelude::*;

verus! {

/// A stored approval as it is read.
pub open spec fn approval_read(row: ApprovalRowView) -> ApprovalRecordView {
    ApprovalRecordView {
        approval_reference: row.reference,
        requester_id: row.requester_agent_id,
        workspace_id: row.tenant_id,
        secret_name: row.secret_name,
        purpose: row.purpose,
        fulfiller_hint: row.fulfiller_hint,
        rule_id: row.rule_id,
        reason: row.reason,
        requester_ring: row.requester_ring,
        fulfiller_ring: row.fulfiller_ring,
        approver_ids: stored_strings(row.approver_ids_json),
        approver_rings: stored_strings(row.approver_rings_json),
        status: row.status,
        created_at_ms: row.created_at_ms,
        expires_at_ms: row.expires_at_ms,
        decided_at_ms: row.decided_at_ms,
        decided_by: row.decided_by,
    }
}

/// An approval is asked for once per reference: it is stored for the tenant as it was
/// described, pending, from now for as long as the description lasts, which is a
/// millisecond at least. Under a reference that is taken nothing changes.
pub proof fn an_approval_is_asked_for_once(
    state: StoreView,
    c: ClockReadingView,
    approval: ApprovalRecordView,
)
    requires
        runs(state, c),
    ensures
        ({
            let (after, reply) = state.create_approval(c, approval);
            let s = state.checkpoint_clock(c).0;
            let lasts = approval.expires_at_ms - approval.created_at_ms;
            let until = c.now_ms + (if lasts < 1 {
                1
            } else {
                lasts
            });
            let taken = exists|q: int|
                0 <= q < state.approvals.len()
                    && (#[trigger] state.approvals[q]).reference == approval.approval_reference;
            if lasts <= i64::MAX && until <= i64::MAX {
                &&& reply == Ok::<(), StoreError>(())
                &&& after == if taken {
                    s
                } else {
                    StoreView {
                        approvals: state.approvals.push(
                            ApprovalRowView {
                                reference: approval.approval_reference,
                                requester_agent_id: approval.requester_id,
                                tenant_id: state.tenant_id,
                                secret_name: approval.secret_name,
                                purpose: approval.purpose,
                                fulfiller_hint: approval.fulfiller_hint,
                                rule_id: approval.rule_id,
                                reason: approval.reason,
                                requester_ring: approval.requester_ring,
                                fulfiller_ring: approval.fulfiller_ring,
                                approver_ids_json: json_list(approval.approver_ids),
                                approver_rings_json: json_list(approval.approver_rings),
                                status: "pending"@,
                                created_at_ms: c.now_ms,
                                expires_at_ms: until as i64,
                                decided_at_ms: None,
                                decided_by: None,
                            },
                        ),
                        ..s
                    }
                }
            } else {
                lasts <= i64::MAX ==> after == s && reply is Err
            }
        }),
{
    lemma_runs(state, c);
    assert({
        let taken = approval_with(approval.approval_reference);
        any(state.approvals, taken) == (exists|q: int|
            0 <= q < state.approvals.len()
                && (#[trigger] state.approvals[q]).reference == approval.approval_reference)
    }) by {
        let taken = approval_with(approval.approval_reference);
        if exists|q: int|
            0 <= q < state.approvals.len()
                && (#[trigger] state.approvals[q]).reference == approval.approval_reference {
            let q = choose|q: int|
                0 <= q < state.approvals.len()
                    && (#[trigger] state.approvals[q]).reference == approval.approval_reference;
            assert(taken(state.approvals[q]));
        }
        if any(state.approvals, taken) {
            let q = choose|q: int|
                0 <= q < state.approvals.len() && taken(#[trigger] state.approvals[q]);
            assert(state.approvals[q].reference == approval.approval_reference);
        }
    };
}

/// An approval is read by its tenant, as it is stored, until its deadline.
pub proof fn an_approval_is_read_until_its_deadline(
    state: StoreView,
    c: ClockReadingView,
    reference: Seq<char>,
    i: int,
)
    requires
        unique(state.approvals, approval_reference()),
        runs(state, c),
        0 <= i < state.approvals.len(),
        state.approvals[i].reference == reference,
    ensures
        state.get_approval(c, reference) == (
            state.checkpoint_clock(c).0,
            Ok::<Option<ApprovalRecordView>, StoreError>(
                if state.approvals[i].tenant_id == state.tenant_id
                    && state.approvals[i].expires_at_ms > c.now_ms {
                    Some(approval_read(state.approvals[i]))
                } else {
                    None
                },
            ),
        ),
{
    lemma_runs(state, c);
    lemma_sole(
        state.approvals,
        approval_reference(),
        live_approval(reference, state.tenant_id, Some(c.now_ms)),
        i,
    );
}

/// How many approvals are counted as pending: those of the tenant that are, and whose
/// deadline is ahead.
pub proof fn pending_approvals_are_counted_until_their_deadline(
    state: StoreView,
    c: ClockReadingView,
)
    requires
        runs(state, c),
    ensures
        state.count_pending_approvals(c) == (
            state.checkpoint_clock(c).0,
            Ok::<i64, StoreError>(
                state.approvals.filter(
                    |row: ApprovalRowView|
                        row.tenant_id == state.tenant_id && row.status == "pending"@
                            && row.expires_at_ms > c.now_ms,
                ).len() as i64,
            ),
        ),
{
    lemma_runs(state, c);
    assert(crate::approvals::pending_of(state.tenant_id, Some(c.now_ms)) =~= (
        |row: ApprovalRowView|
            row.tenant_id == state.tenant_id && row.status == "pending"@ && row.expires_at_ms
                > c.now_ms));
}

/// A pending approval of the tenant is approved or rejected, by one actor, now, until
/// its deadline. It is answered as it then stands. Every other one stays as it is.
pub proof fn a_pending_approval_is_decided(
    state: StoreView,
    c: ClockReadingView,
    follow_up: ClockReadingView,
    reference: Seq<char>,
    status: Seq<char>,
    actor: Seq<char>,
    i: int,
)
    requires
        unique(state.approvals, approval_reference()),
        runs_twice(state, c, follow_up),
        0 <= i < state.approvals.len(),
        state.approvals[i].reference == reference,
    ensures
        ({
            let (after, reply) = state.decide_approval(c, follow_up, reference, status, actor);
            let row = state.approvals[i];
            let next = ApprovalRowView {
                status,
                decided_at_ms: Some(c.now_ms),
                decided_by: Some(actor),
                ..row
            };
            if status != "approved"@ && status != "rejected"@ {
                after.approvals == state.approvals
                    && reply == Err::<Option<ApprovalRecordView>, StoreError>(
                    StoreError::InvalidInput("approval status"),
                )
            } else if row.tenant_id != state.tenant_id || row.expires_at_ms <= c.now_ms
                || row.status != "pending"@ {
                after.approvals == state.approvals
                    && reply == Ok::<Option<ApprovalRecordView>, StoreError>(
                    None,
                )
            } else {
                &&& after.approvals == state.approvals.update(i, next)
                &&& reply == Ok::<Option<ApprovalRecordView>, StoreError>(
                    if row.expires_at_ms > follow_up.now_ms {
                        Some(approval_read(next))
                    } else {
                        None
                    },
                )
            }
        }),
{
    lemma_runs(state, c);
    let s = state.checkpoint_clock(c).0;
    lemma_runs(s, follow_up);
    let t = state.tenant_id;
    let hit = decidable(reference, t, Some(c.now_ms));
    lemma_sole(state.approvals, approval_reference(), hit, i);
    if hit(state.approvals[i]) {
        let next = crate::approvals::approval_decided(status, Some(c.now_ms), actor)(
            state.approvals[i],
        );
        let mid = StoreView { approvals: state.approvals.update(i, next), ..s };
        lemma_runs(mid, follow_up);
        lemma_unique_replaced(state.approvals, approval_reference(), i, next);
        lemma_sole(
            mid.approvals,
            approval_reference(),
            live_approval(reference, t, Some(follow_up.now_ms)),
            i,
        );
    }
}

/// Whether a decision was noted for an actor under a key.
pub open spec fn noted_under(
    row: IdempotencyRowView,
    tenant: Seq<char>,
    actor: Seq<char>,
    key_hash: Seq<char>,
) -> bool {
    row.tenant_id == tenant && row.actor_id == actor && row.operation == "approval_decision"@
        && row.key_hash == key_hash
}

/// A decision that was noted under a key is told again for the same request, until the
/// note lapses, and is a conflict for another one. Nothing changes.
pub proof fn a_noted_decision_is_told_again(
    state: StoreView,
    c: ClockReadingView,
    reference: Seq<char>,
    status: Seq<char>,
    actor: Seq<char>,
    key_hash: Seq<char>,
    digest: Seq<u8>,
    audit_id: Seq<char>,
    i: int,
)
    requires
        unique(state.idempotency_keys, idempotency_place()),
        runs(state, c),
        status == "approved"@ || status == "rejected"@,
        key_hash.len() > 0,
        0 <= i < state.idempotency_keys.len(),
        noted_under(state.idempotency_keys[i], state.tenant_id, actor, key_hash),
        state.idempotency_keys[i].expires_at_ms > c.now_ms,
    ensures
        ({
            let row = state.idempotency_keys[i];
            state.decide_approval_once(
                c,
                reference,
                status,
                actor,
                key_hash,
                Some(digest),
                audit_id,
            ) == (
                state.checkpoint_clock(c).0,
                if row.request_hash != hex(digest) {
                    Ok::<ApprovalDecisionOutcomeView, StoreError>(
                        ApprovalDecisionOutcomeView::Conflict,
                    )
                } else if row.response is None {
                    Err(StoreError::MissingState("approval idempotency response"))
                } else {
                    Ok(ApprovalDecisionOutcomeView::Replayed(row.response->0))
                },
            )
        }),
{
    lemma_runs(state, c);
    lemma_sole(
        state.idempotency_keys,
        idempotency_place(),
        replay_of(state.tenant_id, actor, key_hash, Some(c.now_ms)),
        i,
    );
}

/// A decision that was not noted decides a pending approval of the tenant, until its
/// deadline. It is noted for a day with its answer and told in the audit. Where the
/// approval is not pending, nothing is found and nothing changes; nor does anything
/// where a lapsed note is still there, or where the audit identifier is taken.
#[verifier::rlimit(40)]
pub proof fn a_fresh_decision_decides_and_is_noted(
    state: StoreView,
    c: ClockReadingView,
    reference: Seq<char>,
    status: Seq<char>,
    actor: Seq<char>,
    key_hash: Seq<char>,
    digest: Option<Seq<u8>>,
    audit_id: Seq<char>,
    i: int,
)
    requires
        unique(state.approvals, approval_reference()),
        runs(state, c),
        forall|k: int|
            0 <= k < state.idempotency_keys.len() && noted_under(
                #[trigger] state.idempotency_keys[k],
                state.tenant_id,
                actor,
                key_hash,
            ) ==> state.idempotency_keys[k].expires_at_ms <= c.now_ms,
        0 <= i < state.approvals.len(),
        state.approvals[i].reference == reference,
    ensures
        ({
            let (after, reply) = state.decide_approval_once(
                c,
                reference,
                status,
                actor,
                key_hash,
                digest,
                audit_id,
            );
            let s = state.checkpoint_clock(c).0;
            let row = state.approvals[i];
            let next = ApprovalRowView {
                status,
                decided_at_ms: Some(c.now_ms),
                decided_by: Some(actor),
                ..row
            };
            let until = c.now_ms + 86_400_000;
            let lingers = exists|k: int|
                0 <= k < state.idempotency_keys.len() && noted_under(
                    #[trigger] state.idempotency_keys[k],
                    state.tenant_id,
                    actor,
                    key_hash,
                );
            let audited = exists|q: int|
                0 <= q < state.audit_events.len()
                    && (#[trigger] state.audit_events[q]).id == audit_id;
            if (status != "approved"@ && status != "rejected"@) || key_hash.len() == 0 {
                after == s && reply == Err::<ApprovalDecisionOutcomeView, StoreError>(
                    StoreError::InvalidInput("approval decision"),
                )
            } else if digest is None {
                after == s && reply == Err::<ApprovalDecisionOutcomeView, StoreError>(
                    StoreError::MissingState("approval request hash"),
                )
            } else if row.tenant_id != state.tenant_id || row.expires_at_ms <= c.now_ms
                || row.status != "pending"@ {
                after == s && reply == Ok::<ApprovalDecisionOutcomeView, StoreError>(
                    ApprovalDecisionOutcomeView::NotFound,
                )
            } else if until > i64::MAX || lingers || audited {
                after == s && reply is Err
            } else {
                &&& reply == Ok::<ApprovalDecisionOutcomeView, StoreError>(
                    ApprovalDecisionOutcomeView::Applied(approval_read(next)),
                )
                &&& after == (StoreView {
                    approvals: state.approvals.update(i, next),
                    idempotency_keys: state.idempotency_keys.push(
                        IdempotencyRowView {
                            tenant_id: state.tenant_id,
                            actor_id: actor,
                            operation: "approval_decision"@,
                            key_hash,
                            request_hash: hex(digest->0),
                            response: Some(approval_read(next)),
                            created_at_ms: c.now_ms,
                            expires_at_ms: until as i64,
                        },
                    ),
                    audit_events: state.audit_events.push(
                        AuditRowView {
                            id: audit_id,
                            tenant_id: state.tenant_id,
                            actor_type: "operator"@,
                            actor_id: Some(actor),
                            action: "approval_decided"@,
                            target_type: "approval"@,
                            target_id: Some(reference),
                            metadata_json: json_object(
                                seq![
                                    ("decision"@, JsonScalarView::Text(status)),
                                    ("idempotency_key_hash"@, JsonScalarView::Text(key_hash)),
                                ],
                            ),
                            created_at_ms: c.now_ms,
                        },
                    ),
                    ..s
                })
            }
        }),
{
    lemma_runs(state, c);
    let t = state.tenant_id;
    let keys = state.idempotency_keys;
    let replay = replay_of(t, actor, key_hash, Some(c.now_ms));
    assert forall|k: int| 0 <= k < keys.len() implies !replay(#[trigger] keys[k]) by {
        if replay(keys[k]) {
            assert(noted_under(keys[k], t, actor, key_hash));
        }
    }
    lemma_none(keys, replay);
    let place = idempotency_key(t, actor, key_hash);
    if any(keys, place) {
        let k = choose|k: int| 0 <= k < keys.len() && place(#[trigger] keys[k]);
        assert(noted_under(keys[k], t, actor, key_hash));
    }
    if exists|k: int|
        0 <= k < keys.len() && noted_under(#[trigger] keys[k], t, actor, key_hash) {
        let k = choose|k: int|
            0 <= k < keys.len() && noted_under(#[trigger] keys[k], t, actor, key_hash);
        assert(place(keys[k]));
    }
    assert({
        let taken = audit_event_with(audit_id);
        any(state.audit_events, taken) == (exists|q: int|
            0 <= q < state.audit_events.len() && (#[trigger] state.audit_events[q]).id == audit_id)
    }) by {
        let taken = audit_event_with(audit_id);
        if exists|q: int|
            0 <= q < state.audit_events.len() && (#[trigger] state.audit_events[q]).id == audit_id {
            let q = choose|q: int|
                0 <= q < state.audit_events.len()
                    && (#[trigger] state.audit_events[q]).id == audit_id;
            assert(taken(state.audit_events[q]));
        }
        if any(state.audit_events, taken) {
            let q = choose|q: int|
                0 <= q < state.audit_events.len() && taken(#[trigger] state.audit_events[q]);
            assert(state.audit_events[q].id == audit_id);
        }
    };
    lemma_sole(
        state.approvals,
        approval_reference(),
        decidable(reference, t, Some(c.now_ms)),
        i,
    );
    assert(crate::approvals::decision_metadata(status, key_hash) =~= seq![
        ("decision"@, JsonScalarView::Text(status)),
        ("idempotency_key_hash"@, JsonScalarView::Text(key_hash)),
    ]);
}

/// Under a reference that no approval has, nothing is read or decided.
pub proof fn an_absent_approval_is_out_of_reach(
    state: StoreView,
    c: ClockReadingView,
    follow_up: ClockReadingView,
    reference: Seq<char>,
    status: Seq<char>,
    actor: Seq<char>,
)
    requires
        runs(state, c),
        status == "approved"@ || status == "rejected"@,
        forall|q: int|
            0 <= q < state.approvals.len()
                ==> (#[trigger] state.approvals[q]).reference != reference,
    ensures
        state.get_approval(c, reference) == (
            state.checkpoint_clock(c).0,
            Ok::<Option<ApprovalRecordView>, StoreError>(None),
        ),
        state.decide_approval(c, follow_up, reference, status, actor) == (
            state.checkpoint_clock(c).0,
            Ok::<Option<ApprovalRecordView>, StoreError>(None),
        ),
{
    lemma_runs(state, c);
    lemma_none(state.approvals, live_approval(reference, state.tenant_id, Some(c.now_ms)));
    lemma_none(state.approvals, decidable(reference, state.tenant_id, Some(c.now_ms)));
}

/// The text that a decision is hashed by tells the reference and the decision: another
/// decision, or one on another approval, has another text.
pub proof fn a_decision_is_told_by_its_text(
    reference: Seq<char>,
    status: Seq<char>,
    other_reference: Seq<char>,
    other_status: Seq<char>,
)
    requires
        status == "approved"@ || status == "rejected"@,
        other_status == "approved"@ || other_status == "rejected"@,
        decision_text(reference, status) == decision_text(other_reference, other_status),
    ensures
        reference == other_reference,
        status == other_status,
{
    reveal_strlit("approved");
    reveal_strlit("rejected");
    reveal_strlit("\0");
    assert("approved"@.len() == 8 && "rejected"@.len() == 8 && "\0"@.len() == 1);
    let one = decision_text(reference, status);
    let two = decision_text(other_reference, other_status);
    assert(one.len() == reference.len() + 9 && two.len() == other_reference.len() + 9);
    assert(reference =~= one.take(one.len() - 9));
    assert(other_reference =~= two.take(two.len() - 9));
    assert(status =~= one.skip(one.len() - 8));
    assert(other_status =~= two.skip(two.len() - 8));
}

/// Deciding an approval changes nothing but approvals.
pub proof fn a_decision_touches_only_approvals(
    state: StoreView,
    c: ClockReadingView,
    follow_up: ClockReadingView,
    reference: Seq<char>,
    status: Seq<char>,
    actor: Seq<char>,
)
    requires
        runs_twice(state, c, follow_up),
    ensures
        ({
            let after = state.decide_approval(c, follow_up, reference, status, actor).0;
            after == (StoreView {
                approvals: after.approvals,
                ..crate::moment_laws::timed(state, after)
            })
        }),
{
}

} // verus!
