//! What holds of approvals and of the policies behind them.

use crate::approvals::{
    approval_decided, decidable, idempotency_key, is_decision, replay_of, IDEMPOTENCY_RETENTION_MS,
};
use crate::clock::ClockReadingView;
use crate::error::StoreError;
use crate::keys::{approval_reference, fleet_policy_tenant, policy_tenant};
use crate::policy::{
    fleet_policy_of, fleet_policy_replaced, policy_at, policy_of, policy_replaced,
};
use crate::records::{ApprovalDecisionOutcomeView, ApprovalRecordView, FleetPolicyRecordView};
use crate::relation::{any, updated};
use crate::relation_laws::{
    lemma_key_spent, lemma_push_found, lemma_unique_first, lemma_unique_hit, lemma_unique_updated,
    unique,
};
use crate::secret_laws::finds_nothing;
use crate::store::StoreView;
use crate::tables::FleetPolicyRowView;
use vstd::prelude::*;

verus! {

/// A decision is none of the texts of an approval that waits.
proof fn lemma_decisions()
    ensures
        !is_decision("pending"@),
{
    reveal_strlit("pending");
    reveal_strlit("approved");
    reveal_strlit("rejected");
    assert("pending"@.len() == 7 && "approved"@.len() == 8 && "rejected"@.len() == 8);
}

/// An approval is decided once: after a decision, no other decision on it takes
/// effect.
pub proof fn an_approval_is_decided_once(
    state: StoreView,
    c: ClockReadingView,
    follow_up: ClockReadingView,
    reference: Seq<char>,
    status: Seq<char>,
    actor: Seq<char>,
    later: ClockReadingView,
    then: ClockReadingView,
    other_status: Seq<char>,
    other_actor: Seq<char>,
)
    requires
        unique(state.approvals, approval_reference()),
        state.decide_approval(c, follow_up, reference, status, actor).1 matches Ok(Some(_)),
        is_decision(other_status),
        state.decide_approval(c, follow_up, reference, status, actor).0.checkpoint_clock(later).1
            is Ok,
    ensures
        state.decide_approval(c, follow_up, reference, status, actor).0.decide_approval(
            later,
            then,
            reference,
            other_status,
            other_actor,
        ) == (
            state.decide_approval(c, follow_up, reference, status, actor).0.checkpoint_clock(
                later,
            ).0,
            Ok::<Option<ApprovalRecordView>, StoreError>(None),
        ),
{
    lemma_decisions();
    let s = state.checkpoint_clock(c).0;
    let now = s.now(c.now_ms);
    let after = state.decide_approval(c, follow_up, reference, status, actor).0;
    let hit = decidable(reference, s.tenant_id, now);
    lemma_key_spent(
        s.approvals,
        approval_reference(),
        reference,
        hit,
        approval_decided(status, now, actor),
        decidable(reference, s.tenant_id, after.checkpoint_clock(later).0.now(later.now_ms)),
    );
}

/// A decision under an idempotency key is applied once: within the retention the
/// same request is answered with the same record, another request under the key
/// is a conflict, and neither changes anything.
pub proof fn a_decision_is_replayed(
    state: StoreView,
    c: ClockReadingView,
    reference: Seq<char>,
    status: Seq<char>,
    actor: Seq<char>,
    key_hash: Seq<char>,
    digest: Option<Seq<u8>>,
    audit_id: Seq<char>,
    later: ClockReadingView,
    other_reference: Seq<char>,
    other_status: Seq<char>,
    other_digest: Option<Seq<u8>>,
    other_audit_id: Seq<char>,
)
    requires
        state.decide_approval_once(
            c,
            reference,
            status,
            actor,
            key_hash,
            digest,
            audit_id,
        ).1 matches Ok(ApprovalDecisionOutcomeView::Applied(_)),
        is_decision(other_status),
        other_digest is Some,
        ({
            let after = state.decide_approval_once(
                c,
                reference,
                status,
                actor,
                key_hash,
                digest,
                audit_id,
            ).0;
            let (then, gate) = after.checkpoint_clock(later);
            &&& gate is Ok
            &&& then.clock.last_observed_ms <= later.now_ms
            &&& later.now_ms < c.now_ms + IDEMPOTENCY_RETENTION_MS
        }),
    ensures
        ({
            let (after, reply) = state.decide_approval_once(
                c,
                reference,
                status,
                actor,
                key_hash,
                digest,
                audit_id,
            );
            after.decide_approval_once(
                later,
                other_reference,
                other_status,
                actor,
                key_hash,
                other_digest,
                other_audit_id,
            ) == (
                after.checkpoint_clock(later).0,
                Ok::<ApprovalDecisionOutcomeView, StoreError>(
                    if crate::ids::hex(other_digest->0) == crate::ids::hex(digest->0) {
                        ApprovalDecisionOutcomeView::Replayed(reply->Ok_0->Applied_0)
                    } else {
                        ApprovalDecisionOutcomeView::Conflict
                    },
                ),
            )
        }),
{
    let s = state.checkpoint_clock(c).0;
    let after = state.decide_approval_once(
        c,
        reference,
        status,
        actor,
        key_hash,
        digest,
        audit_id,
    ).0;
    let then = after.checkpoint_clock(later).0.now(later.now_ms);
    let keyed = idempotency_key(s.tenant_id, actor, key_hash);
    let replay = replay_of(s.tenant_id, actor, key_hash, then);
    let decided = decidable(reference, s.tenant_id, s.now(c.now_ms));
    let i = choose|i: int| 0 <= i < s.approvals.len() && decided(#[trigger] s.approvals[i]);
    assert(decided(s.approvals[i]));
    let row = after.idempotency_keys.last();
    assert(after.idempotency_keys == s.idempotency_keys.push(row));
    assert(!any(s.idempotency_keys, replay)) by {
        assert forall|k: int| 0 <= k < s.idempotency_keys.len() implies !replay(
            #[trigger] s.idempotency_keys[k],
        ) by {
            assert(!keyed(s.idempotency_keys[k]));
        }
    }
    lemma_push_found(s.idempotency_keys, row, replay);
}

/// A policy's version is replaced once: the version moves on by one, the new
/// document is what is read, and the old version cannot be replaced again.
pub proof fn a_policy_version_is_replaced_once(
    state: StoreView,
    c: ClockReadingView,
    version: i64,
    document_json: Seq<char>,
    actor: Seq<char>,
    later: ClockReadingView,
    other_json: Seq<char>,
    other_actor: Seq<char>,
)
    requires
        unique(state.policies, policy_tenant()),
        state.replace_policy_document(c, version, document_json, actor).1 matches Ok(Some(_)),
        state.replace_policy_document(c, version, document_json, actor).0.checkpoint_clock(later).1
            is Ok,
        other_json.len() > 0,
        other_actor.len() > 0,
    ensures
        ({
            let (after, reply) = state.replace_policy_document(c, version, document_json, actor);
            let read = after.policy_document(later).1;
            &&& reply->Ok_0->0 == version + 1
            &&& read matches Ok(Some(document)) && document.version == version + 1
                && document.document_json == document_json && document.updated_by == Some(actor)
            &&& finds_nothing(
                after.replace_policy_document(later, version, other_json, other_actor).1,
            )
        }),
{
    let s = state.checkpoint_clock(c).0;
    let now_ms = s.now(c.now_ms)->0;
    let after = state.replace_policy_document(c, version, document_json, actor).0;
    let of = policy_of(s.tenant_id);
    let at = policy_at(s.tenant_id, version);
    let rows = s.policies;
    if any(rows, at) {
        let change = policy_replaced((version + 1) as i64, document_json, now_ms, actor);
        let i = lemma_unique_first(rows, policy_tenant(), s.tenant_id, at);
        lemma_key_spent(rows, policy_tenant(), s.tenant_id, at, change, at);
        lemma_unique_updated(rows, policy_tenant(), at, change);
        lemma_unique_hit(after.policies, policy_tenant(), s.tenant_id, of, i);
        assert(of(after.policies[i]));
    } else {
        let row = after.policies.last();
        assert(after.policies == rows.push(row));
        lemma_push_found(rows, row, of);
        assert(of(after.policies[after.policies.len() - 1]));
        assert forall|k: int| 0 <= k < after.policies.len() implies !at(
            #[trigger] after.policies[k],
        ) by {
            if k < rows.len() {
                assert(!of(rows[k]));
            }
        }
        assert(!any(after.policies, at));
    }
}

/// Sending documents changes the inboxes alone.
proof fn lemma_enqueue_all_frame(
    state: StoreView,
    documents: Seq<(Seq<char>, Seq<char>)>,
    now: Option<i64>,
)
    requires
        state.enqueue_all(documents, now) is Ok,
    ensures
        ({
            let after = state.enqueue_all(documents, now)->Ok_0;
            after == (StoreView { node_inbox: after.node_inbox, ..state })
        }),
    decreases documents.len(),
{
    if documents.len() > 0 {
        lemma_enqueue_all_frame(state, documents.drop_last(), now);
    }
}

/// The fleet policy's version is replaced once: the version moves on by one, the
/// new document is what is read, and the old version cannot be replaced again.
pub proof fn a_fleet_policy_version_is_replaced_once(
    state: StoreView,
    c: ClockReadingView,
    version: i64,
    document_json: Seq<char>,
    actor: Seq<char>,
    documents: Seq<(Seq<char>, Seq<char>)>,
    later: ClockReadingView,
    other_json: Seq<char>,
    other_actor: Seq<char>,
    other_documents: Seq<(Seq<char>, Seq<char>)>,
)
    requires
        unique(state.fleet_policies, fleet_policy_tenant()),
        state.replace_fleet_policy(c, version, document_json, actor, documents).1 == Ok::<
            bool,
            StoreError,
        >(true),
        state.replace_fleet_policy(
            c,
            version,
            document_json,
            actor,
            documents,
        ).0.checkpoint_clock(later).1 is Ok,
    ensures
        ({
            let after = state.replace_fleet_policy(
                c,
                version,
                document_json,
                actor,
                documents,
            ).0;
            let read = after.fleet_policy(later).1;
            &&& read matches Ok(policy) && policy.version == version + 1 && policy.document_json
                == document_json && policy.updated_by == actor
            &&& after.replace_fleet_policy(
                later,
                version,
                other_json,
                other_actor,
                other_documents,
            ).1 == Ok::<bool, StoreError>(false)
        }),
{
    let s = state.checkpoint_clock(c).0;
    let record = FleetPolicyRecordView {
        version: (version + 1) as i64,
        document_json,
        updated_at_ms: s.now(c.now_ms)->0,
        updated_by: actor,
    };
    let of = fleet_policy_of(s.tenant_id);
    let rows = s.fleet_policies;
    let fresh = FleetPolicyRowView { tenant_id: s.tenant_id, record };
    let stored = StoreView {
        fleet_policies: if any(rows, of) {
            updated(rows, of, fleet_policy_replaced(record))
        } else {
            rows.push(fresh)
        },
        ..s
    };
    lemma_enqueue_all_frame(stored, documents, Some(record.updated_at_ms));
    if any(rows, of) {
        let i = lemma_unique_first(rows, fleet_policy_tenant(), s.tenant_id, of);
        lemma_unique_updated(rows, fleet_policy_tenant(), of, fleet_policy_replaced(record));
        lemma_unique_hit(stored.fleet_policies, fleet_policy_tenant(), s.tenant_id, of, i);
    } else {
        lemma_push_found(rows, fresh, of);
    }
}

} // verus!
