//! That what one tenant does leaves the others alone. Two things reach across
//! tenants and are not stated here: the sweep of lapsed rows, and the clearing of
//! lapsed and consumed challenges when a new one is issued.

use crate::clock::ClockReadingView;
use crate::documents::{
    GrantIssueDraftView, NodeGrantRevocationDraftView, NodeKeyRotationDraftView, NodeRevocationView,
    Parsed, RevocationView,
};
use crate::fleet::Submission;
use crate::grants::GrantContextView;
use crate::records::{
    ApprovalRecordView, ExchangeRecordView, LifecycleRecordView, NodeChallengeView,
    OperationApprovalDraftView, OperationApprovalRecordView, OperationRecordView,
    WorkloadRecordView,
};
use crate::relation::{attempted, count, lemma_filter_push, updated, without};
use crate::relation_laws::{lemma_attempted, lemma_updated_keeps, lemma_without_keeps};
use crate::store::StoreView;
use crate::tables::{
    AgentRowView, ApprovalRowView, AuditRowView, ChallengeRowView, EnrollmentRowView,
    ExchangeRowView, FleetPolicyRowView, GrantRowView, IdempotencyRowView, LifecycleRowView,
    NodeRowView, OperationApprovalRowView, OperationRowView, PolicyRowView, SecretRequestRowView,
    WorkloadRowView,
};
use vstd::prelude::*;

verus! {

/// The agents of other tenants.
pub open spec fn foreign_agents(tenant: Seq<char>) -> spec_fn(AgentRowView) -> bool {
    |row: AgentRowView| row.tenant_id != tenant
}

/// The secret requests of other tenants.
pub open spec fn foreign_secret_requests(tenant: Seq<char>) -> spec_fn(
    SecretRequestRowView,
) -> bool {
    |row: SecretRequestRowView| row.tenant_id != tenant
}

/// The exchanges of other tenants.
pub open spec fn foreign_exchanges(tenant: Seq<char>) -> spec_fn(ExchangeRowView) -> bool {
    |row: ExchangeRowView| row.record.workspace_id != tenant
}

/// The approvals of other tenants.
pub open spec fn foreign_approvals(tenant: Seq<char>) -> spec_fn(ApprovalRowView) -> bool {
    |row: ApprovalRowView| row.tenant_id != tenant
}

/// The exchange lifecycle of other tenants.
pub open spec fn foreign_exchange_lifecycle(tenant: Seq<char>) -> spec_fn(
    LifecycleRowView,
) -> bool {
    |row: LifecycleRowView| row.tenant_id != tenant
}

/// The policies of other tenants.
pub open spec fn foreign_policies(tenant: Seq<char>) -> spec_fn(PolicyRowView) -> bool {
    |row: PolicyRowView| row.tenant_id != tenant
}

/// The audit events of other tenants.
pub open spec fn foreign_audit_events(tenant: Seq<char>) -> spec_fn(AuditRowView) -> bool {
    |row: AuditRowView| row.tenant_id != tenant
}

/// The idempotency keys of other tenants.
pub open spec fn foreign_idempotency_keys(tenant: Seq<char>) -> spec_fn(
    IdempotencyRowView,
) -> bool {
    |row: IdempotencyRowView| row.tenant_id != tenant
}

/// The enrollment requests of other tenants.
pub open spec fn foreign_enrollment_requests(tenant: Seq<char>) -> spec_fn(
    EnrollmentRowView,
) -> bool {
    |row: EnrollmentRowView| row.tenant_id != tenant
}

/// The nodes of other tenants.
pub open spec fn foreign_nodes(tenant: Seq<char>) -> spec_fn(NodeRowView) -> bool {
    |row: NodeRowView| row.tenant_id != tenant
}

/// The workloads of other tenants.
pub open spec fn foreign_workloads(tenant: Seq<char>) -> spec_fn(WorkloadRowView) -> bool {
    |row: WorkloadRowView| row.tenant_id != tenant
}

/// The fleet policies of other tenants.
pub open spec fn foreign_fleet_policies(tenant: Seq<char>) -> spec_fn(FleetPolicyRowView) -> bool {
    |row: FleetPolicyRowView| row.tenant_id != tenant
}

/// The operations of other tenants.
pub open spec fn foreign_operations(tenant: Seq<char>) -> spec_fn(OperationRowView) -> bool {
    |row: OperationRowView| row.tenant_id != tenant
}

/// The operation approvals of other tenants.
pub open spec fn foreign_operation_approvals(tenant: Seq<char>) -> spec_fn(
    OperationApprovalRowView,
) -> bool {
    |row: OperationApprovalRowView| row.tenant_id != tenant
}

/// The grants of other tenants.
pub open spec fn foreign_grants(tenant: Seq<char>) -> spec_fn(GrantRowView) -> bool {
    |row: GrantRowView| row.tenant_id != tenant
}

/// The node challenges of other tenants.
pub open spec fn foreign_node_challenges(tenant: Seq<char>) -> spec_fn(ChallengeRowView) -> bool {
    |row: ChallengeRowView| row.challenge.tenant_id != tenant
}

/// A new row that is not picked changes nothing of what is picked.
broadcast proof fn kept_by_push<V>(rows: Seq<V>, v: V, q: spec_fn(V) -> bool)
    requires
        !q(v),
    ensures
        #[trigger] rows.push(v).filter(q) == rows.filter(q),
{
    lemma_filter_push(rows, v, q);
}

/// Rewriting rows that are not picked changes nothing of what is picked.
broadcast proof fn kept_by_update<V>(
    rows: Seq<V>,
    p: spec_fn(V) -> bool,
    f: spec_fn(V) -> V,
    q: spec_fn(V) -> bool,
)
    requires
        forall|i: int|
            0 <= i < rows.len() && p(#[trigger] rows[i]) ==> !q(rows[i]) && !q(f(rows[i])),
    ensures
        #[trigger] updated(rows, p, f).filter(q) == rows.filter(q),
{
    lemma_updated_keeps(rows, p, f, q);
}

/// Deleting rows that are not picked changes nothing of what is picked.
broadcast proof fn kept_by_deletion<V>(
    rows: Seq<V>,
    p: spec_fn(V) -> bool,
    q: spec_fn(V) -> bool,
)
    requires
        forall|v: V| #[trigger] q(v) ==> !p(v),
    ensures
        #[trigger] without(rows, p).filter(q) == rows.filter(q),
{
    lemma_without_keeps(rows, p, q);
}

/// Whether every row of another tenant is as it was, in every table whose rows
/// have one.
pub open spec fn others_kept(before: StoreView, after: StoreView) -> bool {
    let tenant = before.tenant_id;
    &&& after.agents.filter(foreign_agents(tenant)) == before.agents.filter(foreign_agents(tenant))
    &&& after.secret_requests.filter(foreign_secret_requests(tenant))
        == before.secret_requests.filter(foreign_secret_requests(tenant))
    &&& after.exchanges.filter(foreign_exchanges(tenant))
        == before.exchanges.filter(foreign_exchanges(tenant))
    &&& after.approvals.filter(foreign_approvals(tenant))
        == before.approvals.filter(foreign_approvals(tenant))
    &&& after.exchange_lifecycle.filter(foreign_exchange_lifecycle(tenant))
        == before.exchange_lifecycle.filter(foreign_exchange_lifecycle(tenant))
    &&& after.policies.filter(foreign_policies(tenant))
        == before.policies.filter(foreign_policies(tenant))
    &&& after.audit_events.filter(foreign_audit_events(tenant))
        == before.audit_events.filter(foreign_audit_events(tenant))
    &&& after.idempotency_keys.filter(foreign_idempotency_keys(tenant))
        == before.idempotency_keys.filter(foreign_idempotency_keys(tenant))
    &&& after.enrollment_requests.filter(foreign_enrollment_requests(tenant))
        == before.enrollment_requests.filter(foreign_enrollment_requests(tenant))
    &&& after.nodes.filter(foreign_nodes(tenant)) == before.nodes.filter(foreign_nodes(tenant))
    &&& after.workloads.filter(foreign_workloads(tenant))
        == before.workloads.filter(foreign_workloads(tenant))
    &&& after.fleet_policies.filter(foreign_fleet_policies(tenant))
        == before.fleet_policies.filter(foreign_fleet_policies(tenant))
    &&& after.operations.filter(foreign_operations(tenant))
        == before.operations.filter(foreign_operations(tenant))
    &&& after.operation_approvals.filter(foreign_operation_approvals(tenant))
        == before.operation_approvals.filter(foreign_operation_approvals(tenant))
    &&& after.grants.filter(foreign_grants(tenant)) == before.grants.filter(foreign_grants(tenant))
    &&& after.node_challenges.filter(foreign_node_challenges(tenant))
        == before.node_challenges.filter(foreign_node_challenges(tenant))
}

/// Whether a step keeps its tenant and the rows of the others.
spec fn kept(before: StoreView, after: StoreView) -> bool {
    after.tenant_id == before.tenant_id && others_kept(before, after)
}

/// Sending documents leaves the rows of other tenants.
broadcast proof fn kept_by_sending(
    state: StoreView,
    documents: Seq<(Seq<char>, Seq<char>)>,
    now: Option<i64>,
)
    ensures
        (#[trigger] state.enqueue_all(documents, now)) is Ok ==> kept(
            state,
            state.enqueue_all(documents, now)->Ok_0,
        ),
    decreases documents.len(),
{
    if documents.len() > 0 {
        kept_by_sending(state, documents.drop_last(), now);
    }
}

/// Putting an operation to an approval leaves the rows of other tenants.
broadcast proof fn kept_by_joining(
    state: StoreView,
    candidates: Seq<OperationApprovalRecordView>,
    id: Seq<char>,
    draft: OperationApprovalDraftView,
    now_ms: i64,
)
    ensures
        (#[trigger] state.join_approval(candidates, id, draft, now_ms)) is Ok ==> kept(
            state,
            state.join_approval(candidates, id, draft, now_ms)->Ok_0.0,
        ),
    decreases candidates.len(),
{
    broadcast use {kept_by_push, kept_by_update};

    if candidates.len() > 0 && state.join_approval(candidates, id, draft, now_ms) is Ok {
        let rest = candidates.skip(1);
        let candidate = candidates[0];
        let ids = crate::json::json_strings(candidate.operation_ids_json)->0;
        if ids.len() >= crate::authorization::MAX_APPROVAL_OPERATIONS || ids.contains(id) {
            kept_by_joining(state, rest, id, draft, now_ms);
        } else {
            let change = crate::authorization::approval_extended(
                crate::json::json_list(ids.push(id)),
            );
            let hit = crate::authorization::pending_at(
                candidate.id,
                state.tenant_id,
                candidate.version,
            );
            lemma_attempted(state.operation_approvals, hit, change);
            let extended = StoreView {
                operation_approvals: attempted(state.operation_approvals, hit, change)->0,
                ..state
            };
            assert(kept(state, extended));
            if count(state.operation_approvals, hit) != 1 {
                kept_by_joining(extended, rest, id, draft, now_ms);
            }
        }
    }
}

/// Denying operations leaves the rows of other tenants.
broadcast proof fn kept_by_denial(state: StoreView, contexts: Seq<GrantContextView>, from: int)
    ensures
        (#[trigger] state.deny_group(contexts, from)) is Ok ==> kept(
            state,
            state.deny_group(contexts, from)->Ok_0,
        ),
    decreases contexts.len() - from,
{
    broadcast use kept_by_update;

    if 0 <= from < contexts.len() && state.deny_group(contexts, from) is Ok {
        let hit = crate::grants::requested_operation(
            contexts[from].operation.id,
            state.tenant_id,
        );
        let change = crate::operations::restated("denied"@);
        lemma_attempted(state.operations, hit, change);
        let denied = StoreView {
            operations: attempted(state.operations, hit, change)->0,
            ..state
        };
        assert(kept(state, denied));
        kept_by_denial(denied, contexts, from + 1);
    }
}

/// Issuing grants leaves the rows of other tenants.
broadcast proof fn kept_by_issue(
    state: StoreView,
    drafts: Seq<GrantIssueDraftView>,
    from: int,
    now_ms: i64,
)
    ensures
        (#[trigger] state.issue_group(drafts, from, now_ms)) is Ok ==> kept(
            state,
            state.issue_group(drafts, from, now_ms)->Ok_0,
        ),
    decreases drafts.len() - from,
{
    broadcast use {kept_by_push, kept_by_update};

    if 0 <= from < drafts.len() && state.issue_group(drafts, from, now_ms) is Ok {
        let next = state.issue_grant(drafts[from], now_ms)->Ok_0;
        assert(kept(state, next));
        kept_by_issue(next, drafts, from + 1, now_ms);
    }
}

/// Retiring the grants of a node leaves the rows of other tenants.
broadcast proof fn kept_by_retirement(
    state: StoreView,
    validated: Seq<(NodeGrantRevocationDraftView, i64)>,
    node: Seq<char>,
    reason: Seq<char>,
    now_ms: i64,
)
    ensures
        (#[trigger] state.retire_grants(validated, node, reason, now_ms)) is Ok ==> kept(
            state,
            state.retire_grants(validated, node, reason, now_ms)->Ok_0,
        ),
    decreases validated.len(),
{
    broadcast use {kept_by_push, kept_by_update};

    if validated.len() > 0 {
        kept_by_retirement(state, validated.drop_last(), node, reason, now_ms);
    }
}

/// What the steps of an operation do to the rows of other tenants.
broadcast group group_tenant_steps {
    kept_by_push,
    kept_by_update,
    kept_by_deletion,
    kept_by_sending,
    kept_by_joining,
    kept_by_denial,
    kept_by_issue,
    kept_by_retirement,
}

/// Changes to agents leave the rows of other tenants alone.
pub proof fn agent_changes_stay_in_the_tenant(
    state: StoreView,
    c: ClockReadingView,
    id: Seq<char>,
    agent_id: Seq<char>,
    name: Seq<char>,
    ring: Option<Seq<char>>,
    api_key_hash: Seq<char>,
    expected_key_version: i64,
)
    requires
        state.checkpoint_clock(c).1 is Ok,
    ensures
        others_kept(state, state.create_agent_with_id(c, id, agent_id, name, ring, api_key_hash).0),
        others_kept(
            state,
            state.replace_agent_api_key_hash(c, agent_id, expected_key_version, api_key_hash).0,
        ),
        others_kept(state, state.revoke_agent(c, agent_id).0),
{
    broadcast use group_tenant_steps;

}

/// Changes to approvals leave the rows of other tenants alone.
pub proof fn approval_changes_stay_in_the_tenant(
    state: StoreView,
    c: ClockReadingView,
    approval: ApprovalRecordView,
    follow_up: ClockReadingView,
    reference: Seq<char>,
    status: Seq<char>,
    decided_by: Seq<char>,
    actor_id: Seq<char>,
    key_hash: Seq<char>,
    digest: Option<Seq<u8>>,
    audit_id: Seq<char>,
)
    requires
        state.checkpoint_clock(c).1 is Ok,
    ensures
        others_kept(state, state.create_approval(c, approval).0),
        state.decide_approval(c, follow_up, reference, status, decided_by).1 is Ok ==> others_kept(
            state,
            state.decide_approval(c, follow_up, reference, status, decided_by).0,
        ),
        others_kept(
            state,
            state.decide_approval_once(
                c,
                reference,
                status,
                actor_id,
                key_hash,
                digest,
                audit_id,
            ).0,
        ),
{
    broadcast use group_tenant_steps;

}

/// Audit and lifecycle records leave the rows of other tenants alone.
pub proof fn audit_changes_stay_in_the_tenant(
    state: StoreView,
    c: ClockReadingView,
    record: LifecycleRecordView,
    id: Seq<char>,
    event_type: Seq<char>,
    actor_type: Seq<char>,
    actor_id: Option<Seq<char>>,
    target_type: Seq<char>,
    target_id: Option<Seq<char>>,
    metadata_json: Seq<char>,
)
    requires
        state.checkpoint_clock(c).1 is Ok,
    ensures
        others_kept(state, state.append_lifecycle(c, record).0),
        others_kept(
            state,
            state.append_audit(
                c,
                id,
                event_type,
                actor_type,
                actor_id,
                target_type,
                target_id,
                metadata_json,
            ).0,
        ),
{
    broadcast use group_tenant_steps;

}

/// Changes to operations and their approvals leave the rows of other tenants alone.
pub proof fn operation_changes_stay_in_the_tenant(
    state: StoreView,
    c: ClockReadingView,
    record: OperationRecordView,
    expected_unit: Seq<char>,
    expected_account: Seq<char>,
    effective_ttl_seconds: i64,
    approval: Option<OperationApprovalDraftView>,
    id: Seq<char>,
    expected_version: i64,
    expected_ids: Seq<Seq<char>>,
    decision: Seq<char>,
    decided_by: Seq<char>,
    decision_key_hash: Seq<char>,
)
    requires
        state.checkpoint_clock(c).1 is Ok,
    ensures
        others_kept(
            state,
            state.create_operation(
                c,
                record,
                expected_unit,
                expected_account,
                effective_ttl_seconds,
                approval,
            ).0,
        ),
        others_kept(
            state,
            state.decide_operation_approval(
                c,
                id,
                expected_version,
                expected_ids,
                decision,
                decided_by,
                decision_key_hash,
            ).0,
        ),
{
    broadcast use group_tenant_steps;

}

/// Changes to exchanges leave the rows of other tenants alone.
pub proof fn exchange_changes_stay_in_the_tenant(
    state: StoreView,
    c: ClockReadingView,
    follow_up: ClockReadingView,
    exchange: ExchangeRecordView,
    ttl_seconds: u64,
    id: Seq<char>,
    fulfiller_id: Seq<char>,
    enc: Seq<char>,
    ciphertext: Seq<char>,
    requester_id: Seq<char>,
    any_requester_id: Option<Seq<char>>,
    revoked_ttl_seconds: u64,
)
    requires
        state.checkpoint_clock(c).1 is Ok,
    ensures
        state.create_exchange(c, follow_up, exchange, ttl_seconds).1 is Ok ==> others_kept(
            state,
            state.create_exchange(c, follow_up, exchange, ttl_seconds).0,
        ),
        state.reserve_exchange(c, follow_up, id, fulfiller_id).1 is Ok ==> others_kept(
            state,
            state.reserve_exchange(c, follow_up, id, fulfiller_id).0,
        ),
        state.submit_exchange(c, follow_up, id, fulfiller_id, enc, ciphertext, ttl_seconds).1
            is Ok ==> others_kept(
            state,
            state.submit_exchange(c, follow_up, id, fulfiller_id, enc, ciphertext, ttl_seconds).0,
        ),
        others_kept(state, state.consume_exchange(c, id, requester_id).0),
        state.revoke_exchange(c, follow_up, id, any_requester_id, revoked_ttl_seconds).1
            is Ok ==> others_kept(
            state,
            state.revoke_exchange(c, follow_up, id, any_requester_id, revoked_ttl_seconds).0,
        ),
{
    broadcast use group_tenant_steps;

}

/// Changes to enrollments leave the rows of other tenants alone.
pub proof fn enrollment_changes_stay_in_the_tenant(
    state: StoreView,
    c: ClockReadingView,
    id: Seq<char>,
    node_id: Seq<char>,
    requested_name: Seq<char>,
    token_hash: Seq<char>,
    created_by: Seq<char>,
    ttl_seconds: u64,
    submission: Submission,
    expected_version: i64,
    expected_fingerprint: Seq<char>,
)
    requires
        state.checkpoint_clock(c).1 is Ok,
    ensures
        others_kept(
            state,
            state.create_enrollment(
                c,
                id,
                node_id,
                requested_name,
                token_hash,
                created_by,
                ttl_seconds,
            ).0,
        ),
        others_kept(
            state,
            state.submit_enrollment(c, id, node_id, token_hash, requested_name, submission).0,
        ),
        others_kept(
            state,
            state.approve_enrollment(c, id, expected_version, expected_fingerprint).0,
        ),
        others_kept(
            state,
            state.reject_enrollment(c, id, expected_version, expected_fingerprint).0,
        ),
{
    broadcast use group_tenant_steps;

}

/// Changes to grants leave the rows of other tenants alone.
pub proof fn grant_changes_stay_in_the_tenant(
    state: StoreView,
    c: ClockReadingView,
    drafts: Seq<GrantIssueDraftView>,
    grant_id: Seq<char>,
    reason: Seq<char>,
    envelope_json: Seq<char>,
    parsed: Parsed<RevocationView>,
)
    requires
        state.checkpoint_clock(c).1 is Ok,
    ensures
        others_kept(state, state.issue_operation_grants(c, drafts).0),
        others_kept(state, state.revoke_grant(c, grant_id, reason, envelope_json, parsed).0),
{
    broadcast use group_tenant_steps;

}

/// Revoking a node and moving its key leave the rows of other tenants alone.
pub proof fn node_authority_changes_stay_in_the_tenant(
    state: StoreView,
    c: ClockReadingView,
    node_id: Seq<char>,
    revocations: Seq<NodeGrantRevocationDraftView>,
    document_json: Seq<char>,
    document: Parsed<NodeRevocationView>,
    expected_key_version: i64,
    draft: NodeKeyRotationDraftView,
    rotation_id: Seq<char>,
    key_version: i64,
    fingerprint: Seq<char>,
    history_fingerprint: Option<Seq<char>>,
)
    requires
        state.checkpoint_clock(c).1 is Ok,
    ensures
        others_kept(state, state.revoke_node(c, node_id, revocations, document_json, document).0),
        others_kept(
            state,
            state.stage_node_key_rotation(c, node_id, expected_key_version, draft).0,
        ),
        others_kept(
            state,
            state.complete_node_key_rotation(
                c,
                node_id,
                rotation_id,
                key_version,
                fingerprint,
                history_fingerprint,
            ).0,
        ),
{
    broadcast use group_tenant_steps;

}

/// Handshakes, polls and events leave the rows of other tenants alone.
pub proof fn node_channel_changes_stay_in_the_tenant(
    state: StoreView,
    c: ClockReadingView,
    challenge: NodeChallengeView,
    nonce_hash: Seq<char>,
    session_id: Seq<char>,
    token_hash: Seq<char>,
    expires_at_ms: i64,
    node_id: Seq<char>,
    key_version: i64,
    issuer_epoch: i64,
    protocol_version: Seq<char>,
    poll: bool,
    ack_seq: Option<i64>,
    id: Seq<char>,
    idempotency_key: Seq<char>,
    kind: Seq<char>,
    body_json: Seq<char>,
    body_hash: Seq<char>,
)
    requires
        state.checkpoint_clock(c).1 is Ok,
    ensures
        challenge.tenant_id == state.tenant_id ==> others_kept(
            state,
            state.consume_node_challenge(
                c,
                challenge,
                nonce_hash,
                session_id,
                token_hash,
                expires_at_ms,
            ).0,
        ),
        others_kept(
            state,
            state.authenticate_node_session(
                c,
                session_id,
                node_id,
                token_hash,
                key_version,
                issuer_epoch,
                protocol_version,
                poll,
            ).0,
        ),
        others_kept(state, state.poll_node_inbox(c, node_id, ack_seq).0),
        others_kept(
            state,
            state.record_node_event(c, id, node_id, idempotency_key, kind, body_json, body_hash).0,
        ),
{
    broadcast use group_tenant_steps;

}

/// Changes to operators leave the rows of other tenants alone.
pub proof fn operator_changes_stay_in_the_tenant(
    state: StoreView,
    c: ClockReadingView,
    id: Seq<char>,
    username: Seq<char>,
    display_name: Seq<char>,
    password_hash: Seq<char>,
    token_hash: Seq<char>,
    ttl_seconds: u64,
    role: Seq<char>,
    operator_id: Seq<char>,
    current_session_id: Seq<char>,
    new_password_hash: Seq<char>,
)
    requires
        state.checkpoint_clock(c).1 is Ok,
    ensures
        others_kept(
            state,
            state.bootstrap_local_operator(c, id, username, display_name, password_hash).0,
        ),
        others_kept(state, state.issue_bootstrap_token(c, token_hash, ttl_seconds).0),
        others_kept(
            state,
            state.bootstrap_operator_with_token(
                c,
                token_hash,
                id,
                username,
                display_name,
                password_hash,
            ).0,
        ),
        others_kept(
            state,
            state.create_local_operator(c, id, username, display_name, role, password_hash).0,
        ),
        others_kept(state, state.update_local_operator(c, id, display_name, role).0),
        others_kept(state, state.delete_local_operator(c, id).0),
        others_kept(
            state,
            state.change_operator_password(c, operator_id, current_session_id, new_password_hash).0,
        ),
        others_kept(state, state.reset_local_operator_password(c, id, password_hash).0),
{
    broadcast use group_tenant_steps;

}

/// Changes to policies leave the rows of other tenants alone.
pub proof fn policy_changes_stay_in_the_tenant(
    state: StoreView,
    c: ClockReadingView,
    expected_version: i64,
    document_json: Seq<char>,
    updated_by: Seq<char>,
    documents: Seq<(Seq<char>, Seq<char>)>,
)
    requires
        state.checkpoint_clock(c).1 is Ok,
    ensures
        others_kept(
            state,
            state.replace_policy_document(c, expected_version, document_json, updated_by).0,
        ),
        others_kept(
            state,
            state.replace_fleet_policy(c, expected_version, document_json, updated_by, documents).0,
        ),
{
    broadcast use group_tenant_steps;

}

/// Audit sweeps and rate windows leave the rows of other tenants alone.
pub proof fn retention_changes_stay_in_the_tenant(
    state: StoreView,
    c: ClockReadingView,
    retention_days: u32,
    key: Seq<char>,
    limit: u32,
    window_milliseconds: u64,
)
    requires
        state.checkpoint_clock(c).1 is Ok,
    ensures
        others_kept(state, state.sweep_audit(c, retention_days).0),
        others_kept(state, state.consume_rate_limit(c, key, limit, window_milliseconds).0),
{
    broadcast use group_tenant_steps;

}

/// Changes to secret requests leave the rows of other tenants alone.
pub proof fn secret_changes_stay_in_the_tenant(
    state: StoreView,
    c: ClockReadingView,
    id: Seq<char>,
    requester_agent_id: Seq<char>,
    public_key: Seq<char>,
    description: Seq<char>,
    confirmation_code: Seq<char>,
    ttl_seconds: u64,
    enc: Seq<char>,
    ciphertext: Seq<char>,
    submitted_ttl_seconds: u64,
)
    requires
        state.checkpoint_clock(c).1 is Ok,
    ensures
        others_kept(
            state,
            state.open_secret_request(
                c,
                id,
                requester_agent_id,
                public_key,
                description,
                confirmation_code,
                ttl_seconds,
            ).0,
        ),
        others_kept(state, state.delete_secret_request(c, id, requester_agent_id).0),
        others_kept(
            state,
            state.submit_secret_request(
                c,
                id,
                requester_agent_id,
                enc,
                ciphertext,
                submitted_ttl_seconds,
            ).0,
        ),
        others_kept(state, state.consume_secret_request(c, id, requester_agent_id).0),
{
    broadcast use group_tenant_steps;

}

/// Changes to sessions leave the rows of other tenants alone.
pub proof fn session_changes_stay_in_the_tenant(
    state: StoreView,
    c: ClockReadingView,
    follow_up: ClockReadingView,
    session_id: Seq<char>,
    csrf_secret: Seq<char>,
    operator_id: Seq<char>,
    refresh_hash: Seq<char>,
    ttl_seconds: u64,
    old_refresh_hash: Seq<char>,
    new_refresh_hash: Seq<char>,
)
    requires
        state.checkpoint_clock(c).1 is Ok,
    ensures
        state.open_browser_session(
            c,
            follow_up,
            session_id,
            csrf_secret,
            operator_id,
            refresh_hash,
            ttl_seconds,
        ).1 is Ok ==> others_kept(
            state,
            state.open_browser_session(
                c,
                follow_up,
                session_id,
                csrf_secret,
                operator_id,
                refresh_hash,
                ttl_seconds,
            ).0,
        ),
        state.rotate_browser_session_to(
            c,
            follow_up,
            session_id,
            old_refresh_hash,
            new_refresh_hash,
            ttl_seconds,
        ).1 is Ok ==> others_kept(
            state,
            state.rotate_browser_session_to(
                c,
                follow_up,
                session_id,
                old_refresh_hash,
                new_refresh_hash,
                ttl_seconds,
            ).0,
        ),
        others_kept(state, state.touch_browser_session(c, session_id).0),
        others_kept(state, state.revoke_browser_session(c, session_id).0),
{
    broadcast use group_tenant_steps;

}

/// Changes to workloads leave the rows of other tenants alone.
pub proof fn workload_changes_stay_in_the_tenant(
    state: StoreView,
    c: ClockReadingView,
    record: WorkloadRecordView,
    created_by: Seq<char>,
    registration_json: Seq<char>,
    policy_json: Seq<char>,
    id: Seq<char>,
    expected_version: i64,
    unit: Seq<char>,
    account: Seq<char>,
    consumption_mode: Seq<char>,
    local_ceiling_seconds: i64,
    node_id: Seq<char>,
)
    requires
        state.checkpoint_clock(c).1 is Ok,
    ensures
        others_kept(
            state,
            state.create_workload(c, record, created_by, registration_json, policy_json).0,
        ),
        others_kept(
            state,
            state.update_workload(
                c,
                id,
                expected_version,
                unit,
                account,
                consumption_mode,
                local_ceiling_seconds,
                node_id,
                registration_json,
                policy_json,
            ).0,
        ),
        others_kept(
            state,
            state.revoke_workload(
                c,
                id,
                node_id,
                expected_version,
                registration_json,
                policy_json,
            ).0,
        ),
{
    broadcast use group_tenant_steps;

}

} // verus!
