//! That no table ever holds a key twice.

use crate::clock::{ClockReadingView, ClockSampleView, StartupClockCheck};
use crate::documents::{
    GrantIssueDraftView, NodeGrantRevocationDraftView, NodeKeyRotationDraftView, NodeRevocationView,
    Parsed, RevocationView,
};
use crate::fleet::Submission;
use crate::grants::GrantContextView;
use crate::inbox_laws::documents_are_numbered_in_order;
use crate::keys::well_keyed;
use crate::records::{
    ApprovalRecordView, ExchangeRecordView, LifecycleRecordView, NodeChallengeView,
    OperationApprovalDraftView, OperationApprovalRecordView, OperationRecordView,
    WorkloadRecordView,
};
use crate::relation::{attempted, count, lemma_any_counted};
use crate::relation_laws::{
    lemma_attempted, unique_after_deletion, unique_after_push, unique_after_update,
};
use crate::schema::StartupView;
use crate::store::StoreView;
use vstd::prelude::*;

verus! {

/// A document at the end of an inbox keeps the keys unique.
broadcast proof fn keyed_after_enqueue(
    state: StoreView,
    node: Seq<char>,
    envelope_json: Seq<char>,
    now: Option<i64>,
)
    requires
        well_keyed(state),
    ensures
        (#[trigger] state.enqueue(node, envelope_json, now)) is Ok ==> well_keyed(
            state.enqueue(node, envelope_json, now)->Ok_0,
        ),
{
    if state.enqueue(node, envelope_json, now) is Ok {
        documents_are_numbered_in_order(state, node, envelope_json, now);
    }
}

/// Documents at the ends of inboxes keep the keys unique.
broadcast proof fn keyed_after_sending(
    state: StoreView,
    documents: Seq<(Seq<char>, Seq<char>)>,
    now: Option<i64>,
)
    requires
        well_keyed(state),
    ensures
        (#[trigger] state.enqueue_all(documents, now)) is Ok ==> well_keyed(
            state.enqueue_all(documents, now)->Ok_0,
        ),
    decreases documents.len(),
{
    broadcast use keyed_after_enqueue;

    if documents.len() > 0 {
        keyed_after_sending(state, documents.drop_last(), now);
    }
}

/// Putting an operation to an approval keeps the keys unique.
broadcast proof fn keyed_after_joining(
    state: StoreView,
    candidates: Seq<OperationApprovalRecordView>,
    id: Seq<char>,
    draft: OperationApprovalDraftView,
    now_ms: i64,
)
    requires
        well_keyed(state),
    ensures
        (#[trigger] state.join_approval(candidates, id, draft, now_ms)) is Ok ==> well_keyed(
            state.join_approval(candidates, id, draft, now_ms)->Ok_0.0,
        ),
    decreases candidates.len(),
{
    broadcast use {unique_after_push, unique_after_update};

    if candidates.len() > 0 && state.join_approval(candidates, id, draft, now_ms) is Ok {
        let rest = candidates.skip(1);
        let candidate = candidates[0];
        let ids = crate::json::json_strings(candidate.operation_ids_json)->0;
        if ids.len() >= crate::authorization::MAX_APPROVAL_OPERATIONS || ids.contains(id) {
            keyed_after_joining(state, rest, id, draft, now_ms);
        } else {
            let change = crate::authorization::approval_extended(
                crate::json::json_list(ids.push(id)),
            );
            let hit = crate::authorization::pending_at(
                candidate.id,
                state.tenant_id,
                candidate.version,
            );
            lemma_attempted(state.operation_approvals, hit, change);
            let extended = StoreView {
                operation_approvals: attempted(state.operation_approvals, hit, change)->0,
                ..state
            };
            assert(well_keyed(extended));
            if count(state.operation_approvals, hit) != 1 {
                keyed_after_joining(extended, rest, id, draft, now_ms);
            }
        }
    }
}

/// Denying operations keeps the keys unique.
broadcast proof fn keyed_after_denial(
    state: StoreView,
    contexts: Seq<GrantContextView>,
    from: int,
)
    requires
        well_keyed(state),
    ensures
        (#[trigger] state.deny_group(contexts, from)) is Ok ==> well_keyed(
            state.deny_group(contexts, from)->Ok_0,
        ),
    decreases contexts.len() - from,
{
    broadcast use unique_after_update;

    if 0 <= from < contexts.len() && state.deny_group(contexts, from) is Ok {
        let hit = crate::grants::requested_operation(
            contexts[from].operation.id,
            state.tenant_id,
        );
        let change = crate::operations::restated("denied"@);
        lemma_attempted(state.operations, hit, change);
        let denied = StoreView {
            operations: attempted(state.operations, hit, change)->0,
            ..state
        };
        assert(well_keyed(denied));
        keyed_after_denial(denied, contexts, from + 1);
    }
}

/// Issuing grants keeps the keys unique.
broadcast proof fn keyed_after_issue(
    state: StoreView,
    drafts: Seq<GrantIssueDraftView>,
    from: int,
    now_ms: i64,
)
    requires
        well_keyed(state),
    ensures
        (#[trigger] state.issue_group(drafts, from, now_ms)) is Ok ==> well_keyed(
            state.issue_group(drafts, from, now_ms)->Ok_0,
        ),
    decreases drafts.len() - from,
{
    broadcast use {unique_after_push, unique_after_update, keyed_after_enqueue};

    if 0 <= from < drafts.len() && state.issue_group(drafts, from, now_ms) is Ok {
        let next = state.issue_grant(drafts[from], now_ms)->Ok_0;
        assert(well_keyed(next));
        keyed_after_issue(next, drafts, from + 1, now_ms);
    }
}

/// Retiring the grants of a node keeps the keys unique.
broadcast proof fn keyed_after_retirement(
    state: StoreView,
    validated: Seq<(NodeGrantRevocationDraftView, i64)>,
    node: Seq<char>,
    reason: Seq<char>,
    now_ms: i64,
)
    requires
        well_keyed(state),
    ensures
        (#[trigger] state.retire_grants(validated, node, reason, now_ms)) is Ok ==> well_keyed(
            state.retire_grants(validated, node, reason, now_ms)->Ok_0,
        ),
    decreases validated.len(),
{
    broadcast use {unique_after_push, unique_after_update, keyed_after_enqueue};

    if validated.len() > 0 {
        keyed_after_retirement(state, validated.drop_last(), node, reason, now_ms);
    }
}

/// What the steps of an operation do to the keys.
broadcast group group_keyed_steps {
    unique_after_push,
    unique_after_update,
    unique_after_deletion,
    keyed_after_enqueue,
    keyed_after_sending,
    keyed_after_joining,
    keyed_after_denial,
    keyed_after_issue,
    keyed_after_retirement,
}

proof fn lemma_checkpoint(state: StoreView, c: ClockReadingView)
    requires
        well_keyed(state),
    ensures
        well_keyed(state.checkpoint_clock(c).0),
{
    broadcast use group_keyed_steps;
}

/// The clock keeps every key unique, whether it passes, is fenced or reconciled.
pub proof fn clock_keys_stay_unique(
    state: StoreView,
    c: ClockReadingView,
    sample: Option<ClockSampleView>,
    check: StartupClockCheck,
    database_ms: i64,
    startup: StartupView,
    tolerance_ms: u64,
)
    requires
        well_keyed(state),
    ensures
        well_keyed(state.checkpoint_clock(c).0),
        well_keyed(state.monitor_clock(c).0),
        sample is Some ==> well_keyed(
            state.initialize_clock(
                sample->0,
                check,
                database_ms,
                c.monotonic_ms,
                c.audit_id,
            ).0,
        ),
        well_keyed(
            state.reconcile_clock(
                startup.url,
                startup.schema,
                sample,
                database_ms,
                c.audit_id,
            ).0,
        ),
        well_keyed(
            state.connect_with_clock_source(
                startup,
                tolerance_ms,
                check,
                database_ms,
                c.monotonic_ms,
                c.audit_id,
            ).0,
        ),
{
    broadcast use group_keyed_steps;
}

/// A store without rows holds no key twice.
pub proof fn an_empty_store_is_well_keyed(state: StoreView)
    requires
        state.operators.len() == 0,
        state.bootstrap_tokens.len() == 0,
        state.operator_sessions.len() == 0,
        state.agents.len() == 0,
        state.secret_requests.len() == 0,
        state.exchanges.len() == 0,
        state.approvals.len() == 0,
        state.exchange_lifecycle.len() == 0,
        state.policies.len() == 0,
        state.audit_events.len() == 0,
        state.rate_windows.len() == 0,
        state.idempotency_keys.len() == 0,
        state.enrollment_requests.len() == 0,
        state.nodes.len() == 0,
        state.node_key_history.len() == 0,
        state.node_key_rotations.len() == 0,
        state.node_revocation_queue.len() == 0,
        state.node_sessions.len() == 0,
        state.workloads.len() == 0,
        state.fleet_policies.len() == 0,
        state.operations.len() == 0,
        state.operation_approvals.len() == 0,
        state.grants.len() == 0,
        state.grant_tombstones.len() == 0,
        state.node_inbox.len() == 0,
        state.node_events.len() == 0,
        state.node_challenges.len() == 0,
    ensures
        well_keyed(state),
{
}

/// Agents keep every key unique.
pub proof fn agent_keys_stay_unique(
    state: StoreView,
    c: ClockReadingView,
    id: Seq<char>,
    agent_id: Seq<char>,
    name: Seq<char>,
    ring: Option<Seq<char>>,
    api_key_hash: Seq<char>,
    expected_key_version: i64,
)
    requires
        well_keyed(state),
    ensures
        well_keyed(state.create_agent_with_id(c, id, agent_id, name, ring, api_key_hash).0),
        well_keyed(
            state.replace_agent_api_key_hash(c, agent_id, expected_key_version, api_key_hash).0,
        ),
        well_keyed(state.revoke_agent(c, agent_id).0),
{
    broadcast use group_keyed_steps;

    lemma_checkpoint(state, c);
}

/// Approvals keep every key unique.
pub proof fn approval_keys_stay_unique(
    state: StoreView,
    c: ClockReadingView,
    approval: ApprovalRecordView,
    follow_up: ClockReadingView,
    reference: Seq<char>,
    status: Seq<char>,
    decided_by: Seq<char>,
    actor_id: Seq<char>,
    key_hash: Seq<char>,
    digest: Option<Seq<u8>>,
    audit_id: Seq<char>,
)
    requires
        well_keyed(state),
    ensures
        well_keyed(state.create_approval(c, approval).0),
        well_keyed(state.decide_approval(c, follow_up, reference, status, decided_by).0),
        well_keyed(
            state.decide_approval_once(
                c,
                reference,
                status,
                actor_id,
                key_hash,
                digest,
                audit_id,
            ).0,
        ),
{
    broadcast use group_keyed_steps;

    lemma_checkpoint(state, c);
}

/// Audit and lifecycle records keep every key unique.
pub proof fn audit_keys_stay_unique(
    state: StoreView,
    c: ClockReadingView,
    record: LifecycleRecordView,
    id: Seq<char>,
    event_type: Seq<char>,
    actor_type: Seq<char>,
    actor_id: Option<Seq<char>>,
    target_type: Seq<char>,
    target_id: Option<Seq<char>>,
    metadata_json: Seq<char>,
)
    requires
        well_keyed(state),
    ensures
        well_keyed(state.append_lifecycle(c, record).0),
        well_keyed(
            state.append_audit(
                c,
                id,
                event_type,
                actor_type,
                actor_id,
                target_type,
                target_id,
                metadata_json,
            ).0,
        ),
{
    broadcast use group_keyed_steps;

    lemma_checkpoint(state, c);
}

/// Operations and their approvals keep every key unique.
pub proof fn operation_keys_stay_unique(
    state: StoreView,
    c: ClockReadingView,
    record: OperationRecordView,
    expected_unit: Seq<char>,
    expected_account: Seq<char>,
    effective_ttl_seconds: i64,
    approval: Option<OperationApprovalDraftView>,
    id: Seq<char>,
    expected_version: i64,
    expected_ids: Seq<Seq<char>>,
    decision: Seq<char>,
    decided_by: Seq<char>,
    decision_key_hash: Seq<char>,
)
    requires
        well_keyed(state),
    ensures
        well_keyed(
            state.create_operation(
                c,
                record,
                expected_unit,
                expected_account,
                effective_ttl_seconds,
                approval,
            ).0,
        ),
        well_keyed(
            state.decide_operation_approval(
                c,
                id,
                expected_version,
                expected_ids,
                decision,
                decided_by,
                decision_key_hash,
            ).0,
        ),
{
    broadcast use group_keyed_steps;

    lemma_checkpoint(state, c);
}

/// Exchanges keep every key unique.
pub proof fn exchange_keys_stay_unique(
    state: StoreView,
    c: ClockReadingView,
    follow_up: ClockReadingView,
    exchange: ExchangeRecordView,
    ttl_seconds: u64,
    id: Seq<char>,
    fulfiller_id: Seq<char>,
    enc: Seq<char>,
    ciphertext: Seq<char>,
    requester_id: Seq<char>,
    any_requester_id: Option<Seq<char>>,
    revoked_ttl_seconds: u64,
)
    requires
        well_keyed(state),
    ensures
        well_keyed(state.create_exchange(c, follow_up, exchange, ttl_seconds).0),
        well_keyed(state.reserve_exchange(c, follow_up, id, fulfiller_id).0),
        well_keyed(
            state.submit_exchange(c, follow_up, id, fulfiller_id, enc, ciphertext, ttl_seconds).0,
        ),
        well_keyed(state.consume_exchange(c, id, requester_id).0),
        well_keyed(
            state.revoke_exchange(c, follow_up, id, any_requester_id, revoked_ttl_seconds).0,
        ),
{
    broadcast use group_keyed_steps;

    lemma_checkpoint(state, c);
}

/// Enrollments keep every key unique.
pub proof fn enrollment_keys_stay_unique(
    state: StoreView,
    c: ClockReadingView,
    id: Seq<char>,
    node_id: Seq<char>,
    requested_name: Seq<char>,
    token_hash: Seq<char>,
    created_by: Seq<char>,
    ttl_seconds: u64,
    submission: Submission,
    expected_version: i64,
    expected_fingerprint: Seq<char>,
)
    requires
        well_keyed(state),
    ensures
        well_keyed(
            state.create_enrollment(
                c,
                id,
                node_id,
                requested_name,
                token_hash,
                created_by,
                ttl_seconds,
            ).0,
        ),
        well_keyed(
            state.submit_enrollment(c, id, node_id, token_hash, requested_name, submission).0,
        ),
        well_keyed(state.approve_enrollment(c, id, expected_version, expected_fingerprint).0),
        well_keyed(state.reject_enrollment(c, id, expected_version, expected_fingerprint).0),
{
    broadcast use group_keyed_steps;

    lemma_checkpoint(state, c);
}

/// Grants keep every key unique.
pub proof fn grant_keys_stay_unique(
    state: StoreView,
    c: ClockReadingView,
    drafts: Seq<GrantIssueDraftView>,
    grant_id: Seq<char>,
    reason: Seq<char>,
    envelope_json: Seq<char>,
    parsed: Parsed<RevocationView>,
)
    requires
        well_keyed(state),
    ensures
        well_keyed(state.issue_operation_grants(c, drafts).0),
        well_keyed(state.revoke_grant(c, grant_id, reason, envelope_json, parsed).0),
{
    broadcast use group_keyed_steps;

    lemma_checkpoint(state, c);
}

/// Revoked nodes and moved keys keep every key unique.
pub proof fn node_authority_keys_stay_unique(
    state: StoreView,
    c: ClockReadingView,
    node_id: Seq<char>,
    revocations: Seq<NodeGrantRevocationDraftView>,
    document_json: Seq<char>,
    document: Parsed<NodeRevocationView>,
    expected_key_version: i64,
    draft: NodeKeyRotationDraftView,
    rotation_id: Seq<char>,
    key_version: i64,
    fingerprint: Seq<char>,
    history_fingerprint: Option<Seq<char>>,
)
    requires
        well_keyed(state),
    ensures
        well_keyed(state.revoke_node(c, node_id, revocations, document_json, document).0),
        well_keyed(state.stage_node_key_rotation(c, node_id, expected_key_version, draft).0),
        well_keyed(
            state.complete_node_key_rotation(
                c,
                node_id,
                rotation_id,
                key_version,
                fingerprint,
                history_fingerprint,
            ).0,
        ),
{
    broadcast use group_keyed_steps;

    lemma_checkpoint(state, c);
}

/// Handshakes, inboxes and events keep every key unique.
pub proof fn node_channel_keys_stay_unique(
    state: StoreView,
    c: ClockReadingView,
    id: Seq<char>,
    node_id: Seq<char>,
    nonce_hash: Seq<char>,
    protocol_version: Seq<char>,
    capabilities_json: Seq<char>,
    capabilities_hash: Seq<char>,
    challenge: NodeChallengeView,
    session_id: Seq<char>,
    token_hash: Seq<char>,
    expires_at_ms: i64,
    key_version: i64,
    issuer_epoch: i64,
    poll: bool,
    ack_seq: Option<i64>,
    idempotency_key: Seq<char>,
    kind: Seq<char>,
    body_json: Seq<char>,
    body_hash: Seq<char>,
)
    requires
        well_keyed(state),
    ensures
        well_keyed(
            state.issue_node_challenge(
                c,
                id,
                node_id,
                nonce_hash,
                protocol_version,
                capabilities_json,
                capabilities_hash,
            ).0,
        ),
        well_keyed(
            state.consume_node_challenge(
                c,
                challenge,
                nonce_hash,
                session_id,
                token_hash,
                expires_at_ms,
            ).0,
        ),
        well_keyed(
            state.authenticate_node_session(
                c,
                session_id,
                node_id,
                token_hash,
                key_version,
                issuer_epoch,
                protocol_version,
                poll,
            ).0,
        ),
        well_keyed(state.poll_node_inbox(c, node_id, ack_seq).0),
        well_keyed(
            state.record_node_event(c, id, node_id, idempotency_key, kind, body_json, body_hash).0,
        ),
{
    broadcast use group_keyed_steps;

    lemma_checkpoint(state, c);
}

/// Operators keep every key unique.
pub proof fn operator_keys_stay_unique(
    state: StoreView,
    c: ClockReadingView,
    id: Seq<char>,
    username: Seq<char>,
    display_name: Seq<char>,
    password_hash: Seq<char>,
    token_hash: Seq<char>,
    ttl_seconds: u64,
    role: Seq<char>,
    operator_id: Seq<char>,
    current_session_id: Seq<char>,
    new_password_hash: Seq<char>,
)
    requires
        well_keyed(state),
    ensures
        well_keyed(state.bootstrap_local_operator(c, id, username, display_name, password_hash).0),
        well_keyed(state.issue_bootstrap_token(c, token_hash, ttl_seconds).0),
        well_keyed(
            state.bootstrap_operator_with_token(
                c,
                token_hash,
                id,
                username,
                display_name,
                password_hash,
            ).0,
        ),
        well_keyed(
            state.create_local_operator(c, id, username, display_name, role, password_hash).0,
        ),
        well_keyed(state.update_local_operator(c, id, display_name, role).0),
        well_keyed(state.delete_local_operator(c, id).0),
        well_keyed(
            state.change_operator_password(c, operator_id, current_session_id, new_password_hash).0,
        ),
        well_keyed(state.reset_local_operator_password(c, id, password_hash).0),
{
    broadcast use group_keyed_steps;

    lemma_checkpoint(state, c);
}

/// Policies keep every key unique.
pub proof fn policy_keys_stay_unique(
    state: StoreView,
    c: ClockReadingView,
    expected_version: i64,
    document_json: Seq<char>,
    updated_by: Seq<char>,
    documents: Seq<(Seq<char>, Seq<char>)>,
)
    requires
        well_keyed(state),
    ensures
        well_keyed(state.replace_policy_document(c, expected_version, document_json, updated_by).0),
        well_keyed(
            state.replace_fleet_policy(c, expected_version, document_json, updated_by, documents).0,
        ),
{
    broadcast use group_keyed_steps;

    lemma_checkpoint(state, c);
}

/// Sweeps and rate windows keep every key unique.
pub proof fn retention_keys_stay_unique(
    state: StoreView,
    c: ClockReadingView,
    grace_seconds: u64,
    retention_days: u32,
    key: Seq<char>,
    limit: u32,
    window_milliseconds: u64,
)
    requires
        well_keyed(state),
    ensures
        well_keyed(state.sweep_expired(c, grace_seconds).0),
        well_keyed(state.sweep_audit(c, retention_days).0),
        well_keyed(state.consume_rate_limit(c, key, limit, window_milliseconds).0),
{
    broadcast use group_keyed_steps;

    lemma_checkpoint(state, c);
    let rows = state.checkpoint_clock(c).0.rate_windows;
    lemma_any_counted(rows, crate::retention::window_with(key));
}

/// Secret requests keep every key unique.
pub proof fn secret_keys_stay_unique(
    state: StoreView,
    c: ClockReadingView,
    id: Seq<char>,
    requester_agent_id: Seq<char>,
    public_key: Seq<char>,
    description: Seq<char>,
    confirmation_code: Seq<char>,
    ttl_seconds: u64,
    enc: Seq<char>,
    ciphertext: Seq<char>,
    submitted_ttl_seconds: u64,
)
    requires
        well_keyed(state),
    ensures
        well_keyed(
            state.open_secret_request(
                c,
                id,
                requester_agent_id,
                public_key,
                description,
                confirmation_code,
                ttl_seconds,
            ).0,
        ),
        well_keyed(state.delete_secret_request(c, id, requester_agent_id).0),
        well_keyed(
            state.submit_secret_request(
                c,
                id,
                requester_agent_id,
                enc,
                ciphertext,
                submitted_ttl_seconds,
            ).0,
        ),
        well_keyed(state.consume_secret_request(c, id, requester_agent_id).0),
{
    broadcast use group_keyed_steps;

    lemma_checkpoint(state, c);
}

/// Sessions keep every key unique.
pub proof fn session_keys_stay_unique(
    state: StoreView,
    c: ClockReadingView,
    follow_up: ClockReadingView,
    session_id: Seq<char>,
    csrf_secret: Seq<char>,
    operator_id: Seq<char>,
    refresh_hash: Seq<char>,
    ttl_seconds: u64,
    old_refresh_hash: Seq<char>,
    new_refresh_hash: Seq<char>,
)
    requires
        well_keyed(state),
    ensures
        well_keyed(
            state.open_browser_session(
                c,
                follow_up,
                session_id,
                csrf_secret,
                operator_id,
                refresh_hash,
                ttl_seconds,
            ).0,
        ),
        well_keyed(
            state.rotate_browser_session_to(
                c,
                follow_up,
                session_id,
                old_refresh_hash,
                new_refresh_hash,
                ttl_seconds,
            ).0,
        ),
        well_keyed(state.touch_browser_session(c, session_id).0),
        well_keyed(state.revoke_browser_session(c, session_id).0),
{
    broadcast use group_keyed_steps;

    lemma_checkpoint(state, c);
}

/// Workloads keep every key unique.
pub proof fn workload_keys_stay_unique(
    state: StoreView,
    c: ClockReadingView,
    record: WorkloadRecordView,
    created_by: Seq<char>,
    registration_json: Seq<char>,
    policy_json: Seq<char>,
    id: Seq<char>,
    expected_version: i64,
    unit: Seq<char>,
    account: Seq<char>,
    consumption_mode: Seq<char>,
    local_ceiling_seconds: i64,
    node_id: Seq<char>,
)
    requires
        well_keyed(state),
    ensures
        well_keyed(state.create_workload(c, record, created_by, registration_json, policy_json).0),
        well_keyed(
            state.update_workload(
                c,
                id,
                expected_version,
                unit,
                account,
                consumption_mode,
                local_ceiling_seconds,
                node_id,
                registration_json,
                policy_json,
            ).0,
        ),
        well_keyed(
            state.revoke_workload(
                c,
                id,
                node_id,
                expected_version,
                registration_json,
                policy_json,
            ).0,
        ),
{
    broadcast use group_keyed_steps;

    lemma_checkpoint(state, c);
}

} // verus!
