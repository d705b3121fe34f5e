//! What holds of the clock that every operation reads first.

use crate::clock::{
    open_session, summary_json, system_event, unsettled_approval, ClockReadingView, ClockSampleView,
    CLOCK_ADVANCE_INTERVAL_MS,
};
use crate::documents::{
    GrantIssueDraftView, NodeGrantRevocationDraftView, NodeKeyRotationDraftView,
    NodeRevocationView, Parsed, RevocationView,
};
use crate::error::StoreError;
use crate::fleet::Submission;
use crate::records::{
    ApprovalRecordView, ExchangeRecordView, LifecycleRecordView, NodeChallengeView,
    OperationApprovalDraftView, OperationRecordView, WorkloadRecordView,
};
use crate::relation::any;
use crate::relation_laws::lemma_filter_members;
use crate::schema::{kind_of, SchemaSnapshotView};
use crate::store::StoreView;
use crate::tables::{ApprovalRowView, OperatorRowView, SessionRowView};
use vstd::prelude::*;

verus! {

/// Whether an operation failed with an error and left a state.
pub open spec fn refused<T>(
    outcome: (StoreView, Result<T, StoreError>),
    state: StoreView,
    error: StoreError,
) -> bool {
    outcome.0 == state && outcome.1 == Err::<T, StoreError>(error)
}

/// While the fence is set, the checkpoint refuses and changes nothing.
pub proof fn a_fenced_clock_refuses(state: StoreView, c: ClockReadingView)
    requires
        state.clock.fenced_at is Some,
    ensures
        state.checkpoint_clock(c) == (state, Err::<(), StoreError>(StoreError::ClockFenced)),
{
}

/// Where the checkpoint refuses, no agent is read or changed: each call fails with
/// what the checkpoint reports, and changes nothing but what it changed.
pub proof fn a_refused_checkpoint_refuses_agents(
    state: StoreView,
    c: ClockReadingView,
    error: StoreError,
    id: Seq<char>,
    agent_id: Seq<char>,
    name: Seq<char>,
    ring: Option<Seq<char>>,
    api_key_hash: Seq<char>,
    expected_key_version: i64,
)
    requires
        state.checkpoint_clock(c).1 == Err::<(), StoreError>(error),
    ensures
        refused(
            state.create_agent_with_id(c, id, agent_id, name, ring, api_key_hash),
            state.checkpoint_clock(c).0,
            error,
        ),
        refused(state.agent_by_key_id(c, id), state.checkpoint_clock(c).0, error),
        refused(state.agent_by_agent_id(c, agent_id), state.checkpoint_clock(c).0, error),
        refused(state.list_admin_agents(c), state.checkpoint_clock(c).0, error),
        refused(
            state.replace_agent_api_key_hash(c, agent_id, expected_key_version, api_key_hash),
            state.checkpoint_clock(c).0,
            error,
        ),
        refused(state.revoke_agent(c, agent_id), state.checkpoint_clock(c).0, error),
{
}

/// Where the checkpoint refuses, no approval is read or changed: each call fails with
/// what the checkpoint reports, and changes nothing but what it changed.
pub proof fn a_refused_checkpoint_refuses_approvals(
    state: StoreView,
    c: ClockReadingView,
    error: StoreError,
    approval: ApprovalRecordView,
    reference: Seq<char>,
    status: Option<Seq<char>>,
    cursor: Option<(i64, Seq<char>)>,
    limit: u32,
    follow_up: ClockReadingView,
    one_status: Seq<char>,
    decided_by: Seq<char>,
    actor_id: Seq<char>,
    key_hash: Seq<char>,
    digest: Option<Seq<u8>>,
    audit_id: Seq<char>,
)
    requires
        state.checkpoint_clock(c).1 == Err::<(), StoreError>(error),
    ensures
        refused(state.create_approval(c, approval), state.checkpoint_clock(c).0, error),
        refused(state.get_approval(c, reference), state.checkpoint_clock(c).0, error),
        refused(state.list_approvals(c, status, cursor, limit), state.checkpoint_clock(c).0, error),
        refused(state.count_pending_approvals(c), state.checkpoint_clock(c).0, error),
        refused(
            state.decide_approval(c, follow_up, reference, one_status, decided_by),
            state.checkpoint_clock(c).0,
            error,
        ),
        refused(
            state.decide_approval_once(
                c,
                reference,
                one_status,
                actor_id,
                key_hash,
                digest,
                audit_id,
            ),
            state.checkpoint_clock(c).0,
            error,
        ),
{
}

/// Where the checkpoint refuses, no record is read or changed: each call fails with
/// what the checkpoint reports, and changes nothing but what it changed.
pub proof fn a_refused_checkpoint_refuses_audit(
    state: StoreView,
    c: ClockReadingView,
    error: StoreError,
    exchange_id: Seq<char>,
    limit: u32,
    record: LifecycleRecordView,
    id: Seq<char>,
    event_type: Seq<char>,
    actor_type: Seq<char>,
    actor_id: Option<Seq<char>>,
    target_type: Seq<char>,
    target_id: Option<Seq<char>>,
    metadata_json: Seq<char>,
    cursor: Option<(i64, Seq<char>)>,
    size: int,
)
    requires
        state.checkpoint_clock(c).1 == Err::<(), StoreError>(error),
    ensures
        refused(
            state.list_exchange_lifecycle(c, exchange_id, limit),
            state.checkpoint_clock(c).0,
            error,
        ),
        refused(state.append_lifecycle(c, record), state.checkpoint_clock(c).0, error),
        refused(
            state.append_audit(
                c,
                id,
                event_type,
                actor_type,
                actor_id,
                target_type,
                target_id,
                metadata_json,
            ),
            state.checkpoint_clock(c).0,
            error,
        ),
        refused(state.audit_page(c, cursor, size), state.checkpoint_clock(c).0, error),
{
}

/// Where the checkpoint refuses, no operation is read or changed: each call fails with
/// what the checkpoint reports, and changes nothing but what it changed.
pub proof fn a_refused_checkpoint_refuses_authorization(
    state: StoreView,
    c: ClockReadingView,
    error: StoreError,
    record: OperationRecordView,
    expected_unit: Seq<char>,
    expected_account: Seq<char>,
    effective_ttl_seconds: i64,
    approval: Option<OperationApprovalDraftView>,
    id: Seq<char>,
    expected_version: i64,
    expected_ids: Seq<Seq<char>>,
    decision: Seq<char>,
    decided_by: Seq<char>,
    decision_key_hash: Seq<char>,
    status: Option<Seq<char>>,
    cursor: Option<(i64, Seq<char>)>,
    limit: u32,
)
    requires
        state.checkpoint_clock(c).1 == Err::<(), StoreError>(error),
    ensures
        refused(
            state.create_operation(
                c,
                record,
                expected_unit,
                expected_account,
                effective_ttl_seconds,
                approval,
            ),
            state.checkpoint_clock(c).0,
            error,
        ),
        refused(
            state.decide_operation_approval(
                c,
                id,
                expected_version,
                expected_ids,
                decision,
                decided_by,
                decision_key_hash,
            ),
            state.checkpoint_clock(c).0,
            error,
        ),
        refused(state.operation_by_id(c, id), state.checkpoint_clock(c).0, error),
        refused(
            state.list_operations(c, status, cursor, limit),
            state.checkpoint_clock(c).0,
            error,
        ),
        refused(state.operation_approval_by_id(c, id), state.checkpoint_clock(c).0, error),
        refused(
            state.list_operation_approvals(c, status, cursor, limit),
            state.checkpoint_clock(c).0,
            error,
        ),
        refused(state.count_pending_operation_approvals(c), state.checkpoint_clock(c).0, error),
{
}

/// Where the checkpoint refuses, neither the database clock nor the signing
/// recovery epoch is told, and the store is not ready: each call reports what the
/// checkpoint reports, and changes nothing but what it changed.
pub proof fn a_refused_checkpoint_refuses_the_clock_and_the_epoch(
    state: StoreView,
    c: ClockReadingView,
    error: StoreError,
    probe: Option<i32>,
)
    requires
        state.checkpoint_clock(c).1 == Err::<(), StoreError>(error),
    ensures
        refused(state.database_now_ms(c), state.checkpoint_clock(c).0, error),
        refused(state.issuer_epoch(c), state.checkpoint_clock(c).0, error),
        state.is_ready(c, probe) == (state.checkpoint_clock(c).0, false),
{
}

/// Where the checkpoint refuses, no exchange is read or changed: each call fails with
/// what the checkpoint reports, and changes nothing but what it changed.
pub proof fn a_refused_checkpoint_refuses_exchanges(
    state: StoreView,
    c: ClockReadingView,
    error: StoreError,
    id: Seq<char>,
    follow_up: ClockReadingView,
    exchange: ExchangeRecordView,
    ttl_seconds: u64,
    fulfiller_id: Seq<char>,
    enc: Seq<char>,
    ciphertext: Seq<char>,
    requester_id: Seq<char>,
    any_requester_id: Option<Seq<char>>,
    revoked_ttl_seconds: u64,
)
    requires
        state.checkpoint_clock(c).1 == Err::<(), StoreError>(error),
    ensures
        refused(state.get_exchange(c, id), state.checkpoint_clock(c).0, error),
        refused(
            state.create_exchange(c, follow_up, exchange, ttl_seconds),
            state.checkpoint_clock(c).0,
            error,
        ),
        refused(
            state.reserve_exchange(c, follow_up, id, fulfiller_id),
            state.checkpoint_clock(c).0,
            error,
        ),
        refused(
            state.submit_exchange(c, follow_up, id, fulfiller_id, enc, ciphertext, ttl_seconds),
            state.checkpoint_clock(c).0,
            error,
        ),
        refused(state.consume_exchange(c, id, requester_id), state.checkpoint_clock(c).0, error),
        refused(
            state.revoke_exchange(c, follow_up, id, any_requester_id, revoked_ttl_seconds),
            state.checkpoint_clock(c).0,
            error,
        ),
{
}

/// Where the checkpoint refuses, no enrollment is read or changed: each call fails with
/// what the checkpoint reports, and changes nothing but what it changed.
pub proof fn a_refused_checkpoint_refuses_fleet(
    state: StoreView,
    c: ClockReadingView,
    error: StoreError,
    id: Seq<char>,
    node_id: Seq<char>,
    requested_name: Seq<char>,
    token_hash: Seq<char>,
    created_by: Seq<char>,
    ttl_seconds: u64,
    submission: Submission,
    limit: u32,
    cursor: Option<(i64, Seq<char>)>,
    expected_version: i64,
    expected_fingerprint: Seq<char>,
)
    requires
        state.checkpoint_clock(c).1 == Err::<(), StoreError>(error),
    ensures
        refused(
            state.create_enrollment(
                c,
                id,
                node_id,
                requested_name,
                token_hash,
                created_by,
                ttl_seconds,
            ),
            state.checkpoint_clock(c).0,
            error,
        ),
        refused(
            state.issued_enrollment_by_token_hash(c, id, token_hash),
            state.checkpoint_clock(c).0,
            error,
        ),
        refused(
            state.submit_enrollment(c, id, node_id, token_hash, requested_name, submission),
            state.checkpoint_clock(c).0,
            error,
        ),
        refused(state.enrollment_by_id(c, id), state.checkpoint_clock(c).0, error),
        refused(state.list_enrollments(c, limit, cursor), state.checkpoint_clock(c).0, error),
        refused(
            state.approve_enrollment(c, id, expected_version, expected_fingerprint),
            state.checkpoint_clock(c).0,
            error,
        ),
        refused(
            state.reject_enrollment(c, id, expected_version, expected_fingerprint),
            state.checkpoint_clock(c).0,
            error,
        ),
        refused(state.node_by_id(c, id), state.checkpoint_clock(c).0, error),
        refused(state.list_nodes(c, limit, cursor), state.checkpoint_clock(c).0, error),
{
}

/// Where the checkpoint refuses, no grant is read or changed: each call fails with
/// what the checkpoint reports, and changes nothing but what it changed.
pub proof fn a_refused_checkpoint_refuses_grants(
    state: StoreView,
    c: ClockReadingView,
    error: StoreError,
    id: Seq<char>,
    node_id: Option<Seq<char>>,
    status: Option<Seq<char>>,
    cursor: Option<(i64, Seq<char>)>,
    limit: u32,
    drafts: Seq<GrantIssueDraftView>,
    grant_id: Seq<char>,
    reason: Seq<char>,
    envelope_json: Seq<char>,
    parsed: Parsed<RevocationView>,
)
    requires
        state.checkpoint_clock(c).1 == Err::<(), StoreError>(error),
    ensures
        refused(state.grant_by_id(c, id), state.checkpoint_clock(c).0, error),
        refused(
            state.list_grants(c, node_id, status, cursor, limit),
            state.checkpoint_clock(c).0,
            error,
        ),
        refused(state.issue_operation_grants(c, drafts), state.checkpoint_clock(c).0, error),
        refused(
            state.revoke_grant(c, grant_id, reason, envelope_json, parsed),
            state.checkpoint_clock(c).0,
            error,
        ),
{
}

/// Where the checkpoint refuses, no node is read or changed: each call fails with
/// what the checkpoint reports, and changes nothing but what it changed.
pub proof fn a_refused_checkpoint_refuses_node_authority(
    state: StoreView,
    c: ClockReadingView,
    error: StoreError,
    node_id: Seq<char>,
    revocations: Seq<NodeGrantRevocationDraftView>,
    document_json: Seq<char>,
    document: Parsed<NodeRevocationView>,
    expected_key_version: i64,
    draft: NodeKeyRotationDraftView,
    rotation_id: Seq<char>,
    key_version: i64,
    fingerprint: Seq<char>,
    history_fingerprint: Option<Seq<char>>,
)
    requires
        state.checkpoint_clock(c).1 == Err::<(), StoreError>(error),
    ensures
        refused(
            state.revoke_node(c, node_id, revocations, document_json, document),
            state.checkpoint_clock(c).0,
            error,
        ),
        refused(
            state.stage_node_key_rotation(c, node_id, expected_key_version, draft),
            state.checkpoint_clock(c).0,
            error,
        ),
        refused(
            state.complete_node_key_rotation(
                c,
                node_id,
                rotation_id,
                key_version,
                fingerprint,
                history_fingerprint,
            ),
            state.checkpoint_clock(c).0,
            error,
        ),
{
}

/// Where the checkpoint refuses, no node channel is read or changed: each call fails with
/// what the checkpoint reports, and changes nothing but what it changed.
pub proof fn a_refused_checkpoint_refuses_node_channel(
    state: StoreView,
    c: ClockReadingView,
    error: StoreError,
    id: Seq<char>,
    node_id: Seq<char>,
    nonce_hash: Seq<char>,
    protocol_version: Seq<char>,
    capabilities_json: Seq<char>,
    capabilities_hash: Seq<char>,
    challenge: NodeChallengeView,
    session_id: Seq<char>,
    token_hash: Seq<char>,
    expires_at_ms: i64,
    key_version: i64,
    issuer_epoch: i64,
    poll: bool,
    ack_seq: Option<i64>,
    idempotency_key: Seq<char>,
    kind: Seq<char>,
    body_json: Seq<char>,
    body_hash: Seq<char>,
)
    requires
        state.checkpoint_clock(c).1 == Err::<(), StoreError>(error),
    ensures
        refused(
            state.issue_node_challenge(
                c,
                id,
                node_id,
                nonce_hash,
                protocol_version,
                capabilities_json,
                capabilities_hash,
            ),
            state.checkpoint_clock(c).0,
            error,
        ),
        refused(state.node_challenge(c, node_id, nonce_hash), state.checkpoint_clock(c).0, error),
        refused(
            state.consume_node_challenge(
                c,
                challenge,
                nonce_hash,
                session_id,
                token_hash,
                expires_at_ms,
            ),
            state.checkpoint_clock(c).0,
            error,
        ),
        refused(
            state.authenticate_node_session(
                c,
                session_id,
                node_id,
                token_hash,
                key_version,
                issuer_epoch,
                protocol_version,
                poll,
            ),
            state.checkpoint_clock(c).0,
            error,
        ),
        refused(state.poll_node_inbox(c, node_id, ack_seq), state.checkpoint_clock(c).0, error),
        refused(
            state.record_node_event(c, id, node_id, idempotency_key, kind, body_json, body_hash),
            state.checkpoint_clock(c).0,
            error,
        ),
{
}

/// Where the checkpoint refuses, no operator is read or changed: each call fails with
/// what the checkpoint reports, and changes nothing but what it changed.
pub proof fn a_refused_checkpoint_refuses_operators(
    state: StoreView,
    c: ClockReadingView,
    error: StoreError,
    id: Seq<char>,
    username: Seq<char>,
    display_name: Seq<char>,
    password_hash: Seq<char>,
    token_hash: Seq<char>,
    ttl_seconds: u64,
    wanted: spec_fn(OperatorRowView) -> bool,
    role: Seq<char>,
    operator_id: Seq<char>,
    current_session_id: Seq<char>,
    new_password_hash: Seq<char>,
)
    requires
        state.checkpoint_clock(c).1 == Err::<(), StoreError>(error),
    ensures
        refused(state.has_active_admin(c), state.checkpoint_clock(c).0, error),
        refused(
            state.bootstrap_local_operator(c, id, username, display_name, password_hash),
            state.checkpoint_clock(c).0,
            error,
        ),
        refused(
            state.issue_bootstrap_token(c, token_hash, ttl_seconds),
            state.checkpoint_clock(c).0,
            error,
        ),
        refused(
            state.bootstrap_operator_with_token(
                c,
                token_hash,
                id,
                username,
                display_name,
                password_hash,
            ),
            state.checkpoint_clock(c).0,
            error,
        ),
        refused(state.read_operator(c, wanted), state.checkpoint_clock(c).0, error),
        refused(state.list_local_operators(c), state.checkpoint_clock(c).0, error),
        refused(
            state.create_local_operator(c, id, username, display_name, role, password_hash),
            state.checkpoint_clock(c).0,
            error,
        ),
        refused(
            state.update_local_operator(c, id, display_name, role),
            state.checkpoint_clock(c).0,
            error,
        ),
        refused(state.delete_local_operator(c, id), state.checkpoint_clock(c).0, error),
        refused(
            state.change_operator_password(c, operator_id, current_session_id, new_password_hash),
            state.checkpoint_clock(c).0,
            error,
        ),
        refused(
            state.reset_local_operator_password(c, id, password_hash),
            state.checkpoint_clock(c).0,
            error,
        ),
{
}

/// Where the checkpoint refuses, no policy is read or changed: each call fails with
/// what the checkpoint reports, and changes nothing but what it changed.
pub proof fn a_refused_checkpoint_refuses_policy(
    state: StoreView,
    c: ClockReadingView,
    error: StoreError,
    expected_version: i64,
    document_json: Seq<char>,
    updated_by: Seq<char>,
    documents: Seq<(Seq<char>, Seq<char>)>,
)
    requires
        state.checkpoint_clock(c).1 == Err::<(), StoreError>(error),
    ensures
        refused(state.policy_document(c), state.checkpoint_clock(c).0, error),
        refused(
            state.replace_policy_document(c, expected_version, document_json, updated_by),
            state.checkpoint_clock(c).0,
            error,
        ),
        refused(state.fleet_policy(c), state.checkpoint_clock(c).0, error),
        refused(
            state.replace_fleet_policy(c, expected_version, document_json, updated_by, documents),
            state.checkpoint_clock(c).0,
            error,
        ),
        refused(state.active_node_ids(c), state.checkpoint_clock(c).0, error),
{
}

/// Where the checkpoint refuses, no sweep runs and no rate window is used: each call
/// fails with what the checkpoint reports, and changes nothing but what it changed.
pub proof fn a_refused_checkpoint_refuses_retention(
    state: StoreView,
    c: ClockReadingView,
    error: StoreError,
    grace_seconds: u64,
    retention_days: u32,
    key: Seq<char>,
    limit: u32,
    window_milliseconds: u64,
)
    requires
        state.checkpoint_clock(c).1 == Err::<(), StoreError>(error),
    ensures
        refused(state.sweep_expired(c, grace_seconds), state.checkpoint_clock(c).0, error),
        refused(state.sweep_audit(c, retention_days), state.checkpoint_clock(c).0, error),
        refused(
            state.consume_rate_limit(c, key, limit, window_milliseconds),
            state.checkpoint_clock(c).0,
            error,
        ),
{
}

/// Where the checkpoint refuses, no secret request is read or changed: each call fails with
/// what the checkpoint reports, and changes nothing but what it changed.
pub proof fn a_refused_checkpoint_refuses_secrets(
    state: StoreView,
    c: ClockReadingView,
    error: StoreError,
    id: Seq<char>,
    requester_agent_id: Seq<char>,
    public_key: Seq<char>,
    description: Seq<char>,
    confirmation_code: Seq<char>,
    ttl_seconds: u64,
    enc: Seq<char>,
    ciphertext: Seq<char>,
    submitted_ttl_seconds: u64,
)
    requires
        state.checkpoint_clock(c).1 == Err::<(), StoreError>(error),
    ensures
        refused(
            state.open_secret_request(
                c,
                id,
                requester_agent_id,
                public_key,
                description,
                confirmation_code,
                ttl_seconds,
            ),
            state.checkpoint_clock(c).0,
            error,
        ),
        refused(state.secret_request_metadata(c, id), state.checkpoint_clock(c).0, error),
        refused(state.browser_request_status(c, id), state.checkpoint_clock(c).0, error),
        refused(
            state.delete_secret_request(c, id, requester_agent_id),
            state.checkpoint_clock(c).0,
            error,
        ),
        refused(
            state.submit_secret_request(
                c,
                id,
                requester_agent_id,
                enc,
                ciphertext,
                submitted_ttl_seconds,
            ),
            state.checkpoint_clock(c).0,
            error,
        ),
        refused(
            state.request_status(c, id, requester_agent_id),
            state.checkpoint_clock(c).0,
            error,
        ),
        refused(
            state.consume_secret_request(c, id, requester_agent_id),
            state.checkpoint_clock(c).0,
            error,
        ),
{
}

/// Where the checkpoint refuses, no session is read or changed: each call fails with
/// what the checkpoint reports, and changes nothing but what it changed.
pub proof fn a_refused_checkpoint_refuses_sessions(
    state: StoreView,
    c: ClockReadingView,
    error: StoreError,
    session_id: Seq<char>,
    refresh_hash: Seq<char>,
    follow_up: ClockReadingView,
    csrf_secret: Seq<char>,
    operator_id: Seq<char>,
    ttl_seconds: u64,
    old_refresh_hash: Seq<char>,
    new_refresh_hash: Seq<char>,
)
    requires
        state.checkpoint_clock(c).1 == Err::<(), StoreError>(error),
    ensures
        refused(state.browser_session_by_id(c, session_id), state.checkpoint_clock(c).0, error),
        refused(
            state.browser_session_by_refresh_hash(c, refresh_hash),
            state.checkpoint_clock(c).0,
            error,
        ),
        refused(
            state.browser_session_for_refresh_hash(c, refresh_hash),
            state.checkpoint_clock(c).0,
            error,
        ),
        refused(
            state.open_browser_session(
                c,
                follow_up,
                session_id,
                csrf_secret,
                operator_id,
                refresh_hash,
                ttl_seconds,
            ),
            state.checkpoint_clock(c).0,
            error,
        ),
        refused(
            state.rotate_browser_session_to(
                c,
                follow_up,
                session_id,
                old_refresh_hash,
                new_refresh_hash,
                ttl_seconds,
            ),
            state.checkpoint_clock(c).0,
            error,
        ),
        refused(state.touch_browser_session(c, session_id), state.checkpoint_clock(c).0, error),
        refused(state.revoke_browser_session(c, session_id), state.checkpoint_clock(c).0, error),
{
}

/// Where the checkpoint refuses, no workload is read or changed: each call fails with
/// what the checkpoint reports, and changes nothing but what it changed.
pub proof fn a_refused_checkpoint_refuses_workloads(
    state: StoreView,
    c: ClockReadingView,
    error: StoreError,
    node_id: Option<Seq<char>>,
    limit: u32,
    cursor: Option<(i64, Seq<char>)>,
    id: Seq<char>,
    record: WorkloadRecordView,
    created_by: Seq<char>,
    registration_json: Seq<char>,
    policy_json: Seq<char>,
    expected_version: i64,
    unit: Seq<char>,
    account: Seq<char>,
    consumption_mode: Seq<char>,
    local_ceiling_seconds: i64,
    one_node_id: Seq<char>,
)
    requires
        state.checkpoint_clock(c).1 == Err::<(), StoreError>(error),
    ensures
        refused(
            state.list_workloads(c, node_id, limit, cursor),
            state.checkpoint_clock(c).0,
            error,
        ),
        refused(state.workload_by_id(c, id), state.checkpoint_clock(c).0, error),
        refused(
            state.create_workload(c, record, created_by, registration_json, policy_json),
            state.checkpoint_clock(c).0,
            error,
        ),
        refused(
            state.update_workload(
                c,
                id,
                expected_version,
                unit,
                account,
                consumption_mode,
                local_ceiling_seconds,
                one_node_id,
                registration_json,
                policy_json,
            ),
            state.checkpoint_clock(c).0,
            error,
        ),
        refused(
            state.revoke_workload(
                c,
                id,
                one_node_id,
                expected_version,
                registration_json,
                policy_json,
            ),
            state.checkpoint_clock(c).0,
            error,
        ),
{
}

/// A checkpoint that passes leaves every table, the tenant and the meta row as
/// they are. Afterwards the fence is not set, and the recorded boot is that of
/// the host.
pub proof fn a_passed_checkpoint_changes_only_the_clock(state: StoreView, c: ClockReadingView)
    requires
        state.checkpoint_clock(c).1 is Ok,
    ensures
        ({
            let after = state.checkpoint_clock(c).0;
            &&& after == (StoreView {
                clock: after.clock,
                clock_monitor: after.clock_monitor,
                ..state
            })
            &&& state.clock.fenced_at is None
            &&& after.clock.fenced_at is None
            &&& c.sample is Some
            &&& after.clock.boot_id == c.sample->0.boot_id
            &&& after.clock_monitor is Some
        }),
{
}

/// The high-water mark moves forward only in steps of at least a second, and
/// back by no more than the tolerance.
pub proof fn the_high_water_mark_moves_in_bounds(state: StoreView, c: ClockReadingView)
    requires
        state.checkpoint_clock(c).1 is Ok,
        state.clock_tolerance_ms >= 0,
    ensures
        ({
            let before = state.clock.last_observed_ms;
            let after = state.checkpoint_clock(c).0.clock.last_observed_ms;
            &&& after == before || after == c.checkpoint_ms
            &&& after > before ==> after - before >= CLOCK_ADVANCE_INTERVAL_MS
            &&& after < before ==> before - after <= state.clock_tolerance_ms
        }),
{
}

/// No operation reads a time before the high-water mark: it reads the wall clock
/// or nothing.
pub proof fn no_time_before_the_high_water_mark(state: StoreView, wall_ms: i64)
    ensures
        match state.now(wall_ms) {
            Some(now_ms) => now_ms == wall_ms && now_ms >= state.clock.last_observed_ms,
            None => wall_ms < state.clock.last_observed_ms,
        },
{
}

/// Where the host cannot be read, was restarted, or a clock ran back, the
/// checkpoint sets the fence or fails; it never passes.
pub proof fn an_untrusted_clock_is_fenced(state: StoreView, c: ClockReadingView)
    requires
        c.sample is None || state.boot_changed(c.sample->0) || c.check.database_regressed
            || c.check.host_regressed || state.behind(c.checkpoint_ms),
    ensures
        state.checkpoint_clock(c).1 is Err,
        c.sample is None ==> state.checkpoint_clock(c).0.clock.fenced_at is Some,
        c.sample is Some && !state.boot_changed(c.sample->0) && state.clock_monitor is Some
            ==> state.checkpoint_clock(c).0.clock.fenced_at is Some,
        state.monitor_clock(c).1 is Ok ==> c.sample is Some && !state.boot_changed(c.sample->0)
            && !c.check.database_regressed && !c.check.host_regressed,
{
}

/// After a restart nothing is left whose deadline was kept by the old clock: no
/// secret request, no exchange, no pending approval, no bootstrap token, no rate
/// window and no idempotency key. One audit event tells so.
pub proof fn a_restart_leaves_no_deadlines(
    state: StoreView,
    sample: ClockSampleView,
    database_ms: i64,
    audit_id: Seq<char>,
)
    requires
        state.clock.fenced_at is None,
        state.fence_after_restart(sample, database_ms, audit_id) is Ok,
    ensures
        ({
            let after = state.fence_after_restart(sample, database_ms, audit_id)->Ok_0;
            &&& after.clock.fenced_at == Some(database_ms)
            &&& after.secret_requests.len() == 0
            &&& after.exchanges.len() == 0
            &&& forall|i: int|
                0 <= i < after.approvals.len() ==> (#[trigger] after.approvals[i]).status
                    != "pending"@
            &&& after.bootstrap_tokens.len() == 0
            &&& after.rate_windows.len() == 0
            &&& after.idempotency_keys.len() == 0
            &&& after.audit_events.len() == state.audit_events.len() + 1
            &&& after.audit_events.last().id == audit_id
            &&& after.audit_events.last().action == "clock_restart_fence"@
        }),
{
    let stale = crate::clock::pending_approval();
    lemma_filter_members(state.approvals, |row: ApprovalRowView| !stale(row));
    let after = state.fence_after_restart(sample, database_ms, audit_id)->Ok_0;
    assert forall|i: int| 0 <= i < after.approvals.len() implies (
    #[trigger] after.approvals[i]).status != "pending"@ by {
        assert(after.approvals.contains(after.approvals[i]));
    }
}

/// A reconciliation that finds nothing changes nothing.
pub proof fn a_needless_reconciliation_changes_nothing(
    state: StoreView,
    url: Seq<char>,
    schema: SchemaSnapshotView,
    sample: ClockSampleView,
    database_ms: i64,
    audit_id: Seq<char>,
)
    requires
        kind_of(url) is Ok,
        schema.supported(),
        schema.has_table("controller_clock"@),
        sample.boot_id is Some,
        state.clock.fenced_at is None,
        database_ms >= state.clock.last_observed_ms,
    ensures
        state.reconcile_clock(
            url,
            schema,
            Some(sample),
            database_ms,
            audit_id,
        ).0 == state,
        state.reconcile_clock(
            url,
            schema,
            Some(sample),
            database_ms,
            audit_id,
        ).1 is Ok,
        !state.reconcile_clock(
            url,
            schema,
            Some(sample),
            database_ms,
            audit_id,
        ).1->Ok_0.regression_detected,
{
}

/// A reconciliation that finds a regression lifts the fence, and leaves nothing
/// whose deadline cannot be trusted: no secret request, exchange, pending or
/// approved approval, bootstrap token, rate window or idempotency key, and no
/// open operator session. The next operation on the same boot passes.
pub proof fn a_reconciliation_lifts_the_fence(
    state: StoreView,
    url: Seq<char>,
    schema: SchemaSnapshotView,
    sample: ClockSampleView,
    database_ms: i64,
    audit_id: Seq<char>,
    c: ClockReadingView,
)
    requires
        state.reconcile_clock(
            url,
            schema,
            Some(sample),
            database_ms,
            audit_id,
        ).1 is Ok,
        state.reconcile_clock(
            url,
            schema,
            Some(sample),
            database_ms,
            audit_id,
        ).1->Ok_0.regression_detected,
        state.clock_monitor is Some,
        state.clock_tolerance_ms >= 0,
        c.sample is Some,
        c.sample->0.boot_id == sample.boot_id,
        !c.check.database_regressed,
        !c.check.host_regressed,
        c.checkpoint_ms >= database_ms,
    ensures
        ({
            let after = state.reconcile_clock(
                url,
                schema,
                Some(sample),
                database_ms,
                audit_id,
            ).0;
            &&& after.clock.fenced_at is None
            &&& after.clock.last_observed_ms == database_ms
            &&& after.secret_requests.len() == 0
            &&& after.exchanges.len() == 0
            &&& !any(after.approvals, unsettled_approval())
            &&& after.bootstrap_tokens.len() == 0
            &&& after.rate_windows.len() == 0
            &&& after.idempotency_keys.len() == 0
            &&& !any(after.operator_sessions, open_session())
            &&& after.checkpoint_clock(c).1 is Ok
        }),
{
    let after = state.reconcile_clock(
        url,
        schema,
        Some(sample),
        database_ms,
        audit_id,
    ).0;
    let stale = unsettled_approval();
    lemma_filter_members(state.approvals, |row: ApprovalRowView| !stale(row));
    assert forall|i: int| 0 <= i < after.approvals.len() implies !stale(
        #[trigger] after.approvals[i],
    ) by {
        assert(after.approvals.contains(after.approvals[i]));
    }
    let open = open_session();
    assert forall|i: int| 0 <= i < after.operator_sessions.len() implies !open(
        #[trigger] after.operator_sessions[i],
    ) by {
        let row: SessionRowView = state.operator_sessions[i];
        if open(row) {
            assert(after.operator_sessions[i].revoked_at_ms == Some(database_ms));
        }
    }
}

/// A reconciliation that finds a regression keeps the rest: operators, agents,
/// policies, the lifecycle and every table of the fleet as they are, each approval
/// neither pending nor approved, each session but for its revocation, and all audit
/// events, behind which one event holds the counts.
pub proof fn a_reconciliation_keeps_the_rest(
    state: StoreView,
    url: Seq<char>,
    schema: SchemaSnapshotView,
    sample: ClockSampleView,
    database_ms: i64,
    audit_id: Seq<char>,
)
    requires
        state.reconcile_clock(
            url,
            schema,
            Some(sample),
            database_ms,
            audit_id,
        ).1 is Ok,
        state.reconcile_clock(
            url,
            schema,
            Some(sample),
            database_ms,
            audit_id,
        ).1->Ok_0.regression_detected,
    ensures
        ({
            let after = state.reconcile_clock(
                url,
                schema,
                Some(sample),
                database_ms,
                audit_id,
            ).0;
            &&& after == (StoreView {
                clock: after.clock,
                secret_requests: after.secret_requests,
                exchanges: after.exchanges,
                approvals: after.approvals,
                bootstrap_tokens: after.bootstrap_tokens,
                rate_windows: after.rate_windows,
                idempotency_keys: after.idempotency_keys,
                operator_sessions: after.operator_sessions,
                audit_events: state.audit_events.push(
                    system_event(
                        audit_id,
                        state.meta.tenant_id,
                        "clock_reconciled"@,
                        summary_json(state.reconciliation(database_ms)),
                        database_ms,
                    ),
                ),
                ..state
            })
            &&& forall|row: ApprovalRowView|
                state.approvals.contains(row) && !unsettled_approval()(row)
                    ==> #[trigger] after.approvals.contains(row)
            &&& after.operator_sessions.len() == state.operator_sessions.len()
            &&& forall|i: int|
                0 <= i < state.operator_sessions.len() ==> #[trigger] after.operator_sessions[i]
                    == (SessionRowView {
                    revoked_at_ms: after.operator_sessions[i].revoked_at_ms,
                    ..state.operator_sessions[i]
                })
        }),
{
    let stale = unsettled_approval();
    lemma_filter_members(state.approvals, |row: ApprovalRowView| !stale(row));
}

} // verus!
