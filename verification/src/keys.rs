//! The keys under which the tables hold their rows.

use crate::relation_laws::unique;
use crate::store::StoreView;
use crate::tables::{
    AgentRowView, ApprovalRowView, AuditRowView, BootstrapTokenRowView, ChallengeRowView,
    EnrollmentRowView, ExchangeRowView, FleetPolicyRowView, GrantRowView, IdempotencyRowView,
    InboxRowView, LifecycleRowView, NodeEventRowView, NodeKeyRotationRowView, NodeKeyRowView,
    NodeRevocationRowView, NodeRowView, NodeSessionRowView, OperationApprovalRowView,
    OperationRowView, OperatorRowView, PolicyRowView, RateWindowRowView, SecretRequestRowView,
    SessionRowView, TombstoneRowView, WorkloadRowView,
};
use vstd::prelude::*;

verus! {

/// The identifier of an operator.
pub open spec fn operator_id() -> spec_fn(OperatorRowView) -> Seq<char> {
    |row: OperatorRowView| row.operator.id
}

/// The hash of a bootstrap token.
pub open spec fn token_hash() -> spec_fn(BootstrapTokenRowView) -> Seq<char> {
    |row: BootstrapTokenRowView| row.token_hash
}

/// The identifier of an operator's session.
pub open spec fn session_id() -> spec_fn(SessionRowView) -> Seq<char> {
    |row: SessionRowView| row.id
}

/// The identifier of an agent's credential.
pub open spec fn agent_key_id() -> spec_fn(AgentRowView) -> Seq<char> {
    |row: AgentRowView| row.credential.id
}

/// The identifier of a secret request.
pub open spec fn request_id() -> spec_fn(SecretRequestRowView) -> Seq<char> {
    |row: SecretRequestRowView| row.id
}

/// The identifier of an exchange.
pub open spec fn exchange_id() -> spec_fn(ExchangeRowView) -> Seq<char> {
    |row: ExchangeRowView| row.record.exchange_id
}

/// The reference of an approval.
pub open spec fn approval_reference() -> spec_fn(ApprovalRowView) -> Seq<char> {
    |row: ApprovalRowView| row.reference
}

/// The identifier of a lifecycle record.
pub open spec fn lifecycle_id() -> spec_fn(LifecycleRowView) -> Seq<char> {
    |row: LifecycleRowView| row.id
}

/// The tenant of a policy.
pub open spec fn policy_tenant() -> spec_fn(PolicyRowView) -> Seq<char> {
    |row: PolicyRowView| row.tenant_id
}

/// The identifier of an audit event.
pub open spec fn event_id() -> spec_fn(AuditRowView) -> Seq<char> {
    |row: AuditRowView| row.id
}

/// The key of a rate window.
pub open spec fn window_key() -> spec_fn(RateWindowRowView) -> Seq<char> {
    |row: RateWindowRowView| row.key
}

/// The tenant, actor, operation and hash of an idempotency key.
pub open spec fn idempotency_place() -> spec_fn(
    IdempotencyRowView,
) -> (Seq<char>, Seq<char>, Seq<char>, Seq<char>) {
    |row: IdempotencyRowView| (row.tenant_id, row.actor_id, row.operation, row.key_hash)
}

/// The identifier of an enrollment.
pub open spec fn enrollment_id() -> spec_fn(EnrollmentRowView) -> Seq<char> {
    |row: EnrollmentRowView| row.record.id
}

/// The identifier of a node.
pub open spec fn node_id() -> spec_fn(NodeRowView) -> Seq<char> {
    |row: NodeRowView| row.id
}

/// The node and version of a key.
pub open spec fn node_key_place() -> spec_fn(NodeKeyRowView) -> (Seq<char>, i64) {
    |row: NodeKeyRowView| (row.node_id, row.key_version)
}

/// The node of a staged rotation.
pub open spec fn rotation_node() -> spec_fn(NodeKeyRotationRowView) -> Seq<char> {
    |row: NodeKeyRotationRowView| row.node_id
}

/// The node of a queued revocation.
pub open spec fn revocation_node() -> spec_fn(NodeRevocationRowView) -> Seq<char> {
    |row: NodeRevocationRowView| row.node_id
}

/// The identifier of a node's session.
pub open spec fn node_session_id() -> spec_fn(NodeSessionRowView) -> Seq<char> {
    |row: NodeSessionRowView| row.id
}

/// The identifier of a workload.
pub open spec fn workload_id() -> spec_fn(WorkloadRowView) -> Seq<char> {
    |row: WorkloadRowView| row.record.id
}

/// The tenant of a fleet policy.
pub open spec fn fleet_policy_tenant() -> spec_fn(FleetPolicyRowView) -> Seq<char> {
    |row: FleetPolicyRowView| row.tenant_id
}

/// The identifier of an operation.
pub open spec fn operation_id() -> spec_fn(OperationRowView) -> Seq<char> {
    |row: OperationRowView| row.record.id
}

/// The identifier of an operation's approval.
pub open spec fn operation_approval_id() -> spec_fn(OperationApprovalRowView) -> Seq<char> {
    |row: OperationApprovalRowView| row.record.id
}

/// The identifier of a grant.
pub open spec fn grant_id() -> spec_fn(GrantRowView) -> Seq<char> {
    |row: GrantRowView| row.record.id
}

/// The grant of a tombstone.
pub open spec fn tombstone_grant() -> spec_fn(TombstoneRowView) -> Seq<char> {
    |row: TombstoneRowView| row.grant_id
}

/// The node and sequence number of a document.
pub open spec fn inbox_place() -> spec_fn(InboxRowView) -> (Seq<char>, i64) {
    |row: InboxRowView| (row.node_id, row.seq)
}

/// The identifier of a node's event.
pub open spec fn node_event_id() -> spec_fn(NodeEventRowView) -> Seq<char> {
    |row: NodeEventRowView| row.id
}

/// The identifier of a challenge.
pub open spec fn challenge_row_id() -> spec_fn(ChallengeRowView) -> Seq<char> {
    |row: ChallengeRowView| row.challenge.id
}

/// Whether every table holds each key at most once.
pub open spec fn well_keyed(state: StoreView) -> bool {
    &&& unique(state.operators, operator_id())
    &&& unique(state.bootstrap_tokens, token_hash())
    &&& unique(state.operator_sessions, session_id())
    &&& unique(state.agents, agent_key_id())
    &&& unique(state.secret_requests, request_id())
    &&& unique(state.exchanges, exchange_id())
    &&& unique(state.approvals, approval_reference())
    &&& unique(state.exchange_lifecycle, lifecycle_id())
    &&& unique(state.policies, policy_tenant())
    &&& unique(state.audit_events, event_id())
    &&& unique(state.rate_windows, window_key())
    &&& unique(state.idempotency_keys, idempotency_place())
    &&& unique(state.enrollment_requests, enrollment_id())
    &&& unique(state.nodes, node_id())
    &&& unique(state.node_key_history, node_key_place())
    &&& unique(state.node_key_rotations, rotation_node())
    &&& unique(state.node_revocation_queue, revocation_node())
    &&& unique(state.node_sessions, node_session_id())
    &&& unique(state.workloads, workload_id())
    &&& unique(state.fleet_policies, fleet_policy_tenant())
    &&& unique(state.operations, operation_id())
    &&& unique(state.operation_approvals, operation_approval_id())
    &&& unique(state.grants, grant_id())
    &&& unique(state.grant_tombstones, tombstone_grant())
    &&& unique(state.node_inbox, inbox_place())
    &&& unique(state.node_events, node_event_id())
    &&& unique(state.node_challenges, challenge_row_id())
}

} // verus!
