//! The records that the store hands out.

use crate::relation::Duplicate;
use crate::text::{copy_optional, copy_texts, optional_text, texts};
use vstd::prelude::*;

verus! {

/// Where a secret request stands.
#[derive(Debug, Clone, Copy, PartialEq, Eq, Structural)]
pub enum SecretRequestStatus {
    Pending,
    Submitted,
}

/// What a clock reconciliation found and did.
#[derive(Debug, Clone, Copy, PartialEq, Eq, Structural)]
pub struct ClockReconciliation {
    pub regression_detected: bool,
    pub persisted_ms: i64,
    pub database_now_ms: i64,
    pub removed_secret_requests: u64,
    pub removed_exchanges: u64,
    pub removed_approvals: u64,
    pub removed_bootstrap_tokens: u64,
    pub removed_rate_windows: u64,
    pub removed_idempotency_keys: u64,
    pub revoked_sessions: u64,
}

/// How often a rate window was used, and when it ends.
#[derive(Debug, Clone, Copy, PartialEq, Eq, Structural)]
pub struct RateLimitResult {
    pub count: i64,
    pub retry_after_seconds: u64,
}

/// What became of a reported node event.
#[derive(Debug, Clone, Copy, PartialEq, Eq, Structural)]
pub enum NodeEventInsert {
    Inserted,
    Duplicate,
    Conflict,
}

/// An encrypted secret: the encapsulated key and the ciphertext.
#[derive(Debug, PartialEq, Eq)]
pub struct EncryptedPayload {
    pub enc: String,
    pub ciphertext: String,
}

/// What an `EncryptedPayload` stands for.
#[verifier::ext_equal]
pub struct EncryptedPayloadView {
    pub enc: Seq<char>,
    pub ciphertext: Seq<char>,
}

impl View for EncryptedPayload {
    type V = EncryptedPayloadView;

    open spec fn view(&self) -> EncryptedPayloadView {
        EncryptedPayloadView {
            enc: self.enc@,
            ciphertext: self.ciphertext@,
        }
    }
}

impl Duplicate for EncryptedPayload {
    fn duplicate(&self) -> (copy: EncryptedPayload) {
        EncryptedPayload {
            enc: self.enc.clone(),
            ciphertext: self.ciphertext.clone(),
        }
    }
}

impl Clone for EncryptedPayload {
    fn clone(&self) -> (copy: EncryptedPayload)
        ensures
            copy@ == self@,
    {
        self.duplicate()
    }
}

/// A secret request that was just created.
#[derive(Debug, PartialEq, Eq)]
pub struct CreatedSecretRequest {
    pub id: String,
    pub expires_at_ms: i64,
}

/// What a `CreatedSecretRequest` stands for.
#[verifier::ext_equal]
pub struct CreatedSecretRequestView {
    pub id: Seq<char>,
    pub expires_at_ms: i64,
}

impl View for CreatedSecretRequest {
    type V = CreatedSecretRequestView;

    open spec fn view(&self) -> CreatedSecretRequestView {
        CreatedSecretRequestView {
            id: self.id@,
            expires_at_ms: self.expires_at_ms,
        }
    }
}

impl Duplicate for CreatedSecretRequest {
    fn duplicate(&self) -> (copy: CreatedSecretRequest) {
        CreatedSecretRequest {
            id: self.id.clone(),
            expires_at_ms: self.expires_at_ms,
        }
    }
}

impl Clone for CreatedSecretRequest {
    fn clone(&self) -> (copy: CreatedSecretRequest)
        ensures
            copy@ == self@,
    {
        self.duplicate()
    }
}

/// What a browser may read of a live secret request.
#[derive(Debug, PartialEq, Eq)]
pub struct SecretRequestMetadata {
    pub requester_agent_id: String,
    pub public_key: String,
    pub description: String,
    pub confirmation_code: String,
    pub expires_at_ms: i64,
}

/// What a `SecretRequestMetadata` stands for.
#[verifier::ext_equal]
pub struct SecretRequestMetadataView {
    pub requester_agent_id: Seq<char>,
    pub public_key: Seq<char>,
    pub description: Seq<char>,
    pub confirmation_code: Seq<char>,
    pub expires_at_ms: i64,
}

impl View for SecretRequestMetadata {
    type V = SecretRequestMetadataView;

    open spec fn view(&self) -> SecretRequestMetadataView {
        SecretRequestMetadataView {
            requester_agent_id: self.requester_agent_id@,
            public_key: self.public_key@,
            description: self.description@,
            confirmation_code: self.confirmation_code@,
            expires_at_ms: self.expires_at_ms,
        }
    }
}

impl Duplicate for SecretRequestMetadata {
    fn duplicate(&self) -> (copy: SecretRequestMetadata) {
        SecretRequestMetadata {
            requester_agent_id: self.requester_agent_id.clone(),
            public_key: self.public_key.clone(),
            description: self.description.clone(),
            confirmation_code: self.confirmation_code.clone(),
            expires_at_ms: self.expires_at_ms,
        }
    }
}

impl Clone for SecretRequestMetadata {
    fn clone(&self) -> (copy: SecretRequestMetadata)
        ensures
            copy@ == self@,
    {
        self.duplicate()
    }
}

/// An agent with the hash of its API key.
#[derive(Debug, PartialEq, Eq)]
pub struct AgentCredential {
    pub id: String,
    pub agent_id: String,
    pub name: String,
    pub api_key_hash: String,
    pub status: String,
    pub key_version: i64,
    pub created_at_ms: i64,
    pub revoked_at_ms: Option<i64>,
}

/// What an `AgentCredential` stands for.
#[verifier::ext_equal]
pub struct AgentCredentialView {
    pub id: Seq<char>,
    pub agent_id: Seq<char>,
    pub name: Seq<char>,
    pub api_key_hash: Seq<char>,
    pub status: Seq<char>,
    pub key_version: i64,
    pub created_at_ms: i64,
    pub revoked_at_ms: Option<i64>,
}

impl View for AgentCredential {
    type V = AgentCredentialView;

    open spec fn view(&self) -> AgentCredentialView {
        AgentCredentialView {
            id: self.id@,
            agent_id: self.agent_id@,
            name: self.name@,
            api_key_hash: self.api_key_hash@,
            status: self.status@,
            key_version: self.key_version,
            created_at_ms: self.created_at_ms,
            revoked_at_ms: self.revoked_at_ms,
        }
    }
}

impl Duplicate for AgentCredential {
    fn duplicate(&self) -> (copy: AgentCredential) {
        AgentCredential {
            id: self.id.clone(),
            agent_id: self.agent_id.clone(),
            name: self.name.clone(),
            api_key_hash: self.api_key_hash.clone(),
            status: self.status.clone(),
            key_version: self.key_version,
            created_at_ms: self.created_at_ms,
            revoked_at_ms: self.revoked_at_ms,
        }
    }
}

impl Clone for AgentCredential {
    fn clone(&self) -> (copy: AgentCredential)
        ensures
            copy@ == self@,
    {
        self.duplicate()
    }
}

/// An agent as operators see it.
#[derive(Debug, PartialEq, Eq)]
pub struct AdminAgentRecord {
    pub id: String,
    pub agent_id: String,
    pub name: String,
    pub status: String,
    pub created_at_ms: i64,
    pub revoked_at_ms: Option<i64>,
}

/// What an `AdminAgentRecord` stands for.
#[verifier::ext_equal]
pub struct AdminAgentRecordView {
    pub id: Seq<char>,
    pub agent_id: Seq<char>,
    pub name: Seq<char>,
    pub status: Seq<char>,
    pub created_at_ms: i64,
    pub revoked_at_ms: Option<i64>,
}

impl View for AdminAgentRecord {
    type V = AdminAgentRecordView;

    open spec fn view(&self) -> AdminAgentRecordView {
        AdminAgentRecordView {
            id: self.id@,
            agent_id: self.agent_id@,
            name: self.name@,
            status: self.status@,
            created_at_ms: self.created_at_ms,
            revoked_at_ms: self.revoked_at_ms,
        }
    }
}

impl Duplicate for AdminAgentRecord {
    fn duplicate(&self) -> (copy: AdminAgentRecord) {
        AdminAgentRecord {
            id: self.id.clone(),
            agent_id: self.agent_id.clone(),
            name: self.name.clone(),
            status: self.status.clone(),
            created_at_ms: self.created_at_ms,
            revoked_at_ms: self.revoked_at_ms,
        }
    }
}

impl Clone for AdminAgentRecord {
    fn clone(&self) -> (copy: AdminAgentRecord)
        ensures
            copy@ == self@,
    {
        self.duplicate()
    }
}

/// The stored policy document.
#[derive(Debug, PartialEq, Eq)]
pub struct PolicyDocumentRecord {
    pub version: i64,
    pub document_json: String,
    pub updated_at_ms: i64,
    pub updated_by: Option<String>,
}

/// What a `PolicyDocumentRecord` stands for.
#[verifier::ext_equal]
pub struct PolicyDocumentRecordView {
    pub version: i64,
    pub document_json: Seq<char>,
    pub updated_at_ms: i64,
    pub updated_by: Option<Seq<char>>,
}

impl View for PolicyDocumentRecord {
    type V = PolicyDocumentRecordView;

    open spec fn view(&self) -> PolicyDocumentRecordView {
        PolicyDocumentRecordView {
            version: self.version,
            document_json: self.document_json@,
            updated_at_ms: self.updated_at_ms,
            updated_by: optional_text(self.updated_by),
        }
    }
}

impl Duplicate for PolicyDocumentRecord {
    fn duplicate(&self) -> (copy: PolicyDocumentRecord) {
        PolicyDocumentRecord {
            version: self.version,
            document_json: self.document_json.clone(),
            updated_at_ms: self.updated_at_ms,
            updated_by: copy_optional(&self.updated_by),
        }
    }
}

impl Clone for PolicyDocumentRecord {
    fn clone(&self) -> (copy: PolicyDocumentRecord)
        ensures
            copy@ == self@,
    {
        self.duplicate()
    }
}

/// A workload registered on a node.
#[derive(Debug, PartialEq, Eq)]
pub struct WorkloadRecord {
    pub id: String,
    pub node_id: String,
    pub name: String,
    pub unit: String,
    pub account: String,
    pub consumption_mode: String,
    pub local_ceiling_seconds: i64,
    pub registration_version: i64,
    pub status: String,
    pub created_at_ms: i64,
    pub revoked_at_ms: Option<i64>,
    pub version: i64,
}

/// What a `WorkloadRecord` stands for.
#[verifier::ext_equal]
pub struct WorkloadRecordView {
    pub id: Seq<char>,
    pub node_id: Seq<char>,
    pub name: Seq<char>,
    pub unit: Seq<char>,
    pub account: Seq<char>,
    pub consumption_mode: Seq<char>,
    pub local_ceiling_seconds: i64,
    pub registration_version: i64,
    pub status: Seq<char>,
    pub created_at_ms: i64,
    pub revoked_at_ms: Option<i64>,
    pub version: i64,
}

impl View for WorkloadRecord {
    type V = WorkloadRecordView;

    open spec fn view(&self) -> WorkloadRecordView {
        WorkloadRecordView {
            id: self.id@,
            node_id: self.node_id@,
            name: self.name@,
            unit: self.unit@,
            account: self.account@,
            consumption_mode: self.consumption_mode@,
            local_ceiling_seconds: self.local_ceiling_seconds,
            registration_version: self.registration_version,
            status: self.status@,
            created_at_ms: self.created_at_ms,
            revoked_at_ms: self.revoked_at_ms,
            version: self.version,
        }
    }
}

impl Duplicate for WorkloadRecord {
    fn duplicate(&self) -> (copy: WorkloadRecord) {
        WorkloadRecord {
            id: self.id.clone(),
            node_id: self.node_id.clone(),
            name: self.name.clone(),
            unit: self.unit.clone(),
            account: self.account.clone(),
            consumption_mode: self.consumption_mode.clone(),
            local_ceiling_seconds: self.local_ceiling_seconds,
            registration_version: self.registration_version,
            status: self.status.clone(),
            created_at_ms: self.created_at_ms,
            revoked_at_ms: self.revoked_at_ms,
            version: self.version,
        }
    }
}

impl Clone for WorkloadRecord {
    fn clone(&self) -> (copy: WorkloadRecord)
        ensures
            copy@ == self@,
    {
        self.duplicate()
    }
}

/// The stored fleet policy.
#[derive(Debug, PartialEq, Eq)]
pub struct FleetPolicyRecord {
    pub version: i64,
    pub document_json: String,
    pub updated_at_ms: i64,
    pub updated_by: String,
}

/// What a `FleetPolicyRecord` stands for.
#[verifier::ext_equal]
pub struct FleetPolicyRecordView {
    pub version: i64,
    pub document_json: Seq<char>,
    pub updated_at_ms: i64,
    pub updated_by: Seq<char>,
}

impl View for FleetPolicyRecord {
    type V = FleetPolicyRecordView;

    open spec fn view(&self) -> FleetPolicyRecordView {
        FleetPolicyRecordView {
            version: self.version,
            document_json: self.document_json@,
            updated_at_ms: self.updated_at_ms,
            updated_by: self.updated_by@,
        }
    }
}

impl Duplicate for FleetPolicyRecord {
    fn duplicate(&self) -> (copy: FleetPolicyRecord) {
        FleetPolicyRecord {
            version: self.version,
            document_json: self.document_json.clone(),
            updated_at_ms: self.updated_at_ms,
            updated_by: self.updated_by.clone(),
        }
    }
}

impl Clone for FleetPolicyRecord {
    fn clone(&self) -> (copy: FleetPolicyRecord)
        ensures
            copy@ == self@,
    {
        self.duplicate()
    }
}

/// A requested operation and what became of it.
#[derive(Debug, PartialEq, Eq)]
pub struct OperationRecord {
    pub id: String,
    pub workload_id: String,
    pub node_id: String,
    pub invocation_id: String,
    pub action: String,
    pub mode: String,
    pub resource_id: String,
    pub requested_ttl_seconds: i64,
    pub broker_event_key: Option<String>,
    pub requested_by: String,
    pub purpose: String,
    pub policy_version: i64,
    pub decision: String,
    pub decision_hash: Option<String>,
    pub status: String,
    pub approval_id: Option<String>,
    pub grant_id: Option<String>,
    pub idempotency_key: String,
    pub request_hash: String,
    pub result_json: Option<String>,
    pub created_at_ms: i64,
    pub expires_at_ms: i64,
    pub completed_at_ms: Option<i64>,
    pub version: i64,
}

/// What an `OperationRecord` stands for.
#[verifier::ext_equal]
pub struct OperationRecordView {
    pub id: Seq<char>,
    pub workload_id: Seq<char>,
    pub node_id: Seq<char>,
    pub invocation_id: Seq<char>,
    pub action: Seq<char>,
    pub mode: Seq<char>,
    pub resource_id: Seq<char>,
    pub requested_ttl_seconds: i64,
    pub broker_event_key: Option<Seq<char>>,
    pub requested_by: Seq<char>,
    pub purpose: Seq<char>,
    pub policy_version: i64,
    pub decision: Seq<char>,
    pub decision_hash: Option<Seq<char>>,
    pub status: Seq<char>,
    pub approval_id: Option<Seq<char>>,
    pub grant_id: Option<Seq<char>>,
    pub idempotency_key: Seq<char>,
    pub request_hash: Seq<char>,
    pub result_json: Option<Seq<char>>,
    pub created_at_ms: i64,
    pub expires_at_ms: i64,
    pub completed_at_ms: Option<i64>,
    pub version: i64,
}

impl View for OperationRecord {
    type V = OperationRecordView;

    open spec fn view(&self) -> OperationRecordView {
        OperationRecordView {
            id: self.id@,
            workload_id: self.workload_id@,
            node_id: self.node_id@,
            invocation_id: self.invocation_id@,
            action: self.action@,
            mode: self.mode@,
            resource_id: self.resource_id@,
            requested_ttl_seconds: self.requested_ttl_seconds,
            broker_event_key: optional_text(self.broker_event_key),
            requested_by: self.requested_by@,
            purpose: self.purpose@,
            policy_version: self.policy_version,
            decision: self.decision@,
            decision_hash: optional_text(self.decision_hash),
            status: self.status@,
            approval_id: optional_text(self.approval_id),
            grant_id: optional_text(self.grant_id),
            idempotency_key: self.idempotency_key@,
            request_hash: self.request_hash@,
            result_json: optional_text(self.result_json),
            created_at_ms: self.created_at_ms,
            expires_at_ms: self.expires_at_ms,
            completed_at_ms: self.completed_at_ms,
            version: self.version,
        }
    }
}

impl Duplicate for OperationRecord {
    fn duplicate(&self) -> (copy: OperationRecord) {
        OperationRecord {
            id: self.id.clone(),
            workload_id: self.workload_id.clone(),
            node_id: self.node_id.clone(),
            invocation_id: self.invocation_id.clone(),
            action: self.action.clone(),
            mode: self.mode.clone(),
            resource_id: self.resource_id.clone(),
            requested_ttl_seconds: self.requested_ttl_seconds,
            broker_event_key: copy_optional(&self.broker_event_key),
            requested_by: self.requested_by.clone(),
            purpose: self.purpose.clone(),
            policy_version: self.policy_version,
            decision: self.decision.clone(),
            decision_hash: copy_optional(&self.decision_hash),
            status: self.status.clone(),
            approval_id: copy_optional(&self.approval_id),
            grant_id: copy_optional(&self.grant_id),
            idempotency_key: self.idempotency_key.clone(),
            request_hash: self.request_hash.clone(),
            result_json: copy_optional(&self.result_json),
            created_at_ms: self.created_at_ms,
            expires_at_ms: self.expires_at_ms,
            completed_at_ms: self.completed_at_ms,
            version: self.version,
        }
    }
}

impl Clone for OperationRecord {
    fn clone(&self) -> (copy: OperationRecord)
        ensures
            copy@ == self@,
    {
        self.duplicate()
    }
}

/// An approval that a group of operations waits for.
#[derive(Debug, PartialEq, Eq)]
pub struct OperationApprovalRecord {
    pub id: String,
    pub operation_ids_json: String,
    pub requester_summary_json: String,
    pub verified_identity_json: String,
    pub rule_id: String,
    pub status: String,
    pub decided_by: Option<String>,
    pub decided_at_ms: Option<i64>,
    pub expires_at_ms: i64,
    pub idempotency_key: String,
    pub decision_key_hash: Option<String>,
    pub version: i64,
    pub created_at_ms: i64,
}

/// What an `OperationApprovalRecord` stands for.
#[verifier::ext_equal]
pub struct OperationApprovalRecordView {
    pub id: Seq<char>,
    pub operation_ids_json: Seq<char>,
    pub requester_summary_json: Seq<char>,
    pub verified_identity_json: Seq<char>,
    pub rule_id: Seq<char>,
    pub status: Seq<char>,
    pub decided_by: Option<Seq<char>>,
    pub decided_at_ms: Option<i64>,
    pub expires_at_ms: i64,
    pub idempotency_key: Seq<char>,
    pub decision_key_hash: Option<Seq<char>>,
    pub version: i64,
    pub created_at_ms: i64,
}

impl View for OperationApprovalRecord {
    type V = OperationApprovalRecordView;

    open spec fn view(&self) -> OperationApprovalRecordView {
        OperationApprovalRecordView {
            id: self.id@,
            operation_ids_json: self.operation_ids_json@,
            requester_summary_json: self.requester_summary_json@,
            verified_identity_json: self.verified_identity_json@,
            rule_id: self.rule_id@,
            status: self.status@,
            decided_by: optional_text(self.decided_by),
            decided_at_ms: self.decided_at_ms,
            expires_at_ms: self.expires_at_ms,
            idempotency_key: self.idempotency_key@,
            decision_key_hash: optional_text(self.decision_key_hash),
            version: self.version,
            created_at_ms: self.created_at_ms,
        }
    }
}

impl Duplicate for OperationApprovalRecord {
    fn duplicate(&self) -> (copy: OperationApprovalRecord) {
        OperationApprovalRecord {
            id: self.id.clone(),
            operation_ids_json: self.operation_ids_json.clone(),
            requester_summary_json: self.requester_summary_json.clone(),
            verified_identity_json: self.verified_identity_json.clone(),
            rule_id: self.rule_id.clone(),
            status: self.status.clone(),
            decided_by: copy_optional(&self.decided_by),
            decided_at_ms: self.decided_at_ms,
            expires_at_ms: self.expires_at_ms,
            idempotency_key: self.idempotency_key.clone(),
            decision_key_hash: copy_optional(&self.decision_key_hash),
            version: self.version,
            created_at_ms: self.created_at_ms,
        }
    }
}

impl Clone for OperationApprovalRecord {
    fn clone(&self) -> (copy: OperationApprovalRecord)
        ensures
            copy@ == self@,
    {
        self.duplicate()
    }
}

/// An approval to be created with an operation, or the open one that the operation joins.
#[derive(Debug, PartialEq, Eq)]
pub struct OperationApprovalDraft {
    pub id: String,
    pub idempotency_key: String,
    pub requester_summary_json: String,
    pub verified_identity_json: String,
    pub rule_id: String,
    pub expires_at_ms: i64,
}

/// What an `OperationApprovalDraft` stands for.
#[verifier::ext_equal]
pub struct OperationApprovalDraftView {
    pub id: Seq<char>,
    pub idempotency_key: Seq<char>,
    pub requester_summary_json: Seq<char>,
    pub verified_identity_json: Seq<char>,
    pub rule_id: Seq<char>,
    pub expires_at_ms: i64,
}

impl View for OperationApprovalDraft {
    type V = OperationApprovalDraftView;

    open spec fn view(&self) -> OperationApprovalDraftView {
        OperationApprovalDraftView {
            id: self.id@,
            idempotency_key: self.idempotency_key@,
            requester_summary_json: self.requester_summary_json@,
            verified_identity_json: self.verified_identity_json@,
            rule_id: self.rule_id@,
            expires_at_ms: self.expires_at_ms,
        }
    }
}

impl Duplicate for OperationApprovalDraft {
    fn duplicate(&self) -> (copy: OperationApprovalDraft) {
        OperationApprovalDraft {
            id: self.id.clone(),
            idempotency_key: self.idempotency_key.clone(),
            requester_summary_json: self.requester_summary_json.clone(),
            verified_identity_json: self.verified_identity_json.clone(),
            rule_id: self.rule_id.clone(),
            expires_at_ms: self.expires_at_ms,
        }
    }
}

impl Clone for OperationApprovalDraft {
    fn clone(&self) -> (copy: OperationApprovalDraft)
        ensures
            copy@ == self@,
    {
        self.duplicate()
    }
}

/// The policy decision that an exchange was created under.
#[derive(Debug, PartialEq, Eq)]
pub struct ExchangePolicyRecord {
    pub mode: String,
    pub approval_required: bool,
    pub rule_id: String,
    pub reason: String,
    pub approval_reference: Option<String>,
    pub requester_ring: Option<String>,
    pub fulfiller_ring: Option<String>,
    pub secret_name: String,
}

/// What an `ExchangePolicyRecord` stands for.
#[verifier::ext_equal]
pub struct ExchangePolicyRecordView {
    pub mode: Seq<char>,
    pub approval_required: bool,
    pub rule_id: Seq<char>,
    pub reason: Seq<char>,
    pub approval_reference: Option<Seq<char>>,
    pub requester_ring: Option<Seq<char>>,
    pub fulfiller_ring: Option<Seq<char>>,
    pub secret_name: Seq<char>,
}

impl View for ExchangePolicyRecord {
    type V = ExchangePolicyRecordView;

    open spec fn view(&self) -> ExchangePolicyRecordView {
        ExchangePolicyRecordView {
            mode: self.mode@,
            approval_required: self.approval_required,
            rule_id: self.rule_id@,
            reason: self.reason@,
            approval_reference: optional_text(self.approval_reference),
            requester_ring: optional_text(self.requester_ring),
            fulfiller_ring: optional_text(self.fulfiller_ring),
            secret_name: self.secret_name@,
        }
    }
}

impl Duplicate for ExchangePolicyRecord {
    fn duplicate(&self) -> (copy: ExchangePolicyRecord) {
        ExchangePolicyRecord {
            mode: self.mode.clone(),
            approval_required: self.approval_required,
            rule_id: self.rule_id.clone(),
            reason: self.reason.clone(),
            approval_reference: copy_optional(&self.approval_reference),
            requester_ring: copy_optional(&self.requester_ring),
            fulfiller_ring: copy_optional(&self.fulfiller_ring),
            secret_name: self.secret_name.clone(),
        }
    }
}

impl Clone for ExchangePolicyRecord {
    fn clone(&self) -> (copy: ExchangePolicyRecord)
        ensures
            copy@ == self@,
    {
        self.duplicate()
    }
}

/// An exchange of a secret between two agents. The workspace is the tenant that owns it.
#[derive(Debug, PartialEq, Eq)]
pub struct ExchangeRecord {
    pub exchange_id: String,
    pub requester_id: String,
    pub workspace_id: String,
    pub requester_public_key: String,
    pub secret_name: String,
    pub purpose: String,
    pub fulfiller_hint: String,
    pub allowed_fulfiller_id: Option<String>,
    pub fulfilled_by: Option<String>,
    pub policy: ExchangePolicyRecord,
    pub policy_hash: String,
    pub status: String,
    pub prior_exchange_id: Option<String>,
    pub supersedes_exchange_id: Option<String>,
    pub created_at_ms: i64,
    pub expires_at_ms: i64,
    pub enc: Option<String>,
    pub ciphertext: Option<String>,
}

/// What an `ExchangeRecord` stands for.
#[verifier::ext_equal]
pub struct ExchangeRecordView {
    pub exchange_id: Seq<char>,
    pub requester_id: Seq<char>,
    pub workspace_id: Seq<char>,
    pub requester_public_key: Seq<char>,
    pub secret_name: Seq<char>,
    pub purpose: Seq<char>,
    pub fulfiller_hint: Seq<char>,
    pub allowed_fulfiller_id: Option<Seq<char>>,
    pub fulfilled_by: Option<Seq<char>>,
    pub policy: ExchangePolicyRecordView,
    pub policy_hash: Seq<char>,
    pub status: Seq<char>,
    pub prior_exchange_id: Option<Seq<char>>,
    pub supersedes_exchange_id: Option<Seq<char>>,
    pub created_at_ms: i64,
    pub expires_at_ms: i64,
    pub enc: Option<Seq<char>>,
    pub ciphertext: Option<Seq<char>>,
}

impl View for ExchangeRecord {
    type V = ExchangeRecordView;

    open spec fn view(&self) -> ExchangeRecordView {
        ExchangeRecordView {
            exchange_id: self.exchange_id@,
            requester_id: self.requester_id@,
            workspace_id: self.workspace_id@,
            requester_public_key: self.requester_public_key@,
            secret_name: self.secret_name@,
            purpose: self.purpose@,
            fulfiller_hint: self.fulfiller_hint@,
            allowed_fulfiller_id: optional_text(self.allowed_fulfiller_id),
            fulfilled_by: optional_text(self.fulfilled_by),
            policy: self.policy@,
            policy_hash: self.policy_hash@,
            status: self.status@,
            prior_exchange_id: optional_text(self.prior_exchange_id),
            supersedes_exchange_id: optional_text(self.supersedes_exchange_id),
            created_at_ms: self.created_at_ms,
            expires_at_ms: self.expires_at_ms,
            enc: optional_text(self.enc),
            ciphertext: optional_text(self.ciphertext),
        }
    }
}

impl Duplicate for ExchangeRecord {
    fn duplicate(&self) -> (copy: ExchangeRecord) {
        ExchangeRecord {
            exchange_id: self.exchange_id.clone(),
            requester_id: self.requester_id.clone(),
            workspace_id: self.workspace_id.clone(),
            requester_public_key: self.requester_public_key.clone(),
            secret_name: self.secret_name.clone(),
            purpose: self.purpose.clone(),
            fulfiller_hint: self.fulfiller_hint.clone(),
            allowed_fulfiller_id: copy_optional(&self.allowed_fulfiller_id),
            fulfilled_by: copy_optional(&self.fulfilled_by),
            policy: self.policy.duplicate(),
            policy_hash: self.policy_hash.clone(),
            status: self.status.clone(),
            prior_exchange_id: copy_optional(&self.prior_exchange_id),
            supersedes_exchange_id: copy_optional(&self.supersedes_exchange_id),
            created_at_ms: self.created_at_ms,
            expires_at_ms: self.expires_at_ms,
            enc: copy_optional(&self.enc),
            ciphertext: copy_optional(&self.ciphertext),
        }
    }
}

impl Clone for ExchangeRecord {
    fn clone(&self) -> (copy: ExchangeRecord)
        ensures
            copy@ == self@,
    {
        self.duplicate()
    }
}

/// A request for an approval. The workspace is the tenant that owns it.
#[derive(Debug, PartialEq, Eq)]
pub struct ApprovalRecord {
    pub approval_reference: String,
    pub requester_id: String,
    pub workspace_id: String,
    pub secret_name: String,
    pub purpose: String,
    pub fulfiller_hint: String,
    pub rule_id: Option<String>,
    pub reason: String,
    pub requester_ring: Option<String>,
    pub fulfiller_ring: Option<String>,
    pub approver_ids: Vec<String>,
    pub approver_rings: Vec<String>,
    pub status: String,
    pub created_at_ms: i64,
    pub expires_at_ms: i64,
    pub decided_at_ms: Option<i64>,
    pub decided_by: Option<String>,
}

/// What an `ApprovalRecord` stands for.
#[verifier::ext_equal]
pub struct ApprovalRecordView {
    pub approval_reference: Seq<char>,
    pub requester_id: Seq<char>,
    pub workspace_id: Seq<char>,
    pub secret_name: Seq<char>,
    pub purpose: Seq<char>,
    pub fulfiller_hint: Seq<char>,
    pub rule_id: Option<Seq<char>>,
    pub reason: Seq<char>,
    pub requester_ring: Option<Seq<char>>,
    pub fulfiller_ring: Option<Seq<char>>,
    pub approver_ids: Seq<Seq<char>>,
    pub approver_rings: Seq<Seq<char>>,
    pub status: Seq<char>,
    pub created_at_ms: i64,
    pub expires_at_ms: i64,
    pub decided_at_ms: Option<i64>,
    pub decided_by: Option<Seq<char>>,
}

impl View for ApprovalRecord {
    type V = ApprovalRecordView;

    open spec fn view(&self) -> ApprovalRecordView {
        ApprovalRecordView {
            approval_reference: self.approval_reference@,
            requester_id: self.requester_id@,
            workspace_id: self.workspace_id@,
            secret_name: self.secret_name@,
            purpose: self.purpose@,
            fulfiller_hint: self.fulfiller_hint@,
            rule_id: optional_text(self.rule_id),
            reason: self.reason@,
            requester_ring: optional_text(self.requester_ring),
            fulfiller_ring: optional_text(self.fulfiller_ring),
            approver_ids: texts(self.approver_ids@),
            approver_rings: texts(self.approver_rings@),
            status: self.status@,
            created_at_ms: self.created_at_ms,
            expires_at_ms: self.expires_at_ms,
            decided_at_ms: self.decided_at_ms,
            decided_by: optional_text(self.decided_by),
        }
    }
}

impl Duplicate for ApprovalRecord {
    fn duplicate(&self) -> (copy: ApprovalRecord) {
        ApprovalRecord {
            approval_reference: self.approval_reference.clone(),
            requester_id: self.requester_id.clone(),
            workspace_id: self.workspace_id.clone(),
            secret_name: self.secret_name.clone(),
            purpose: self.purpose.clone(),
            fulfiller_hint: self.fulfiller_hint.clone(),
            rule_id: copy_optional(&self.rule_id),
            reason: self.reason.clone(),
            requester_ring: copy_optional(&self.requester_ring),
            fulfiller_ring: copy_optional(&self.fulfiller_ring),
            approver_ids: copy_texts(&self.approver_ids),
            approver_rings: copy_texts(&self.approver_rings),
            status: self.status.clone(),
            created_at_ms: self.created_at_ms,
            expires_at_ms: self.expires_at_ms,
            decided_at_ms: self.decided_at_ms,
            decided_by: copy_optional(&self.decided_by),
        }
    }
}

impl Clone for ApprovalRecord {
    fn clone(&self) -> (copy: ApprovalRecord)
        ensures
            copy@ == self@,
    {
        self.duplicate()
    }
}

/// One step in the life of an exchange or an approval. The metadata is JSON text.
#[derive(Debug, PartialEq, Eq)]
pub struct LifecycleRecord {
    pub record_id: String,
    pub event_type: String,
    pub exchange_id: Option<String>,
    pub approval_reference: Option<String>,
    pub requester_id: String,
    pub workspace_id: String,
    pub secret_name: String,
    pub purpose: String,
    pub fulfiller_hint: Option<String>,
    pub actor_id: Option<String>,
    pub status: Option<String>,
    pub prior_status: Option<String>,
    pub reason: Option<String>,
    pub policy_rule_id: Option<String>,
    pub metadata: Option<String>,
    pub created_at_ms: i64,
}

/// What a `LifecycleRecord` stands for.
#[verifier::ext_equal]
pub struct LifecycleRecordView {
    pub record_id: Seq<char>,
    pub event_type: Seq<char>,
    pub exchange_id: Option<Seq<char>>,
    pub approval_reference: Option<Seq<char>>,
    pub requester_id: Seq<char>,
    pub workspace_id: Seq<char>,
    pub secret_name: Seq<char>,
    pub purpose: Seq<char>,
    pub fulfiller_hint: Option<Seq<char>>,
    pub actor_id: Option<Seq<char>>,
    pub status: Option<Seq<char>>,
    pub prior_status: Option<Seq<char>>,
    pub reason: Option<Seq<char>>,
    pub policy_rule_id: Option<Seq<char>>,
    pub metadata: Option<Seq<char>>,
    pub created_at_ms: i64,
}

impl View for LifecycleRecord {
    type V = LifecycleRecordView;

    open spec fn view(&self) -> LifecycleRecordView {
        LifecycleRecordView {
            record_id: self.record_id@,
            event_type: self.event_type@,
            exchange_id: optional_text(self.exchange_id),
            approval_reference: optional_text(self.approval_reference),
            requester_id: self.requester_id@,
            workspace_id: self.workspace_id@,
            secret_name: self.secret_name@,
            purpose: self.purpose@,
            fulfiller_hint: optional_text(self.fulfiller_hint),
            actor_id: optional_text(self.actor_id),
            status: optional_text(self.status),
            prior_status: optional_text(self.prior_status),
            reason: optional_text(self.reason),
            policy_rule_id: optional_text(self.policy_rule_id),
            metadata: optional_text(self.metadata),
            created_at_ms: self.created_at_ms,
        }
    }
}

impl Duplicate for LifecycleRecord {
    fn duplicate(&self) -> (copy: LifecycleRecord) {
        LifecycleRecord {
            record_id: self.record_id.clone(),
            event_type: self.event_type.clone(),
            exchange_id: copy_optional(&self.exchange_id),
            approval_reference: copy_optional(&self.approval_reference),
            requester_id: self.requester_id.clone(),
            workspace_id: self.workspace_id.clone(),
            secret_name: self.secret_name.clone(),
            purpose: self.purpose.clone(),
            fulfiller_hint: copy_optional(&self.fulfiller_hint),
            actor_id: copy_optional(&self.actor_id),
            status: copy_optional(&self.status),
            prior_status: copy_optional(&self.prior_status),
            reason: copy_optional(&self.reason),
            policy_rule_id: copy_optional(&self.policy_rule_id),
            metadata: copy_optional(&self.metadata),
            created_at_ms: self.created_at_ms,
        }
    }
}

impl Clone for LifecycleRecord {
    fn clone(&self) -> (copy: LifecycleRecord)
        ensures
            copy@ == self@,
    {
        self.duplicate()
    }
}

/// One audit event. The metadata is JSON text.
#[derive(Debug, PartialEq, Eq)]
pub struct AuditRecord {
    pub id: String,
    pub workspace_id: String,
    pub event_type: String,
    pub actor_id: Option<String>,
    pub actor_type: String,
    pub resource_id: Option<String>,
    pub metadata: String,
    pub created_at_ms: i64,
}

/// What an `AuditRecord` stands for.
#[verifier::ext_equal]
pub struct AuditRecordView {
    pub id: Seq<char>,
    pub workspace_id: Seq<char>,
    pub event_type: Seq<char>,
    pub actor_id: Option<Seq<char>>,
    pub actor_type: Seq<char>,
    pub resource_id: Option<Seq<char>>,
    pub metadata: Seq<char>,
    pub created_at_ms: i64,
}

impl View for AuditRecord {
    type V = AuditRecordView;

    open spec fn view(&self) -> AuditRecordView {
        AuditRecordView {
            id: self.id@,
            workspace_id: self.workspace_id@,
            event_type: self.event_type@,
            actor_id: optional_text(self.actor_id),
            actor_type: self.actor_type@,
            resource_id: optional_text(self.resource_id),
            metadata: self.metadata@,
            created_at_ms: self.created_at_ms,
        }
    }
}

impl Duplicate for AuditRecord {
    fn duplicate(&self) -> (copy: AuditRecord) {
        AuditRecord {
            id: self.id.clone(),
            workspace_id: self.workspace_id.clone(),
            event_type: self.event_type.clone(),
            actor_id: copy_optional(&self.actor_id),
            actor_type: self.actor_type.clone(),
            resource_id: copy_optional(&self.resource_id),
            metadata: self.metadata.clone(),
            created_at_ms: self.created_at_ms,
        }
    }
}

impl Clone for AuditRecord {
    fn clone(&self) -> (copy: AuditRecord)
        ensures
            copy@ == self@,
    {
        self.duplicate()
    }
}

/// An enrollment request of a node.
#[derive(Debug, PartialEq, Eq)]
pub struct EnrollmentRecord {
    pub id: String,
    pub node_id: String,
    pub requested_name: String,
    pub created_by: String,
    pub status: String,
    pub fingerprint: Option<String>,
    pub signing_pub: Option<String>,
    pub recipient_pub: Option<String>,
    pub protocol_version: Option<String>,
    pub capabilities_json: Option<String>,
    pub host_facts_json: Option<String>,
    pub created_at_ms: i64,
    pub expires_at_ms: i64,
    pub used_at_ms: Option<i64>,
    pub version: i64,
}

/// What an `EnrollmentRecord` stands for.
#[verifier::ext_equal]
pub struct EnrollmentRecordView {
    pub id: Seq<char>,
    pub node_id: Seq<char>,
    pub requested_name: Seq<char>,
    pub created_by: Seq<char>,
    pub status: Seq<char>,
    pub fingerprint: Option<Seq<char>>,
    pub signing_pub: Option<Seq<char>>,
    pub recipient_pub: Option<Seq<char>>,
    pub protocol_version: Option<Seq<char>>,
    pub capabilities_json: Option<Seq<char>>,
    pub host_facts_json: Option<Seq<char>>,
    pub created_at_ms: i64,
    pub expires_at_ms: i64,
    pub used_at_ms: Option<i64>,
    pub version: i64,
}

impl View for EnrollmentRecord {
    type V = EnrollmentRecordView;

    open spec fn view(&self) -> EnrollmentRecordView {
        EnrollmentRecordView {
            id: self.id@,
            node_id: self.node_id@,
            requested_name: self.requested_name@,
            created_by: self.created_by@,
            status: self.status@,
            fingerprint: optional_text(self.fingerprint),
            signing_pub: optional_text(self.signing_pub),
            recipient_pub: optional_text(self.recipient_pub),
            protocol_version: optional_text(self.protocol_version),
            capabilities_json: optional_text(self.capabilities_json),
            host_facts_json: optional_text(self.host_facts_json),
            created_at_ms: self.created_at_ms,
            expires_at_ms: self.expires_at_ms,
            used_at_ms: self.used_at_ms,
            version: self.version,
        }
    }
}

impl Duplicate for EnrollmentRecord {
    fn duplicate(&self) -> (copy: EnrollmentRecord) {
        EnrollmentRecord {
            id: self.id.clone(),
            node_id: self.node_id.clone(),
            requested_name: self.requested_name.clone(),
            created_by: self.created_by.clone(),
            status: self.status.clone(),
            fingerprint: copy_optional(&self.fingerprint),
            signing_pub: copy_optional(&self.signing_pub),
            recipient_pub: copy_optional(&self.recipient_pub),
            protocol_version: copy_optional(&self.protocol_version),
            capabilities_json: copy_optional(&self.capabilities_json),
            host_facts_json: copy_optional(&self.host_facts_json),
            created_at_ms: self.created_at_ms,
            expires_at_ms: self.expires_at_ms,
            used_at_ms: self.used_at_ms,
            version: self.version,
        }
    }
}

impl Clone for EnrollmentRecord {
    fn clone(&self) -> (copy: EnrollmentRecord)
        ensures
            copy@ == self@,
    {
        self.duplicate()
    }
}

/// An enrolled node, with what is pending for it.
#[derive(Debug, PartialEq, Eq)]
pub struct NodeRecord {
    pub id: String,
    pub name: String,
    pub signing_pub: String,
    pub recipient_pub: String,
    pub key_version: i64,
    pub status: String,
    pub revocation_pending: bool,
    pub rotation_pending: bool,
    pub pending_key_version: Option<i64>,
    pub pending_rotation_id: Option<String>,
    pub protocol_version: String,
    pub capabilities_json: String,
    pub last_seen_at_ms: Option<i64>,
    pub last_poll_at_ms: Option<i64>,
    pub created_at_ms: i64,
    pub revoked_at_ms: Option<i64>,
    pub version: i64,
}

/// What a `NodeRecord` stands for.
#[verifier::ext_equal]
pub struct NodeRecordView {
    pub id: Seq<char>,
    pub name: Seq<char>,
    pub signing_pub: Seq<char>,
    pub recipient_pub: Seq<char>,
    pub key_version: i64,
    pub status: Seq<char>,
    pub revocation_pending: bool,
    pub rotation_pending: bool,
    pub pending_key_version: Option<i64>,
    pub pending_rotation_id: Option<Seq<char>>,
    pub protocol_version: Seq<char>,
    pub capabilities_json: Seq<char>,
    pub last_seen_at_ms: Option<i64>,
    pub last_poll_at_ms: Option<i64>,
    pub created_at_ms: i64,
    pub revoked_at_ms: Option<i64>,
    pub version: i64,
}

impl View for NodeRecord {
    type V = NodeRecordView;

    open spec fn view(&self) -> NodeRecordView {
        NodeRecordView {
            id: self.id@,
            name: self.name@,
            signing_pub: self.signing_pub@,
            recipient_pub: self.recipient_pub@,
            key_version: self.key_version,
            status: self.status@,
            revocation_pending: self.revocation_pending,
            rotation_pending: self.rotation_pending,
            pending_key_version: self.pending_key_version,
            pending_rotation_id: optional_text(self.pending_rotation_id),
            protocol_version: self.protocol_version@,
            capabilities_json: self.capabilities_json@,
            last_seen_at_ms: self.last_seen_at_ms,
            last_poll_at_ms: self.last_poll_at_ms,
            created_at_ms: self.created_at_ms,
            revoked_at_ms: self.revoked_at_ms,
            version: self.version,
        }
    }
}

impl Duplicate for NodeRecord {
    fn duplicate(&self) -> (copy: NodeRecord) {
        NodeRecord {
            id: self.id.clone(),
            name: self.name.clone(),
            signing_pub: self.signing_pub.clone(),
            recipient_pub: self.recipient_pub.clone(),
            key_version: self.key_version,
            status: self.status.clone(),
            revocation_pending: self.revocation_pending,
            rotation_pending: self.rotation_pending,
            pending_key_version: self.pending_key_version,
            pending_rotation_id: copy_optional(&self.pending_rotation_id),
            protocol_version: self.protocol_version.clone(),
            capabilities_json: self.capabilities_json.clone(),
            last_seen_at_ms: self.last_seen_at_ms,
            last_poll_at_ms: self.last_poll_at_ms,
            created_at_ms: self.created_at_ms,
            revoked_at_ms: self.revoked_at_ms,
            version: self.version,
        }
    }
}

impl Clone for NodeRecord {
    fn clone(&self) -> (copy: NodeRecord)
        ensures
            copy@ == self@,
    {
        self.duplicate()
    }
}

/// A grant that was issued for an operation.
#[derive(Debug, PartialEq, Eq)]
pub struct GrantRecord {
    pub id: String,
    pub operation_id: String,
    pub node_id: String,
    pub workload_id: String,
    pub invocation_id: String,
    pub unit: String,
    pub account: String,
    pub resource_id: String,
    pub recipient_key_id: String,
    pub policy_version: i64,
    pub approval_reference: Option<String>,
    pub action: String,
    pub mode: String,
    pub audience: String,
    pub issuer_epoch: i64,
    pub issued_at_ms: i64,
    pub expires_at_ms: i64,
    pub status: String,
    pub consumed_at_ms: Option<i64>,
    pub revoked_at_ms: Option<i64>,
    pub created_at_ms: i64,
}

/// What a `GrantRecord` stands for.
#[verifier::ext_equal]
pub struct GrantRecordView {
    pub id: Seq<char>,
    pub operation_id: Seq<char>,
    pub node_id: Seq<char>,
    pub workload_id: Seq<char>,
    pub invocation_id: Seq<char>,
    pub unit: Seq<char>,
    pub account: Seq<char>,
    pub resource_id: Seq<char>,
    pub recipient_key_id: Seq<char>,
    pub policy_version: i64,
    pub approval_reference: Option<Seq<char>>,
    pub action: Seq<char>,
    pub mode: Seq<char>,
    pub audience: Seq<char>,
    pub issuer_epoch: i64,
    pub issued_at_ms: i64,
    pub expires_at_ms: i64,
    pub status: Seq<char>,
    pub consumed_at_ms: Option<i64>,
    pub revoked_at_ms: Option<i64>,
    pub created_at_ms: i64,
}

impl View for GrantRecord {
    type V = GrantRecordView;

    open spec fn view(&self) -> GrantRecordView {
        GrantRecordView {
            id: self.id@,
            operation_id: self.operation_id@,
            node_id: self.node_id@,
            workload_id: self.workload_id@,
            invocation_id: self.invocation_id@,
            unit: self.unit@,
            account: self.account@,
            resource_id: self.resource_id@,
            recipient_key_id: self.recipient_key_id@,
            policy_version: self.policy_version,
            approval_reference: optional_text(self.approval_reference),
            action: self.action@,
            mode: self.mode@,
            audience: self.audience@,
            issuer_epoch: self.issuer_epoch,
            issued_at_ms: self.issued_at_ms,
            expires_at_ms: self.expires_at_ms,
            status: self.status@,
            consumed_at_ms: self.consumed_at_ms,
            revoked_at_ms: self.revoked_at_ms,
            created_at_ms: self.created_at_ms,
        }
    }
}

impl Duplicate for GrantRecord {
    fn duplicate(&self) -> (copy: GrantRecord) {
        GrantRecord {
            id: self.id.clone(),
            operation_id: self.operation_id.clone(),
            node_id: self.node_id.clone(),
            workload_id: self.workload_id.clone(),
            invocation_id: self.invocation_id.clone(),
            unit: self.unit.clone(),
            account: self.account.clone(),
            resource_id: self.resource_id.clone(),
            recipient_key_id: self.recipient_key_id.clone(),
            policy_version: self.policy_version,
            approval_reference: copy_optional(&self.approval_reference),
            action: self.action.clone(),
            mode: self.mode.clone(),
            audience: self.audience.clone(),
            issuer_epoch: self.issuer_epoch,
            issued_at_ms: self.issued_at_ms,
            expires_at_ms: self.expires_at_ms,
            status: self.status.clone(),
            consumed_at_ms: self.consumed_at_ms,
            revoked_at_ms: self.revoked_at_ms,
            created_at_ms: self.created_at_ms,
        }
    }
}

impl Clone for GrantRecord {
    fn clone(&self) -> (copy: GrantRecord)
        ensures
            copy@ == self@,
    {
        self.duplicate()
    }
}

/// A one-use challenge for a node handshake.
#[derive(Debug, PartialEq, Eq)]
pub struct NodeChallenge {
    pub id: String,
    pub tenant_id: String,
    pub node_id: String,
    pub key_version: i64,
    pub issuer_epoch: i64,
    pub protocol_version: String,
    pub capabilities_json: String,
    pub capabilities_hash: String,
    pub created_at_ms: i64,
    pub expires_at_ms: i64,
}

/// What a `NodeChallenge` stands for.
#[verifier::ext_equal]
pub struct NodeChallengeView {
    pub id: Seq<char>,
    pub tenant_id: Seq<char>,
    pub node_id: Seq<char>,
    pub key_version: i64,
    pub issuer_epoch: i64,
    pub protocol_version: Seq<char>,
    pub capabilities_json: Seq<char>,
    pub capabilities_hash: Seq<char>,
    pub created_at_ms: i64,
    pub expires_at_ms: i64,
}

impl View for NodeChallenge {
    type V = NodeChallengeView;

    open spec fn view(&self) -> NodeChallengeView {
        NodeChallengeView {
            id: self.id@,
            tenant_id: self.tenant_id@,
            node_id: self.node_id@,
            key_version: self.key_version,
            issuer_epoch: self.issuer_epoch,
            protocol_version: self.protocol_version@,
            capabilities_json: self.capabilities_json@,
            capabilities_hash: self.capabilities_hash@,
            created_at_ms: self.created_at_ms,
            expires_at_ms: self.expires_at_ms,
        }
    }
}

impl Duplicate for NodeChallenge {
    fn duplicate(&self) -> (copy: NodeChallenge) {
        NodeChallenge {
            id: self.id.clone(),
            tenant_id: self.tenant_id.clone(),
            node_id: self.node_id.clone(),
            key_version: self.key_version,
            issuer_epoch: self.issuer_epoch,
            protocol_version: self.protocol_version.clone(),
            capabilities_json: self.capabilities_json.clone(),
            capabilities_hash: self.capabilities_hash.clone(),
            created_at_ms: self.created_at_ms,
            expires_at_ms: self.expires_at_ms,
        }
    }
}

impl Clone for NodeChallenge {
    fn clone(&self) -> (copy: NodeChallenge)
        ensures
            copy@ == self@,
    {
        self.duplicate()
    }
}

/// A signed document that waits for a node.
#[derive(Debug, PartialEq, Eq)]
pub struct InboxDocument {
    pub seq: i64,
    pub envelope_json: String,
}

/// What an `InboxDocument` stands for.
#[verifier::ext_equal]
pub struct InboxDocumentView {
    pub seq: i64,
    pub envelope_json: Seq<char>,
}

impl View for InboxDocument {
    type V = InboxDocumentView;

    open spec fn view(&self) -> InboxDocumentView {
        InboxDocumentView {
            seq: self.seq,
            envelope_json: self.envelope_json@,
        }
    }
}

impl Duplicate for InboxDocument {
    fn duplicate(&self) -> (copy: InboxDocument) {
        InboxDocument {
            seq: self.seq,
            envelope_json: self.envelope_json.clone(),
        }
    }
}

impl Clone for InboxDocument {
    fn clone(&self) -> (copy: InboxDocument)
        ensures
            copy@ == self@,
    {
        self.duplicate()
    }
}

/// A local operator.
#[derive(Debug, PartialEq, Eq)]
pub struct LocalOperator {
    pub id: String,
    pub username: String,
    pub display_name: String,
    pub password_hash: String,
    pub role: String,
    pub must_change_password: bool,
    pub disabled_at_ms: Option<i64>,
}

/// What a `LocalOperator` stands for.
#[verifier::ext_equal]
pub struct LocalOperatorView {
    pub id: Seq<char>,
    pub username: Seq<char>,
    pub display_name: Seq<char>,
    pub password_hash: Seq<char>,
    pub role: Seq<char>,
    pub must_change_password: bool,
    pub disabled_at_ms: Option<i64>,
}

impl View for LocalOperator {
    type V = LocalOperatorView;

    open spec fn view(&self) -> LocalOperatorView {
        LocalOperatorView {
            id: self.id@,
            username: self.username@,
            display_name: self.display_name@,
            password_hash: self.password_hash@,
            role: self.role@,
            must_change_password: self.must_change_password,
            disabled_at_ms: self.disabled_at_ms,
        }
    }
}

impl Duplicate for LocalOperator {
    fn duplicate(&self) -> (copy: LocalOperator) {
        LocalOperator {
            id: self.id.clone(),
            username: self.username.clone(),
            display_name: self.display_name.clone(),
            password_hash: self.password_hash.clone(),
            role: self.role.clone(),
            must_change_password: self.must_change_password,
            disabled_at_ms: self.disabled_at_ms,
        }
    }
}

impl Clone for LocalOperator {
    fn clone(&self) -> (copy: LocalOperator)
        ensures
            copy@ == self@,
    {
        self.duplicate()
    }
}

/// A browser session of a local operator.
#[derive(Debug, PartialEq, Eq)]
pub struct LocalSession {
    pub session_id: String,
    pub operator: LocalOperator,
    pub csrf_secret: String,
    pub expires_at_ms: i64,
}

/// What a `LocalSession` stands for.
#[verifier::ext_equal]
pub struct LocalSessionView {
    pub session_id: Seq<char>,
    pub operator: LocalOperatorView,
    pub csrf_secret: Seq<char>,
    pub expires_at_ms: i64,
}

impl View for LocalSession {
    type V = LocalSessionView;

    open spec fn view(&self) -> LocalSessionView {
        LocalSessionView {
            session_id: self.session_id@,
            operator: self.operator@,
            csrf_secret: self.csrf_secret@,
            expires_at_ms: self.expires_at_ms,
        }
    }
}

impl Duplicate for LocalSession {
    fn duplicate(&self) -> (copy: LocalSession) {
        LocalSession {
            session_id: self.session_id.clone(),
            operator: self.operator.duplicate(),
            csrf_secret: self.csrf_secret.clone(),
            expires_at_ms: self.expires_at_ms,
        }
    }
}

impl Clone for LocalSession {
    fn clone(&self) -> (copy: LocalSession)
        ensures
            copy@ == self@,
    {
        self.duplicate()
    }
}

/// What became of a requested operation.
#[derive(Debug, PartialEq, Eq)]
pub enum OperationCreateOutcome {
    Created(OperationRecord),
    Existing(OperationRecord),
    Conflict,
    Stale,
}

/// What an `OperationCreateOutcome` stands for.
#[verifier::ext_equal]
pub enum OperationCreateOutcomeView {
    Created(OperationRecordView),
    Existing(OperationRecordView),
    Conflict,
    Stale,
}

impl View for OperationCreateOutcome {
    type V = OperationCreateOutcomeView;

    open spec fn view(&self) -> OperationCreateOutcomeView {
        match self {
            OperationCreateOutcome::Created(record) => OperationCreateOutcomeView::Created(record@),
            OperationCreateOutcome::Existing(record) => OperationCreateOutcomeView::Existing(
                record@,
            ),
            OperationCreateOutcome::Conflict => OperationCreateOutcomeView::Conflict,
            OperationCreateOutcome::Stale => OperationCreateOutcomeView::Stale,
        }
    }
}

impl Clone for OperationCreateOutcome {
    fn clone(&self) -> (copy: OperationCreateOutcome)
        ensures
            copy@ == self@,
    {
        match self {
            OperationCreateOutcome::Created(record) => OperationCreateOutcome::Created(
                record.duplicate(),
            ),
            OperationCreateOutcome::Existing(record) => OperationCreateOutcome::Existing(
                record.duplicate(),
            ),
            OperationCreateOutcome::Conflict => OperationCreateOutcome::Conflict,
            OperationCreateOutcome::Stale => OperationCreateOutcome::Stale,
        }
    }
}

/// What became of a decision on an operation approval.
#[derive(Debug, PartialEq, Eq)]
pub enum OperationDecisionOutcome {
    Applied(OperationApprovalRecord),
    Replayed(OperationApprovalRecord),
    Conflict,
    NotFound,
    StalePolicy,
}

/// What an `OperationDecisionOutcome` stands for.
#[verifier::ext_equal]
pub enum OperationDecisionOutcomeView {
    Applied(OperationApprovalRecordView),
    Replayed(OperationApprovalRecordView),
    Conflict,
    NotFound,
    StalePolicy,
}

impl View for OperationDecisionOutcome {
    type V = OperationDecisionOutcomeView;

    open spec fn view(&self) -> OperationDecisionOutcomeView {
        match self {
            OperationDecisionOutcome::Applied(record) => OperationDecisionOutcomeView::Applied(
                record@,
            ),
            OperationDecisionOutcome::Replayed(record) => OperationDecisionOutcomeView::Replayed(
                record@,
            ),
            OperationDecisionOutcome::Conflict => OperationDecisionOutcomeView::Conflict,
            OperationDecisionOutcome::NotFound => OperationDecisionOutcomeView::NotFound,
            OperationDecisionOutcome::StalePolicy => OperationDecisionOutcomeView::StalePolicy,
        }
    }
}

impl Clone for OperationDecisionOutcome {
    fn clone(&self) -> (copy: OperationDecisionOutcome)
        ensures
            copy@ == self@,
    {
        match self {
            OperationDecisionOutcome::Applied(record) => OperationDecisionOutcome::Applied(
                record.duplicate(),
            ),
            OperationDecisionOutcome::Replayed(record) => OperationDecisionOutcome::Replayed(
                record.duplicate(),
            ),
            OperationDecisionOutcome::Conflict => OperationDecisionOutcome::Conflict,
            OperationDecisionOutcome::NotFound => OperationDecisionOutcome::NotFound,
            OperationDecisionOutcome::StalePolicy => OperationDecisionOutcome::StalePolicy,
        }
    }
}

/// What became of a decision on an approval.
#[derive(Debug, PartialEq, Eq)]
pub enum ApprovalDecisionOutcome {
    Applied(ApprovalRecord),
    Replayed(ApprovalRecord),
    Conflict,
    NotFound,
}

/// What an `ApprovalDecisionOutcome` stands for.
#[verifier::ext_equal]
pub enum ApprovalDecisionOutcomeView {
    Applied(ApprovalRecordView),
    Replayed(ApprovalRecordView),
    Conflict,
    NotFound,
}

impl View for ApprovalDecisionOutcome {
    type V = ApprovalDecisionOutcomeView;

    open spec fn view(&self) -> ApprovalDecisionOutcomeView {
        match self {
            ApprovalDecisionOutcome::Applied(record) => ApprovalDecisionOutcomeView::Applied(
                record@,
            ),
            ApprovalDecisionOutcome::Replayed(record) => ApprovalDecisionOutcomeView::Replayed(
                record@,
            ),
            ApprovalDecisionOutcome::Conflict => ApprovalDecisionOutcomeView::Conflict,
            ApprovalDecisionOutcome::NotFound => ApprovalDecisionOutcomeView::NotFound,
        }
    }
}

impl Clone for ApprovalDecisionOutcome {
    fn clone(&self) -> (copy: ApprovalDecisionOutcome)
        ensures
            copy@ == self@,
    {
        match self {
            ApprovalDecisionOutcome::Applied(record) => ApprovalDecisionOutcome::Applied(
                record.duplicate(),
            ),
            ApprovalDecisionOutcome::Replayed(record) => ApprovalDecisionOutcome::Replayed(
                record.duplicate(),
            ),
            ApprovalDecisionOutcome::Conflict => ApprovalDecisionOutcome::Conflict,
            ApprovalDecisionOutcome::NotFound => ApprovalDecisionOutcome::NotFound,
        }
    }
}

/// What became of a group of grants to be issued.
#[derive(Debug, PartialEq, Eq)]
pub enum GrantIssueOutcome {
    Issued(Vec<String>),
    Existing(Vec<String>),
    Stale,
    Conflict,
}

/// What a `GrantIssueOutcome` stands for.
#[verifier::ext_equal]
pub enum GrantIssueOutcomeView {
    Issued(Seq<Seq<char>>),
    Existing(Seq<Seq<char>>),
    Stale,
    Conflict,
}

impl View for GrantIssueOutcome {
    type V = GrantIssueOutcomeView;

    open spec fn view(&self) -> GrantIssueOutcomeView {
        match self {
            GrantIssueOutcome::Issued(ids) => GrantIssueOutcomeView::Issued(texts(ids@)),
            GrantIssueOutcome::Existing(ids) => GrantIssueOutcomeView::Existing(texts(ids@)),
            GrantIssueOutcome::Stale => GrantIssueOutcomeView::Stale,
            GrantIssueOutcome::Conflict => GrantIssueOutcomeView::Conflict,
        }
    }
}

impl Clone for GrantIssueOutcome {
    fn clone(&self) -> (copy: GrantIssueOutcome)
        ensures
            copy@ == self@,
    {
        match self {
            GrantIssueOutcome::Issued(ids) => GrantIssueOutcome::Issued(copy_texts(ids)),
            GrantIssueOutcome::Existing(ids) => GrantIssueOutcome::Existing(copy_texts(ids)),
            GrantIssueOutcome::Stale => GrantIssueOutcome::Stale,
            GrantIssueOutcome::Conflict => GrantIssueOutcome::Conflict,
        }
    }
}

/// What became of a grant to be revoked.
#[derive(Debug, PartialEq, Eq)]
pub enum GrantRevocationOutcome {
    /// The grant is revoked; `offline` tells that its node was not seen lately.
    Revoked { grant_id: String, offline: bool },
    /// The grant was consumed; its consumer may live on for that long.
    Consumed { grant_id: String, consumer_lifetime_seconds: i64 },
    NotFound,
    Conflict,
}

/// What a `GrantRevocationOutcome` stands for.
#[verifier::ext_equal]
pub enum GrantRevocationOutcomeView {
    Revoked { grant_id: Seq<char>, offline: bool },
    Consumed { grant_id: Seq<char>, consumer_lifetime_seconds: i64 },
    NotFound,
    Conflict,
}

impl View for GrantRevocationOutcome {
    type V = GrantRevocationOutcomeView;

    open spec fn view(&self) -> GrantRevocationOutcomeView {
        match self {
            GrantRevocationOutcome::Revoked { grant_id, offline } => {
                GrantRevocationOutcomeView::Revoked { grant_id: grant_id@, offline: *offline }
            },
            GrantRevocationOutcome::Consumed { grant_id, consumer_lifetime_seconds } => {
                GrantRevocationOutcomeView::Consumed {
                    grant_id: grant_id@,
                    consumer_lifetime_seconds: *consumer_lifetime_seconds,
                }
            },
            GrantRevocationOutcome::NotFound => GrantRevocationOutcomeView::NotFound,
            GrantRevocationOutcome::Conflict => GrantRevocationOutcomeView::Conflict,
        }
    }
}

impl Clone for GrantRevocationOutcome {
    fn clone(&self) -> (copy: GrantRevocationOutcome)
        ensures
            copy@ == self@,
    {
        match self {
            GrantRevocationOutcome::Revoked { grant_id, offline } => {
                GrantRevocationOutcome::Revoked { grant_id: grant_id.clone(), offline: *offline }
            },
            GrantRevocationOutcome::Consumed { grant_id, consumer_lifetime_seconds } => {
                GrantRevocationOutcome::Consumed {
                    grant_id: grant_id.clone(),
                    consumer_lifetime_seconds: *consumer_lifetime_seconds,
                }
            },
            GrantRevocationOutcome::NotFound => GrantRevocationOutcome::NotFound,
            GrantRevocationOutcome::Conflict => GrantRevocationOutcome::Conflict,
        }
    }
}

} // verus!
