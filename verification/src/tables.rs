//! The rows of the controller's tables.

use crate::records::{
    AgentCredential, AgentCredentialView, ApprovalRecord, ApprovalRecordView, EnrollmentRecord,
    EnrollmentRecordView, ExchangeRecord, ExchangeRecordView, FleetPolicyRecord,
    FleetPolicyRecordView, GrantRecord, GrantRecordView, LocalOperator, LocalOperatorView,
    NodeChallenge, NodeChallengeView, OperationApprovalRecord, OperationApprovalRecordView,
    OperationRecord, OperationRecordView, PolicyDocumentRecord, PolicyDocumentRecordView,
    WorkloadRecord, WorkloadRecordView,
};
use crate::relation::{copy_option, option_view, Duplicate};
use crate::text::{copy_optional, optional_text};
use vstd::prelude::*;

verus! {

/// A row of the operators table.
#[derive(Debug, PartialEq, Eq)]
pub struct OperatorRow {
    pub operator: LocalOperator,
    pub created_at_ms: i64,
}

/// What an `OperatorRow` stands for.
#[verifier::ext_equal]
pub struct OperatorRowView {
    pub operator: LocalOperatorView,
    pub created_at_ms: i64,
}

impl View for OperatorRow {
    type V = OperatorRowView;

    open spec fn view(&self) -> OperatorRowView {
        OperatorRowView {
            operator: self.operator@,
            created_at_ms: self.created_at_ms,
        }
    }
}

impl Duplicate for OperatorRow {
    fn duplicate(&self) -> (copy: OperatorRow) {
        OperatorRow {
            operator: self.operator.duplicate(),
            created_at_ms: self.created_at_ms,
        }
    }
}

impl Clone for OperatorRow {
    fn clone(&self) -> (copy: OperatorRow)
        ensures
            copy@ == self@,
    {
        self.duplicate()
    }
}

/// A row of the bootstrap tokens table.
#[derive(Debug, PartialEq, Eq)]
pub struct BootstrapTokenRow {
    pub token_hash: String,
    pub expires_at_ms: i64,
    pub used_at_ms: Option<i64>,
}

/// What a `BootstrapTokenRow` stands for.
#[verifier::ext_equal]
pub struct BootstrapTokenRowView {
    pub token_hash: Seq<char>,
    pub expires_at_ms: i64,
    pub used_at_ms: Option<i64>,
}

impl View for BootstrapTokenRow {
    type V = BootstrapTokenRowView;

    open spec fn view(&self) -> BootstrapTokenRowView {
        BootstrapTokenRowView {
            token_hash: self.token_hash@,
            expires_at_ms: self.expires_at_ms,
            used_at_ms: self.used_at_ms,
        }
    }
}

impl Duplicate for BootstrapTokenRow {
    fn duplicate(&self) -> (copy: BootstrapTokenRow) {
        BootstrapTokenRow {
            token_hash: self.token_hash.clone(),
            expires_at_ms: self.expires_at_ms,
            used_at_ms: self.used_at_ms,
        }
    }
}

impl Clone for BootstrapTokenRow {
    fn clone(&self) -> (copy: BootstrapTokenRow)
        ensures
            copy@ == self@,
    {
        self.duplicate()
    }
}

/// A row of the operator sessions table.
#[derive(Debug, PartialEq, Eq)]
pub struct SessionRow {
    pub id: String,
    pub operator_id: String,
    pub refresh_hash: String,
    pub csrf_secret: String,
    pub kind: String,
    pub created_at_ms: i64,
    pub expires_at_ms: i64,
    pub rotated_from: Option<String>,
    pub family_id: String,
    pub last_seen_at_ms: i64,
    pub revoked_at_ms: Option<i64>,
}

/// What a `SessionRow` stands for.
#[verifier::ext_equal]
pub struct SessionRowView {
    pub id: Seq<char>,
    pub operator_id: Seq<char>,
    pub refresh_hash: Seq<char>,
    pub csrf_secret: Seq<char>,
    pub kind: Seq<char>,
    pub created_at_ms: i64,
    pub expires_at_ms: i64,
    pub rotated_from: Option<Seq<char>>,
    pub family_id: Seq<char>,
    pub last_seen_at_ms: i64,
    pub revoked_at_ms: Option<i64>,
}

impl View for SessionRow {
    type V = SessionRowView;

    open spec fn view(&self) -> SessionRowView {
        SessionRowView {
            id: self.id@,
            operator_id: self.operator_id@,
            refresh_hash: self.refresh_hash@,
            csrf_secret: self.csrf_secret@,
            kind: self.kind@,
            created_at_ms: self.created_at_ms,
            expires_at_ms: self.expires_at_ms,
            rotated_from: optional_text(self.rotated_from),
            family_id: self.family_id@,
            last_seen_at_ms: self.last_seen_at_ms,
            revoked_at_ms: self.revoked_at_ms,
        }
    }
}

impl Duplicate for SessionRow {
    fn duplicate(&self) -> (copy: SessionRow) {
        SessionRow {
            id: self.id.clone(),
            operator_id: self.operator_id.clone(),
            refresh_hash: self.refresh_hash.clone(),
            csrf_secret: self.csrf_secret.clone(),
            kind: self.kind.clone(),
            created_at_ms: self.created_at_ms,
            expires_at_ms: self.expires_at_ms,
            rotated_from: copy_optional(&self.rotated_from),
            family_id: self.family_id.clone(),
            last_seen_at_ms: self.last_seen_at_ms,
            revoked_at_ms: self.revoked_at_ms,
        }
    }
}

impl Clone for SessionRow {
    fn clone(&self) -> (copy: SessionRow)
        ensures
            copy@ == self@,
    {
        self.duplicate()
    }
}

/// A row of the agents table.
#[derive(Debug, PartialEq, Eq)]
pub struct AgentRow {
    pub tenant_id: String,
    pub ring: Option<String>,
    pub rotated_at_ms: Option<i64>,
    pub credential: AgentCredential,
}

/// What an `AgentRow` stands for.
#[verifier::ext_equal]
pub struct AgentRowView {
    pub tenant_id: Seq<char>,
    pub ring: Option<Seq<char>>,
    pub rotated_at_ms: Option<i64>,
    pub credential: AgentCredentialView,
}

impl View for AgentRow {
    type V = AgentRowView;

    open spec fn view(&self) -> AgentRowView {
        AgentRowView {
            tenant_id: self.tenant_id@,
            ring: optional_text(self.ring),
            rotated_at_ms: self.rotated_at_ms,
            credential: self.credential@,
        }
    }
}

impl Duplicate for AgentRow {
    fn duplicate(&self) -> (copy: AgentRow) {
        AgentRow {
            tenant_id: self.tenant_id.clone(),
            ring: copy_optional(&self.ring),
            rotated_at_ms: self.rotated_at_ms,
            credential: self.credential.duplicate(),
        }
    }
}

impl Clone for AgentRow {
    fn clone(&self) -> (copy: AgentRow)
        ensures
            copy@ == self@,
    {
        self.duplicate()
    }
}

/// A row of the secret requests table.
#[derive(Debug, PartialEq, Eq)]
pub struct SecretRequestRow {
    pub id: String,
    pub tenant_id: String,
    pub requester_agent_id: String,
    pub public_key: String,
    pub description: String,
    pub confirmation_code: String,
    pub status: String,
    pub require_user_auth: bool,
    pub created_at_ms: i64,
    pub expires_at_ms: i64,
    pub submitted_at_ms: Option<i64>,
    pub enc: Option<String>,
    pub ciphertext: Option<String>,
}

/// What a `SecretRequestRow` stands for.
#[verifier::ext_equal]
pub struct SecretRequestRowView {
    pub id: Seq<char>,
    pub tenant_id: Seq<char>,
    pub requester_agent_id: Seq<char>,
    pub public_key: Seq<char>,
    pub description: Seq<char>,
    pub confirmation_code: Seq<char>,
    pub status: Seq<char>,
    pub require_user_auth: bool,
    pub created_at_ms: i64,
    pub expires_at_ms: i64,
    pub submitted_at_ms: Option<i64>,
    pub enc: Option<Seq<char>>,
    pub ciphertext: Option<Seq<char>>,
}

impl View for SecretRequestRow {
    type V = SecretRequestRowView;

    open spec fn view(&self) -> SecretRequestRowView {
        SecretRequestRowView {
            id: self.id@,
            tenant_id: self.tenant_id@,
            requester_agent_id: self.requester_agent_id@,
            public_key: self.public_key@,
            description: self.description@,
            confirmation_code: self.confirmation_code@,
            status: self.status@,
            require_user_auth: self.require_user_auth,
            created_at_ms: self.created_at_ms,
            expires_at_ms: self.expires_at_ms,
            submitted_at_ms: self.submitted_at_ms,
            enc: optional_text(self.enc),
            ciphertext: optional_text(self.ciphertext),
        }
    }
}

impl Duplicate for SecretRequestRow {
    fn duplicate(&self) -> (copy: SecretRequestRow) {
        SecretRequestRow {
            id: self.id.clone(),
            tenant_id: self.tenant_id.clone(),
            requester_agent_id: self.requester_agent_id.clone(),
            public_key: self.public_key.clone(),
            description: self.description.clone(),
            confirmation_code: self.confirmation_code.clone(),
            status: self.status.clone(),
            require_user_auth: self.require_user_auth,
            created_at_ms: self.created_at_ms,
            expires_at_ms: self.expires_at_ms,
            submitted_at_ms: self.submitted_at_ms,
            enc: copy_optional(&self.enc),
            ciphertext: copy_optional(&self.ciphertext),
        }
    }
}

impl Clone for SecretRequestRow {
    fn clone(&self) -> (copy: SecretRequestRow)
        ensures
            copy@ == self@,
    {
        self.duplicate()
    }
}

/// A row of the exchanges table. `policy_readable` tells whether the stored policy
/// text is a policy.
#[derive(Debug, PartialEq, Eq)]
pub struct ExchangeRow {
    pub policy_readable: bool,
    pub record: ExchangeRecord,
}

/// What an `ExchangeRow` stands for.
#[verifier::ext_equal]
pub struct ExchangeRowView {
    pub policy_readable: bool,
    pub record: ExchangeRecordView,
}

impl View for ExchangeRow {
    type V = ExchangeRowView;

    open spec fn view(&self) -> ExchangeRowView {
        ExchangeRowView {
            policy_readable: self.policy_readable,
            record: self.record@,
        }
    }
}

impl Duplicate for ExchangeRow {
    fn duplicate(&self) -> (copy: ExchangeRow) {
        ExchangeRow {
            policy_readable: self.policy_readable,
            record: self.record.duplicate(),
        }
    }
}

impl Clone for ExchangeRow {
    fn clone(&self) -> (copy: ExchangeRow)
        ensures
            copy@ == self@,
    {
        self.duplicate()
    }
}

/// A row of the approvals table.
#[derive(Debug, PartialEq, Eq)]
pub struct ApprovalRow {
    pub reference: String,
    pub requester_agent_id: String,
    pub tenant_id: String,
    pub secret_name: String,
    pub purpose: String,
    pub fulfiller_hint: String,
    pub rule_id: Option<String>,
    pub reason: String,
    pub requester_ring: Option<String>,
    pub fulfiller_ring: Option<String>,
    pub approver_ids_json: String,
    pub approver_rings_json: String,
    pub status: String,
    pub created_at_ms: i64,
    pub expires_at_ms: i64,
    pub decided_at_ms: Option<i64>,
    pub decided_by: Option<String>,
}

/// What an `ApprovalRow` stands for.
#[verifier::ext_equal]
pub struct ApprovalRowView {
    pub reference: Seq<char>,
    pub requester_agent_id: Seq<char>,
    pub tenant_id: Seq<char>,
    pub secret_name: Seq<char>,
    pub purpose: Seq<char>,
    pub fulfiller_hint: Seq<char>,
    pub rule_id: Option<Seq<char>>,
    pub reason: Seq<char>,
    pub requester_ring: Option<Seq<char>>,
    pub fulfiller_ring: Option<Seq<char>>,
    pub approver_ids_json: Seq<char>,
    pub approver_rings_json: Seq<char>,
    pub status: Seq<char>,
    pub created_at_ms: i64,
    pub expires_at_ms: i64,
    pub decided_at_ms: Option<i64>,
    pub decided_by: Option<Seq<char>>,
}

impl View for ApprovalRow {
    type V = ApprovalRowView;

    open spec fn view(&self) -> ApprovalRowView {
        ApprovalRowView {
            reference: self.reference@,
            requester_agent_id: self.requester_agent_id@,
            tenant_id: self.tenant_id@,
            secret_name: self.secret_name@,
            purpose: self.purpose@,
            fulfiller_hint: self.fulfiller_hint@,
            rule_id: optional_text(self.rule_id),
            reason: self.reason@,
            requester_ring: optional_text(self.requester_ring),
            fulfiller_ring: optional_text(self.fulfiller_ring),
            approver_ids_json: self.approver_ids_json@,
            approver_rings_json: self.approver_rings_json@,
            status: self.status@,
            created_at_ms: self.created_at_ms,
            expires_at_ms: self.expires_at_ms,
            decided_at_ms: self.decided_at_ms,
            decided_by: optional_text(self.decided_by),
        }
    }
}

impl Duplicate for ApprovalRow {
    fn duplicate(&self) -> (copy: ApprovalRow) {
        ApprovalRow {
            reference: self.reference.clone(),
            requester_agent_id: self.requester_agent_id.clone(),
            tenant_id: self.tenant_id.clone(),
            secret_name: self.secret_name.clone(),
            purpose: self.purpose.clone(),
            fulfiller_hint: self.fulfiller_hint.clone(),
            rule_id: copy_optional(&self.rule_id),
            reason: self.reason.clone(),
            requester_ring: copy_optional(&self.requester_ring),
            fulfiller_ring: copy_optional(&self.fulfiller_ring),
            approver_ids_json: self.approver_ids_json.clone(),
            approver_rings_json: self.approver_rings_json.clone(),
            status: self.status.clone(),
            created_at_ms: self.created_at_ms,
            expires_at_ms: self.expires_at_ms,
            decided_at_ms: self.decided_at_ms,
            decided_by: copy_optional(&self.decided_by),
        }
    }
}

impl Clone for ApprovalRow {
    fn clone(&self) -> (copy: ApprovalRow)
        ensures
            copy@ == self@,
    {
        self.duplicate()
    }
}

/// A row of the policies table.
#[derive(Debug, PartialEq, Eq)]
pub struct PolicyRow {
    pub tenant_id: String,
    pub source: String,
    pub document: PolicyDocumentRecord,
}

/// What a `PolicyRow` stands for.
#[verifier::ext_equal]
pub struct PolicyRowView {
    pub tenant_id: Seq<char>,
    pub source: Seq<char>,
    pub document: PolicyDocumentRecordView,
}

impl View for PolicyRow {
    type V = PolicyRowView;

    open spec fn view(&self) -> PolicyRowView {
        PolicyRowView {
            tenant_id: self.tenant_id@,
            source: self.source@,
            document: self.document@,
        }
    }
}

impl Duplicate for PolicyRow {
    fn duplicate(&self) -> (copy: PolicyRow) {
        PolicyRow {
            tenant_id: self.tenant_id.clone(),
            source: self.source.clone(),
            document: self.document.duplicate(),
        }
    }
}

impl Clone for PolicyRow {
    fn clone(&self) -> (copy: PolicyRow)
        ensures
            copy@ == self@,
    {
        self.duplicate()
    }
}

/// A row of the exchange lifecycle table.
#[derive(Debug, PartialEq, Eq)]
pub struct LifecycleRow {
    pub id: String,
    pub tenant_id: String,
    pub exchange_id: Option<String>,
    pub event: String,
    pub actor_id: Option<String>,
    pub metadata_json: String,
    pub created_at_ms: i64,
}

/// What a `LifecycleRow` stands for.
#[verifier::ext_equal]
pub struct LifecycleRowView {
    pub id: Seq<char>,
    pub tenant_id: Seq<char>,
    pub exchange_id: Option<Seq<char>>,
    pub event: Seq<char>,
    pub actor_id: Option<Seq<char>>,
    pub metadata_json: Seq<char>,
    pub created_at_ms: i64,
}

impl View for LifecycleRow {
    type V = LifecycleRowView;

    open spec fn view(&self) -> LifecycleRowView {
        LifecycleRowView {
            id: self.id@,
            tenant_id: self.tenant_id@,
            exchange_id: optional_text(self.exchange_id),
            event: self.event@,
            actor_id: optional_text(self.actor_id),
            metadata_json: self.metadata_json@,
            created_at_ms: self.created_at_ms,
        }
    }
}

impl Duplicate for LifecycleRow {
    fn duplicate(&self) -> (copy: LifecycleRow) {
        LifecycleRow {
            id: self.id.clone(),
            tenant_id: self.tenant_id.clone(),
            exchange_id: copy_optional(&self.exchange_id),
            event: self.event.clone(),
            actor_id: copy_optional(&self.actor_id),
            metadata_json: self.metadata_json.clone(),
            created_at_ms: self.created_at_ms,
        }
    }
}

impl Clone for LifecycleRow {
    fn clone(&self) -> (copy: LifecycleRow)
        ensures
            copy@ == self@,
    {
        self.duplicate()
    }
}

/// A row of the audit events table.
#[derive(Debug, PartialEq, Eq)]
pub struct AuditRow {
    pub id: String,
    pub tenant_id: String,
    pub actor_type: String,
    pub actor_id: Option<String>,
    pub action: String,
    pub target_type: String,
    pub target_id: Option<String>,
    pub metadata_json: String,
    pub created_at_ms: i64,
}

/// What an `AuditRow` stands for.
#[verifier::ext_equal]
pub struct AuditRowView {
    pub id: Seq<char>,
    pub tenant_id: Seq<char>,
    pub actor_type: Seq<char>,
    pub actor_id: Option<Seq<char>>,
    pub action: Seq<char>,
    pub target_type: Seq<char>,
    pub target_id: Option<Seq<char>>,
    pub metadata_json: Seq<char>,
    pub created_at_ms: i64,
}

impl View for AuditRow {
    type V = AuditRowView;

    open spec fn view(&self) -> AuditRowView {
        AuditRowView {
            id: self.id@,
            tenant_id: self.tenant_id@,
            actor_type: self.actor_type@,
            actor_id: optional_text(self.actor_id),
            action: self.action@,
            target_type: self.target_type@,
            target_id: optional_text(self.target_id),
            metadata_json: self.metadata_json@,
            created_at_ms: self.created_at_ms,
        }
    }
}

impl Duplicate for AuditRow {
    fn duplicate(&self) -> (copy: AuditRow) {
        AuditRow {
            id: self.id.clone(),
            tenant_id: self.tenant_id.clone(),
            actor_type: self.actor_type.clone(),
            actor_id: copy_optional(&self.actor_id),
            action: self.action.clone(),
            target_type: self.target_type.clone(),
            target_id: copy_optional(&self.target_id),
            metadata_json: self.metadata_json.clone(),
            created_at_ms: self.created_at_ms,
        }
    }
}

impl Clone for AuditRow {
    fn clone(&self) -> (copy: AuditRow)
        ensures
            copy@ == self@,
    {
        self.duplicate()
    }
}

/// A row of the rate windows table.
#[derive(Debug, PartialEq, Eq)]
pub struct RateWindowRow {
    pub key: String,
    pub window_start_ms: i64,
    pub count: i64,
    pub expires_at_ms: i64,
}

/// What a `RateWindowRow` stands for.
#[verifier::ext_equal]
pub struct RateWindowRowView {
    pub key: Seq<char>,
    pub window_start_ms: i64,
    pub count: i64,
    pub expires_at_ms: i64,
}

impl View for RateWindowRow {
    type V = RateWindowRowView;

    open spec fn view(&self) -> RateWindowRowView {
        RateWindowRowView {
            key: self.key@,
            window_start_ms: self.window_start_ms,
            count: self.count,
            expires_at_ms: self.expires_at_ms,
        }
    }
}

impl Duplicate for RateWindowRow {
    fn duplicate(&self) -> (copy: RateWindowRow) {
        RateWindowRow {
            key: self.key.clone(),
            window_start_ms: self.window_start_ms,
            count: self.count,
            expires_at_ms: self.expires_at_ms,
        }
    }
}

impl Clone for RateWindowRow {
    fn clone(&self) -> (copy: RateWindowRow)
        ensures
            copy@ == self@,
    {
        self.duplicate()
    }
}

/// A row of the idempotency keys table. The response is absent where the stored text
/// is not an approval.
#[derive(Debug, PartialEq, Eq)]
pub struct IdempotencyRow {
    pub tenant_id: String,
    pub actor_id: String,
    pub operation: String,
    pub key_hash: String,
    pub request_hash: String,
    pub response: Option<ApprovalRecord>,
    pub created_at_ms: i64,
    pub expires_at_ms: i64,
}

/// What an `IdempotencyRow` stands for.
#[verifier::ext_equal]
pub struct IdempotencyRowView {
    pub tenant_id: Seq<char>,
    pub actor_id: Seq<char>,
    pub operation: Seq<char>,
    pub key_hash: Seq<char>,
    pub request_hash: Seq<char>,
    pub response: Option<ApprovalRecordView>,
    pub created_at_ms: i64,
    pub expires_at_ms: i64,
}

impl View for IdempotencyRow {
    type V = IdempotencyRowView;

    open spec fn view(&self) -> IdempotencyRowView {
        IdempotencyRowView {
            tenant_id: self.tenant_id@,
            actor_id: self.actor_id@,
            operation: self.operation@,
            key_hash: self.key_hash@,
            request_hash: self.request_hash@,
            response: option_view(self.response),
            created_at_ms: self.created_at_ms,
            expires_at_ms: self.expires_at_ms,
        }
    }
}

impl Duplicate for IdempotencyRow {
    fn duplicate(&self) -> (copy: IdempotencyRow) {
        IdempotencyRow {
            tenant_id: self.tenant_id.clone(),
            actor_id: self.actor_id.clone(),
            operation: self.operation.clone(),
            key_hash: self.key_hash.clone(),
            request_hash: self.request_hash.clone(),
            response: copy_option(&self.response),
            created_at_ms: self.created_at_ms,
            expires_at_ms: self.expires_at_ms,
        }
    }
}

impl Clone for IdempotencyRow {
    fn clone(&self) -> (copy: IdempotencyRow)
        ensures
            copy@ == self@,
    {
        self.duplicate()
    }
}

/// A row of the enrollment requests table.
#[derive(Debug, PartialEq, Eq)]
pub struct EnrollmentRow {
    pub tenant_id: String,
    pub token_hash: String,
    pub record: EnrollmentRecord,
}

/// What an `EnrollmentRow` stands for.
#[verifier::ext_equal]
pub struct EnrollmentRowView {
    pub tenant_id: Seq<char>,
    pub token_hash: Seq<char>,
    pub record: EnrollmentRecordView,
}

impl View for EnrollmentRow {
    type V = EnrollmentRowView;

    open spec fn view(&self) -> EnrollmentRowView {
        EnrollmentRowView {
            tenant_id: self.tenant_id@,
            token_hash: self.token_hash@,
            record: self.record@,
        }
    }
}

impl Duplicate for EnrollmentRow {
    fn duplicate(&self) -> (copy: EnrollmentRow) {
        EnrollmentRow {
            tenant_id: self.tenant_id.clone(),
            token_hash: self.token_hash.clone(),
            record: self.record.duplicate(),
        }
    }
}

impl Clone for EnrollmentRow {
    fn clone(&self) -> (copy: EnrollmentRow)
        ensures
            copy@ == self@,
    {
        self.duplicate()
    }
}

/// A row of the nodes table.
#[derive(Debug, PartialEq, Eq)]
pub struct NodeRow {
    pub tenant_id: String,
    pub id: String,
    pub name: String,
    pub signing_pub: String,
    pub recipient_pub: String,
    pub key_version: i64,
    pub status: String,
    pub protocol_version: String,
    pub capabilities_json: String,
    pub last_seen_at_ms: Option<i64>,
    pub last_poll_at_ms: Option<i64>,
    pub created_at_ms: i64,
    pub revoked_at_ms: Option<i64>,
    pub version: i64,
}

/// What a `NodeRow` stands for.
#[verifier::ext_equal]
pub struct NodeRowView {
    pub tenant_id: Seq<char>,
    pub id: Seq<char>,
    pub name: Seq<char>,
    pub signing_pub: Seq<char>,
    pub recipient_pub: Seq<char>,
    pub key_version: i64,
    pub status: Seq<char>,
    pub protocol_version: Seq<char>,
    pub capabilities_json: Seq<char>,
    pub last_seen_at_ms: Option<i64>,
    pub last_poll_at_ms: Option<i64>,
    pub created_at_ms: i64,
    pub revoked_at_ms: Option<i64>,
    pub version: i64,
}

impl View for NodeRow {
    type V = NodeRowView;

    open spec fn view(&self) -> NodeRowView {
        NodeRowView {
            tenant_id: self.tenant_id@,
            id: self.id@,
            name: self.name@,
            signing_pub: self.signing_pub@,
            recipient_pub: self.recipient_pub@,
            key_version: self.key_version,
            status: self.status@,
            protocol_version: self.protocol_version@,
            capabilities_json: self.capabilities_json@,
            last_seen_at_ms: self.last_seen_at_ms,
            last_poll_at_ms: self.last_poll_at_ms,
            created_at_ms: self.created_at_ms,
            revoked_at_ms: self.revoked_at_ms,
            version: self.version,
        }
    }
}

impl Duplicate for NodeRow {
    fn duplicate(&self) -> (copy: NodeRow) {
        NodeRow {
            tenant_id: self.tenant_id.clone(),
            id: self.id.clone(),
            name: self.name.clone(),
            signing_pub: self.signing_pub.clone(),
            recipient_pub: self.recipient_pub.clone(),
            key_version: self.key_version,
            status: self.status.clone(),
            protocol_version: self.protocol_version.clone(),
            capabilities_json: self.capabilities_json.clone(),
            last_seen_at_ms: self.last_seen_at_ms,
            last_poll_at_ms: self.last_poll_at_ms,
            created_at_ms: self.created_at_ms,
            revoked_at_ms: self.revoked_at_ms,
            version: self.version,
        }
    }
}

impl Clone for NodeRow {
    fn clone(&self) -> (copy: NodeRow)
        ensures
            copy@ == self@,
    {
        self.duplicate()
    }
}

/// A row of the node key history table.
#[derive(Debug, PartialEq, Eq)]
pub struct NodeKeyRow {
    pub node_id: String,
    pub key_version: i64,
    pub signing_pub: String,
    pub recipient_pub: String,
    pub created_at_ms: i64,
    pub retired_at_ms: Option<i64>,
}

/// What a `NodeKeyRow` stands for.
#[verifier::ext_equal]
pub struct NodeKeyRowView {
    pub node_id: Seq<char>,
    pub key_version: i64,
    pub signing_pub: Seq<char>,
    pub recipient_pub: Seq<char>,
    pub created_at_ms: i64,
    pub retired_at_ms: Option<i64>,
}

impl View for NodeKeyRow {
    type V = NodeKeyRowView;

    open spec fn view(&self) -> NodeKeyRowView {
        NodeKeyRowView {
            node_id: self.node_id@,
            key_version: self.key_version,
            signing_pub: self.signing_pub@,
            recipient_pub: self.recipient_pub@,
            created_at_ms: self.created_at_ms,
            retired_at_ms: self.retired_at_ms,
        }
    }
}

impl Duplicate for NodeKeyRow {
    fn duplicate(&self) -> (copy: NodeKeyRow) {
        NodeKeyRow {
            node_id: self.node_id.clone(),
            key_version: self.key_version,
            signing_pub: self.signing_pub.clone(),
            recipient_pub: self.recipient_pub.clone(),
            created_at_ms: self.created_at_ms,
            retired_at_ms: self.retired_at_ms,
        }
    }
}

impl Clone for NodeKeyRow {
    fn clone(&self) -> (copy: NodeKeyRow)
        ensures
            copy@ == self@,
    {
        self.duplicate()
    }
}

/// A row of the node key rotations table.
#[derive(Debug, PartialEq, Eq)]
pub struct NodeKeyRotationRow {
    pub node_id: String,
    pub rotation_id: String,
    pub from_key_version: i64,
    pub to_key_version: i64,
    pub signing_pub: String,
    pub recipient_pub: String,
    pub fingerprint: String,
    pub created_at_ms: i64,
}

/// What a `NodeKeyRotationRow` stands for.
#[verifier::ext_equal]
pub struct NodeKeyRotationRowView {
    pub node_id: Seq<char>,
    pub rotation_id: Seq<char>,
    pub from_key_version: i64,
    pub to_key_version: i64,
    pub signing_pub: Seq<char>,
    pub recipient_pub: Seq<char>,
    pub fingerprint: Seq<char>,
    pub created_at_ms: i64,
}

impl View for NodeKeyRotationRow {
    type V = NodeKeyRotationRowView;

    open spec fn view(&self) -> NodeKeyRotationRowView {
        NodeKeyRotationRowView {
            node_id: self.node_id@,
            rotation_id: self.rotation_id@,
            from_key_version: self.from_key_version,
            to_key_version: self.to_key_version,
            signing_pub: self.signing_pub@,
            recipient_pub: self.recipient_pub@,
            fingerprint: self.fingerprint@,
            created_at_ms: self.created_at_ms,
        }
    }
}

impl Duplicate for NodeKeyRotationRow {
    fn duplicate(&self) -> (copy: NodeKeyRotationRow) {
        NodeKeyRotationRow {
            node_id: self.node_id.clone(),
            rotation_id: self.rotation_id.clone(),
            from_key_version: self.from_key_version,
            to_key_version: self.to_key_version,
            signing_pub: self.signing_pub.clone(),
            recipient_pub: self.recipient_pub.clone(),
            fingerprint: self.fingerprint.clone(),
            created_at_ms: self.created_at_ms,
        }
    }
}

impl Clone for NodeKeyRotationRow {
    fn clone(&self) -> (copy: NodeKeyRotationRow)
        ensures
            copy@ == self@,
    {
        self.duplicate()
    }
}

/// A row of the node revocation queue.
#[derive(Debug, PartialEq, Eq)]
pub struct NodeRevocationRow {
    pub node_id: String,
    pub created_at_ms: i64,
}

/// What a `NodeRevocationRow` stands for.
#[verifier::ext_equal]
pub struct NodeRevocationRowView {
    pub node_id: Seq<char>,
    pub created_at_ms: i64,
}

impl View for NodeRevocationRow {
    type V = NodeRevocationRowView;

    open spec fn view(&self) -> NodeRevocationRowView {
        NodeRevocationRowView {
            node_id: self.node_id@,
            created_at_ms: self.created_at_ms,
        }
    }
}

impl Duplicate for NodeRevocationRow {
    fn duplicate(&self) -> (copy: NodeRevocationRow) {
        NodeRevocationRow {
            node_id: self.node_id.clone(),
            created_at_ms: self.created_at_ms,
        }
    }
}

impl Clone for NodeRevocationRow {
    fn clone(&self) -> (copy: NodeRevocationRow)
        ensures
            copy@ == self@,
    {
        self.duplicate()
    }
}

/// A row of the node sessions table.
#[derive(Debug, PartialEq, Eq)]
pub struct NodeSessionRow {
    pub id: String,
    pub node_id: String,
    pub nonce_hash: String,
    pub token_hash: String,
    pub created_at_ms: i64,
    pub expires_at_ms: i64,
    pub revoked_at_ms: Option<i64>,
}

/// What a `NodeSessionRow` stands for.
#[verifier::ext_equal]
pub struct NodeSessionRowView {
    pub id: Seq<char>,
    pub node_id: Seq<char>,
    pub nonce_hash: Seq<char>,
    pub token_hash: Seq<char>,
    pub created_at_ms: i64,
    pub expires_at_ms: i64,
    pub revoked_at_ms: Option<i64>,
}

impl View for NodeSessionRow {
    type V = NodeSessionRowView;

    open spec fn view(&self) -> NodeSessionRowView {
        NodeSessionRowView {
            id: self.id@,
            node_id: self.node_id@,
            nonce_hash: self.nonce_hash@,
            token_hash: self.token_hash@,
            created_at_ms: self.created_at_ms,
            expires_at_ms: self.expires_at_ms,
            revoked_at_ms: self.revoked_at_ms,
        }
    }
}

impl Duplicate for NodeSessionRow {
    fn duplicate(&self) -> (copy: NodeSessionRow) {
        NodeSessionRow {
            id: self.id.clone(),
            node_id: self.node_id.clone(),
            nonce_hash: self.nonce_hash.clone(),
            token_hash: self.token_hash.clone(),
            created_at_ms: self.created_at_ms,
            expires_at_ms: self.expires_at_ms,
            revoked_at_ms: self.revoked_at_ms,
        }
    }
}

impl Clone for NodeSessionRow {
    fn clone(&self) -> (copy: NodeSessionRow)
        ensures
            copy@ == self@,
    {
        self.duplicate()
    }
}

/// A row of the workloads table.
#[derive(Debug, PartialEq, Eq)]
pub struct WorkloadRow {
    pub tenant_id: String,
    pub created_by: String,
    pub record: WorkloadRecord,
}

/// What a `WorkloadRow` stands for.
#[verifier::ext_equal]
pub struct WorkloadRowView {
    pub tenant_id: Seq<char>,
    pub created_by: Seq<char>,
    pub record: WorkloadRecordView,
}

impl View for WorkloadRow {
    type V = WorkloadRowView;

    open spec fn view(&self) -> WorkloadRowView {
        WorkloadRowView {
            tenant_id: self.tenant_id@,
            created_by: self.created_by@,
            record: self.record@,
        }
    }
}

impl Duplicate for WorkloadRow {
    fn duplicate(&self) -> (copy: WorkloadRow) {
        WorkloadRow {
            tenant_id: self.tenant_id.clone(),
            created_by: self.created_by.clone(),
            record: self.record.duplicate(),
        }
    }
}

impl Clone for WorkloadRow {
    fn clone(&self) -> (copy: WorkloadRow)
        ensures
            copy@ == self@,
    {
        self.duplicate()
    }
}

/// A row of the fleet policies table.
#[derive(Debug, PartialEq, Eq)]
pub struct FleetPolicyRow {
    pub tenant_id: String,
    pub record: FleetPolicyRecord,
}

/// What a `FleetPolicyRow` stands for.
#[verifier::ext_equal]
pub struct FleetPolicyRowView {
    pub tenant_id: Seq<char>,
    pub record: FleetPolicyRecordView,
}

impl View for FleetPolicyRow {
    type V = FleetPolicyRowView;

    open spec fn view(&self) -> FleetPolicyRowView {
        FleetPolicyRowView {
            tenant_id: self.tenant_id@,
            record: self.record@,
        }
    }
}

impl Duplicate for FleetPolicyRow {
    fn duplicate(&self) -> (copy: FleetPolicyRow) {
        FleetPolicyRow {
            tenant_id: self.tenant_id.clone(),
            record: self.record.duplicate(),
        }
    }
}

impl Clone for FleetPolicyRow {
    fn clone(&self) -> (copy: FleetPolicyRow)
        ensures
            copy@ == self@,
    {
        self.duplicate()
    }
}

/// A row of the operations table.
#[derive(Debug, PartialEq, Eq)]
pub struct OperationRow {
    pub tenant_id: String,
    pub record: OperationRecord,
}

/// What an `OperationRow` stands for.
#[verifier::ext_equal]
pub struct OperationRowView {
    pub tenant_id: Seq<char>,
    pub record: OperationRecordView,
}

impl View for OperationRow {
    type V = OperationRowView;

    open spec fn view(&self) -> OperationRowView {
        OperationRowView {
            tenant_id: self.tenant_id@,
            record: self.record@,
        }
    }
}

impl Duplicate for OperationRow {
    fn duplicate(&self) -> (copy: OperationRow) {
        OperationRow {
            tenant_id: self.tenant_id.clone(),
            record: self.record.duplicate(),
        }
    }
}

impl Clone for OperationRow {
    fn clone(&self) -> (copy: OperationRow)
        ensures
            copy@ == self@,
    {
        self.duplicate()
    }
}

/// A row of the operation approvals table.
#[derive(Debug, PartialEq, Eq)]
pub struct OperationApprovalRow {
    pub tenant_id: String,
    pub record: OperationApprovalRecord,
}

/// What an `OperationApprovalRow` stands for.
#[verifier::ext_equal]
pub struct OperationApprovalRowView {
    pub tenant_id: Seq<char>,
    pub record: OperationApprovalRecordView,
}

impl View for OperationApprovalRow {
    type V = OperationApprovalRowView;

    open spec fn view(&self) -> OperationApprovalRowView {
        OperationApprovalRowView {
            tenant_id: self.tenant_id@,
            record: self.record@,
        }
    }
}

impl Duplicate for OperationApprovalRow {
    fn duplicate(&self) -> (copy: OperationApprovalRow) {
        OperationApprovalRow {
            tenant_id: self.tenant_id.clone(),
            record: self.record.duplicate(),
        }
    }
}

impl Clone for OperationApprovalRow {
    fn clone(&self) -> (copy: OperationApprovalRow)
        ensures
            copy@ == self@,
    {
        self.duplicate()
    }
}

/// A row of the grants table.
#[derive(Debug, PartialEq, Eq)]
pub struct GrantRow {
    pub tenant_id: String,
    pub request_use_id: String,
    pub body_json: String,
    pub signature: String,
    pub record: GrantRecord,
}

/// What a `GrantRow` stands for.
#[verifier::ext_equal]
pub struct GrantRowView {
    pub tenant_id: Seq<char>,
    pub request_use_id: Seq<char>,
    pub body_json: Seq<char>,
    pub signature: Seq<char>,
    pub record: GrantRecordView,
}

impl View for GrantRow {
    type V = GrantRowView;

    open spec fn view(&self) -> GrantRowView {
        GrantRowView {
            tenant_id: self.tenant_id@,
            request_use_id: self.request_use_id@,
            body_json: self.body_json@,
            signature: self.signature@,
            record: self.record@,
        }
    }
}

impl Duplicate for GrantRow {
    fn duplicate(&self) -> (copy: GrantRow) {
        GrantRow {
            tenant_id: self.tenant_id.clone(),
            request_use_id: self.request_use_id.clone(),
            body_json: self.body_json.clone(),
            signature: self.signature.clone(),
            record: self.record.duplicate(),
        }
    }
}

impl Clone for GrantRow {
    fn clone(&self) -> (copy: GrantRow)
        ensures
            copy@ == self@,
    {
        self.duplicate()
    }
}

/// A row of the grant tombstones table.
#[derive(Debug, PartialEq, Eq)]
pub struct TombstoneRow {
    pub grant_id: String,
    pub node_id: String,
    pub reason: String,
    pub created_at_ms: i64,
    pub retain_until_ms: i64,
}

/// What a `TombstoneRow` stands for.
#[verifier::ext_equal]
pub struct TombstoneRowView {
    pub grant_id: Seq<char>,
    pub node_id: Seq<char>,
    pub reason: Seq<char>,
    pub created_at_ms: i64,
    pub retain_until_ms: i64,
}

impl View for TombstoneRow {
    type V = TombstoneRowView;

    open spec fn view(&self) -> TombstoneRowView {
        TombstoneRowView {
            grant_id: self.grant_id@,
            node_id: self.node_id@,
            reason: self.reason@,
            created_at_ms: self.created_at_ms,
            retain_until_ms: self.retain_until_ms,
        }
    }
}

impl Duplicate for TombstoneRow {
    fn duplicate(&self) -> (copy: TombstoneRow) {
        TombstoneRow {
            grant_id: self.grant_id.clone(),
            node_id: self.node_id.clone(),
            reason: self.reason.clone(),
            created_at_ms: self.created_at_ms,
            retain_until_ms: self.retain_until_ms,
        }
    }
}

impl Clone for TombstoneRow {
    fn clone(&self) -> (copy: TombstoneRow)
        ensures
            copy@ == self@,
    {
        self.duplicate()
    }
}

/// A row of the node inbox.
#[derive(Debug, PartialEq, Eq)]
pub struct InboxRow {
    pub node_id: String,
    pub seq: i64,
    pub envelope_json: String,
    pub created_at_ms: i64,
    pub delivered_at_ms: Option<i64>,
    pub acked_at_ms: Option<i64>,
}

/// What an `InboxRow` stands for.
#[verifier::ext_equal]
pub struct InboxRowView {
    pub node_id: Seq<char>,
    pub seq: i64,
    pub envelope_json: Seq<char>,
    pub created_at_ms: i64,
    pub delivered_at_ms: Option<i64>,
    pub acked_at_ms: Option<i64>,
}

impl View for InboxRow {
    type V = InboxRowView;

    open spec fn view(&self) -> InboxRowView {
        InboxRowView {
            node_id: self.node_id@,
            seq: self.seq,
            envelope_json: self.envelope_json@,
            created_at_ms: self.created_at_ms,
            delivered_at_ms: self.delivered_at_ms,
            acked_at_ms: self.acked_at_ms,
        }
    }
}

impl Duplicate for InboxRow {
    fn duplicate(&self) -> (copy: InboxRow) {
        InboxRow {
            node_id: self.node_id.clone(),
            seq: self.seq,
            envelope_json: self.envelope_json.clone(),
            created_at_ms: self.created_at_ms,
            delivered_at_ms: self.delivered_at_ms,
            acked_at_ms: self.acked_at_ms,
        }
    }
}

impl Clone for InboxRow {
    fn clone(&self) -> (copy: InboxRow)
        ensures
            copy@ == self@,
    {
        self.duplicate()
    }
}

/// A row of the node events table.
#[derive(Debug, PartialEq, Eq)]
pub struct NodeEventRow {
    pub id: String,
    pub node_id: String,
    pub idempotency_key: String,
    pub kind: String,
    pub body_json: String,
    pub body_hash: String,
    pub received_at_ms: i64,
}

/// What a `NodeEventRow` stands for.
#[verifier::ext_equal]
pub struct NodeEventRowView {
    pub id: Seq<char>,
    pub node_id: Seq<char>,
    pub idempotency_key: Seq<char>,
    pub kind: Seq<char>,
    pub body_json: Seq<char>,
    pub body_hash: Seq<char>,
    pub received_at_ms: i64,
}

impl View for NodeEventRow {
    type V = NodeEventRowView;

    open spec fn view(&self) -> NodeEventRowView {
        NodeEventRowView {
            id: self.id@,
            node_id: self.node_id@,
            idempotency_key: self.idempotency_key@,
            kind: self.kind@,
            body_json: self.body_json@,
            body_hash: self.body_hash@,
            received_at_ms: self.received_at_ms,
        }
    }
}

impl Duplicate for NodeEventRow {
    fn duplicate(&self) -> (copy: NodeEventRow) {
        NodeEventRow {
            id: self.id.clone(),
            node_id: self.node_id.clone(),
            idempotency_key: self.idempotency_key.clone(),
            kind: self.kind.clone(),
            body_json: self.body_json.clone(),
            body_hash: self.body_hash.clone(),
            received_at_ms: self.received_at_ms,
        }
    }
}

impl Clone for NodeEventRow {
    fn clone(&self) -> (copy: NodeEventRow)
        ensures
            copy@ == self@,
    {
        self.duplicate()
    }
}

/// A row of the node challenges table.
#[derive(Debug, PartialEq, Eq)]
pub struct ChallengeRow {
    pub nonce_hash: String,
    pub consumed_at_ms: Option<i64>,
    pub challenge: NodeChallenge,
}

/// What a `ChallengeRow` stands for.
#[verifier::ext_equal]
pub struct ChallengeRowView {
    pub nonce_hash: Seq<char>,
    pub consumed_at_ms: Option<i64>,
    pub challenge: NodeChallengeView,
}

impl View for ChallengeRow {
    type V = ChallengeRowView;

    open spec fn view(&self) -> ChallengeRowView {
        ChallengeRowView {
            nonce_hash: self.nonce_hash@,
            consumed_at_ms: self.consumed_at_ms,
            challenge: self.challenge@,
        }
    }
}

impl Duplicate for ChallengeRow {
    fn duplicate(&self) -> (copy: ChallengeRow) {
        ChallengeRow {
            nonce_hash: self.nonce_hash.clone(),
            consumed_at_ms: self.consumed_at_ms,
            challenge: self.challenge.duplicate(),
        }
    }
}

impl Clone for ChallengeRow {
    fn clone(&self) -> (copy: ChallengeRow)
        ensures
            copy@ == self@,
    {
        self.duplicate()
    }
}

} // verus!
