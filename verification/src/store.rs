//! The controller's state: its clock, its meta row and its tables.

use crate::clock::{ClockMonitorSample, PersistedClockAnchor, PersistedClockAnchorView};
use crate::error::StoreError;
use crate::keys::well_keyed;
use crate::relation::{copy_rows, rows_view, Duplicate};
use crate::tables::{
    AgentRow, AgentRowView, ApprovalRow, ApprovalRowView, AuditRow, AuditRowView,
    BootstrapTokenRow, BootstrapTokenRowView, ChallengeRow, ChallengeRowView, EnrollmentRow,
    EnrollmentRowView, ExchangeRow, ExchangeRowView, FleetPolicyRow, FleetPolicyRowView,
    GrantRow, GrantRowView, IdempotencyRow, IdempotencyRowView, InboxRow, InboxRowView,
    LifecycleRow, LifecycleRowView, NodeEventRow, NodeEventRowView, NodeKeyRotationRow,
    NodeKeyRotationRowView, NodeKeyRow, NodeKeyRowView, NodeRevocationRow,
    NodeRevocationRowView, NodeRow, NodeRowView, NodeSessionRow, NodeSessionRowView,
    OperationApprovalRow, OperationApprovalRowView, OperationRow, OperationRowView, OperatorRow,
    OperatorRowView, PolicyRow, PolicyRowView, RateWindowRow, RateWindowRowView,
    SecretRequestRow, SecretRequestRowView, SessionRow, SessionRowView, TombstoneRow,
    TombstoneRowView, WorkloadRow, WorkloadRowView,
};
use vstd::prelude::*;

verus! {

/// The one meta row of a controller.
#[derive(Debug, PartialEq, Eq)]
pub struct ControllerMeta {
    pub schema_version: i64,
    pub tenant_id: String,
    pub issuer_epoch: i64,
    pub created_at_ms: i64,
}

/// What a `ControllerMeta` stands for.
#[verifier::ext_equal]
pub struct ControllerMetaView {
    pub schema_version: i64,
    pub tenant_id: Seq<char>,
    pub issuer_epoch: i64,
    pub created_at_ms: i64,
}

impl View for ControllerMeta {
    type V = ControllerMetaView;

    open spec fn view(&self) -> ControllerMetaView {
        ControllerMetaView {
            schema_version: self.schema_version,
            tenant_id: self.tenant_id@,
            issuer_epoch: self.issuer_epoch,
            created_at_ms: self.created_at_ms,
        }
    }
}

impl Duplicate for ControllerMeta {
    fn duplicate(&self) -> (copy: ControllerMeta) {
        ControllerMeta {
            schema_version: self.schema_version,
            tenant_id: self.tenant_id.clone(),
            issuer_epoch: self.issuer_epoch,
            created_at_ms: self.created_at_ms,
        }
    }
}

impl Clone for ControllerMeta {
    fn clone(&self) -> (copy: ControllerMeta)
        ensures
            copy@ == self@,
    {
        self.duplicate()
    }
}

/// The state of one controller. Every operation is a method that reads the clock
/// first, checks expiry against the same reading and leaves the tables as they
/// were where it fails.
#[derive(Debug, PartialEq, Eq)]
pub struct Store {
    pub tenant_id: String,
    pub meta: ControllerMeta,
    pub clock: PersistedClockAnchor,
    pub clock_tolerance_ms: i64,
    pub clock_monitor: Option<ClockMonitorSample>,
    pub operators: Vec<OperatorRow>,
    pub bootstrap_tokens: Vec<BootstrapTokenRow>,
    pub operator_sessions: Vec<SessionRow>,
    pub agents: Vec<AgentRow>,
    pub secret_requests: Vec<SecretRequestRow>,
    pub exchanges: Vec<ExchangeRow>,
    pub approvals: Vec<ApprovalRow>,
    pub exchange_lifecycle: Vec<LifecycleRow>,
    pub policies: Vec<PolicyRow>,
    pub audit_events: Vec<AuditRow>,
    pub rate_windows: Vec<RateWindowRow>,
    pub idempotency_keys: Vec<IdempotencyRow>,
    pub enrollment_requests: Vec<EnrollmentRow>,
    pub nodes: Vec<NodeRow>,
    pub node_key_history: Vec<NodeKeyRow>,
    pub node_key_rotations: Vec<NodeKeyRotationRow>,
    pub node_revocation_queue: Vec<NodeRevocationRow>,
    pub node_sessions: Vec<NodeSessionRow>,
    pub workloads: Vec<WorkloadRow>,
    pub fleet_policies: Vec<FleetPolicyRow>,
    pub operations: Vec<OperationRow>,
    pub operation_approvals: Vec<OperationApprovalRow>,
    pub grants: Vec<GrantRow>,
    pub grant_tombstones: Vec<TombstoneRow>,
    pub node_inbox: Vec<InboxRow>,
    pub node_events: Vec<NodeEventRow>,
    pub node_challenges: Vec<ChallengeRow>,
}

/// What a `Store` stands for.
#[verifier::ext_equal]
pub struct StoreView {
    pub tenant_id: Seq<char>,
    pub meta: ControllerMetaView,
    pub clock: PersistedClockAnchorView,
    pub clock_tolerance_ms: i64,
    pub clock_monitor: Option<ClockMonitorSample>,
    pub operators: Seq<OperatorRowView>,
    pub bootstrap_tokens: Seq<BootstrapTokenRowView>,
    pub operator_sessions: Seq<SessionRowView>,
    pub agents: Seq<AgentRowView>,
    pub secret_requests: Seq<SecretRequestRowView>,
    pub exchanges: Seq<ExchangeRowView>,
    pub approvals: Seq<ApprovalRowView>,
    pub exchange_lifecycle: Seq<LifecycleRowView>,
    pub policies: Seq<PolicyRowView>,
    pub audit_events: Seq<AuditRowView>,
    pub rate_windows: Seq<RateWindowRowView>,
    pub idempotency_keys: Seq<IdempotencyRowView>,
    pub enrollment_requests: Seq<EnrollmentRowView>,
    pub nodes: Seq<NodeRowView>,
    pub node_key_history: Seq<NodeKeyRowView>,
    pub node_key_rotations: Seq<NodeKeyRotationRowView>,
    pub node_revocation_queue: Seq<NodeRevocationRowView>,
    pub node_sessions: Seq<NodeSessionRowView>,
    pub workloads: Seq<WorkloadRowView>,
    pub fleet_policies: Seq<FleetPolicyRowView>,
    pub operations: Seq<OperationRowView>,
    pub operation_approvals: Seq<OperationApprovalRowView>,
    pub grants: Seq<GrantRowView>,
    pub grant_tombstones: Seq<TombstoneRowView>,
    pub node_inbox: Seq<InboxRowView>,
    pub node_events: Seq<NodeEventRowView>,
    pub node_challenges: Seq<ChallengeRowView>,
}

impl View for Store {
    type V = StoreView;

    open spec fn view(&self) -> StoreView {
        StoreView {
            tenant_id: self.tenant_id@,
            meta: self.meta@,
            clock: self.clock@,
            clock_tolerance_ms: self.clock_tolerance_ms,
            clock_monitor: self.clock_monitor,
            operators: rows_view(self.operators@),
            bootstrap_tokens: rows_view(self.bootstrap_tokens@),
            operator_sessions: rows_view(self.operator_sessions@),
            agents: rows_view(self.agents@),
            secret_requests: rows_view(self.secret_requests@),
            exchanges: rows_view(self.exchanges@),
            approvals: rows_view(self.approvals@),
            exchange_lifecycle: rows_view(self.exchange_lifecycle@),
            policies: rows_view(self.policies@),
            audit_events: rows_view(self.audit_events@),
            rate_windows: rows_view(self.rate_windows@),
            idempotency_keys: rows_view(self.idempotency_keys@),
            enrollment_requests: rows_view(self.enrollment_requests@),
            nodes: rows_view(self.nodes@),
            node_key_history: rows_view(self.node_key_history@),
            node_key_rotations: rows_view(self.node_key_rotations@),
            node_revocation_queue: rows_view(self.node_revocation_queue@),
            node_sessions: rows_view(self.node_sessions@),
            workloads: rows_view(self.workloads@),
            fleet_policies: rows_view(self.fleet_policies@),
            operations: rows_view(self.operations@),
            operation_approvals: rows_view(self.operation_approvals@),
            grants: rows_view(self.grants@),
            grant_tombstones: rows_view(self.grant_tombstones@),
            node_inbox: rows_view(self.node_inbox@),
            node_events: rows_view(self.node_events@),
            node_challenges: rows_view(self.node_challenges@),
        }
    }
}

impl Duplicate for Store {
    fn duplicate(&self) -> (copy: Store) {
        Store {
            tenant_id: self.tenant_id.clone(),
            meta: self.meta.duplicate(),
            clock: self.clock.duplicate(),
            clock_tolerance_ms: self.clock_tolerance_ms,
            clock_monitor: self.clock_monitor,
            operators: copy_rows(&self.operators),
            bootstrap_tokens: copy_rows(&self.bootstrap_tokens),
            operator_sessions: copy_rows(&self.operator_sessions),
            agents: copy_rows(&self.agents),
            secret_requests: copy_rows(&self.secret_requests),
            exchanges: copy_rows(&self.exchanges),
            approvals: copy_rows(&self.approvals),
            exchange_lifecycle: copy_rows(&self.exchange_lifecycle),
            policies: copy_rows(&self.policies),
            audit_events: copy_rows(&self.audit_events),
            rate_windows: copy_rows(&self.rate_windows),
            idempotency_keys: copy_rows(&self.idempotency_keys),
            enrollment_requests: copy_rows(&self.enrollment_requests),
            nodes: copy_rows(&self.nodes),
            node_key_history: copy_rows(&self.node_key_history),
            node_key_rotations: copy_rows(&self.node_key_rotations),
            node_revocation_queue: copy_rows(&self.node_revocation_queue),
            node_sessions: copy_rows(&self.node_sessions),
            workloads: copy_rows(&self.workloads),
            fleet_policies: copy_rows(&self.fleet_policies),
            operations: copy_rows(&self.operations),
            operation_approvals: copy_rows(&self.operation_approvals),
            grants: copy_rows(&self.grants),
            grant_tombstones: copy_rows(&self.grant_tombstones),
            node_inbox: copy_rows(&self.node_inbox),
            node_events: copy_rows(&self.node_events),
            node_challenges: copy_rows(&self.node_challenges),
        }
    }
}

impl Clone for Store {
    fn clone(&self) -> (copy: Store)
        ensures
            copy@ == self@,
    {
        self.duplicate()
    }
}

/// Whether a step of a transaction did what is expected of it. The state after
/// a failed step is thrown away with its transaction.
pub open spec fn stepped(
    expected: Result<StoreView, StoreError>,
    after: StoreView,
    reply: Result<(), StoreError>,
) -> bool {
    match expected {
        Ok(state) => reply is Ok && after == state,
        Err(error) => reply == Err::<(), StoreError>(error),
    }
}

/// A store without rows, before a controller is brought up on it.
pub open spec fn empty_store() -> StoreView {
    StoreView {
        tenant_id: Seq::empty(),
        meta: ControllerMetaView {
            schema_version: 0,
            tenant_id: Seq::empty(),
            issuer_epoch: 0,
            created_at_ms: 0,
        },
        clock: PersistedClockAnchorView {
            last_observed_ms: 0,
            boot_id: None,
            boottime_ms: None,
            host_wall_ms: None,
            fenced_at: None,
        },
        clock_tolerance_ms: 0,
        clock_monitor: None,
        operators: Seq::empty(),
        bootstrap_tokens: Seq::empty(),
        operator_sessions: Seq::empty(),
        agents: Seq::empty(),
        secret_requests: Seq::empty(),
        exchanges: Seq::empty(),
        approvals: Seq::empty(),
        exchange_lifecycle: Seq::empty(),
        policies: Seq::empty(),
        audit_events: Seq::empty(),
        rate_windows: Seq::empty(),
        idempotency_keys: Seq::empty(),
        enrollment_requests: Seq::empty(),
        nodes: Seq::empty(),
        node_key_history: Seq::empty(),
        node_key_rotations: Seq::empty(),
        node_revocation_queue: Seq::empty(),
        node_sessions: Seq::empty(),
        workloads: Seq::empty(),
        fleet_policies: Seq::empty(),
        operations: Seq::empty(),
        operation_approvals: Seq::empty(),
        grants: Seq::empty(),
        grant_tombstones: Seq::empty(),
        node_inbox: Seq::empty(),
        node_events: Seq::empty(),
        node_challenges: Seq::empty(),
    }
}

impl Store {
    /// A store without rows, before a controller is brought up on it.
    pub fn empty() -> (store: Store)
        ensures
            store@ == empty_store(),
            well_keyed(store@),
    {
        proof {
            reveal_strlit("");
            assert(""@ =~= Seq::<char>::empty());
        }
        Store {
            tenant_id: "".to_owned(),
            meta: ControllerMeta {
                schema_version: 0,
                tenant_id: "".to_owned(),
                issuer_epoch: 0,
                created_at_ms: 0,
            },
            clock: PersistedClockAnchor {
                last_observed_ms: 0,
                boot_id: None,
                boottime_ms: None,
                host_wall_ms: None,
                fenced_at: None,
            },
            clock_tolerance_ms: 0,
            clock_monitor: None,
            operators: Vec::new(),
            bootstrap_tokens: Vec::new(),
            operator_sessions: Vec::new(),
            agents: Vec::new(),
            secret_requests: Vec::new(),
            exchanges: Vec::new(),
            approvals: Vec::new(),
            exchange_lifecycle: Vec::new(),
            policies: Vec::new(),
            audit_events: Vec::new(),
            rate_windows: Vec::new(),
            idempotency_keys: Vec::new(),
            enrollment_requests: Vec::new(),
            nodes: Vec::new(),
            node_key_history: Vec::new(),
            node_key_rotations: Vec::new(),
            node_revocation_queue: Vec::new(),
            node_sessions: Vec::new(),
            workloads: Vec::new(),
            fleet_policies: Vec::new(),
            operations: Vec::new(),
            operation_approvals: Vec::new(),
            grants: Vec::new(),
            grant_tombstones: Vec::new(),
            node_inbox: Vec::new(),
            node_events: Vec::new(),
            node_challenges: Vec::new(),
        }
    }

    /// The tenant that this controller serves.
    pub fn tenant_id(&self) -> (tenant: &str)
        ensures
            tenant@ == self@.tenant_id,
    {
        self.tenant_id.as_str()
    }
}

} // verus!
