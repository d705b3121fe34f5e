//! The authority of nodes: how it is withdrawn, and how it moves to another key.

use crate::clock::{ClockReading, ClockReadingView};
use crate::documents::{
    node_grant_revocation, node_key_rotation_document, node_revocation_document,
    validate_node_key_rotation_document, validate_node_revocation,
    validate_node_revocation_document, NodeGrantRevocationDraft, NodeGrantRevocationDraftView,
    NodeKeyRotationDraft, NodeKeyRotationDraftView, NodeRevocation, NodeRevocationView, Parsed,
};
use crate::error::{DatabaseFault, StoreError};
use crate::operations::{
    is_live, is_running, lapse, lapsed, live, reason_json, reason_result, running, settle, settled,
};
use crate::records::{GrantRecordView, WorkloadRecordView};
use crate::relation::{
    any, any_row, attempt_rows, attempted, count, count_rows, find_row, first, order_rows, ordered,
    push_row, remove_rows, rows_view, select_rows, selected, update_rows, updated, without,
    Duplicate,
};
use crate::store::{stepped, Store, StoreView};
use crate::tables::{
    GrantRow, GrantRowView, NodeKeyRotationRow, NodeKeyRotationRowView, NodeKeyRow, NodeKeyRowView,
    NodeRevocationRow, NodeRevocationRowView, NodeRow, NodeRowView, NodeSessionRow,
    NodeSessionRowView, OperationApprovalRow, OperationApprovalRowView, OperationRow,
    OperationRowView, TombstoneRow, TombstoneRowView, WorkloadRow, WorkloadRowView,
};
use crate::text::{before, holds_text, is_text, same, text_before, texts};
use vstd::prelude::*;

verus! {

/// The node with an identifier.
pub open spec fn node_with(id: Seq<char>, tenant_id: Seq<char>) -> spec_fn(NodeRowView) -> bool {
    |row: NodeRowView| row.id == id && row.tenant_id == tenant_id
}

/// The active node with an identifier.
pub open spec fn active_node(id: Seq<char>, tenant_id: Seq<char>) -> spec_fn(NodeRowView) -> bool {
    |row: NodeRowView| row.id == id && row.tenant_id == tenant_id && row.status == "active"@
}

/// The rotations that wait for a node.
pub open spec fn rotation_of(node_id: Seq<char>) -> spec_fn(NodeKeyRotationRowView) -> bool {
    |row: NodeKeyRotationRowView| row.node_id == node_id
}

/// The grants of a node that may still be used.
pub open spec fn live_grant(node_id: Seq<char>, tenant_id: Seq<char>, now_ms: i64) -> spec_fn(
    GrantRowView,
) -> bool {
    |row: GrantRowView|
        row.record.node_id == node_id && row.tenant_id == tenant_id && is_live(row.record.status)
            && row.record.expires_at_ms > now_ms
}

/// The grants of a node that lapsed unused.
pub open spec fn lapsed_grant(node_id: Seq<char>, tenant_id: Seq<char>, now_ms: i64) -> spec_fn(
    GrantRowView,
) -> bool {
    |row: GrantRowView|
        row.record.node_id == node_id && row.tenant_id == tenant_id && is_live(row.record.status)
            && row.record.expires_at_ms <= now_ms
}

/// A grant that is revoked.
pub open spec fn grant_revoked(at_ms: i64) -> spec_fn(GrantRowView) -> GrantRowView {
    |row: GrantRowView|
        GrantRowView {
            record: GrantRecordView {
                status: "revoked"@,
                revoked_at_ms: Some(at_ms),
                ..row.record
            },
            ..row
        }
}

/// A grant that lapsed.
pub open spec fn grant_expired() -> spec_fn(GrantRowView) -> GrantRowView {
    |row: GrantRowView|
        GrantRowView { record: GrantRecordView { status: "expired"@, ..row.record }, ..row }
}

/// The usable grant of a node with an identifier.
pub open spec fn live_grant_with(
    grant_id: Seq<char>,
    node_id: Seq<char>,
    tenant_id: Seq<char>,
) -> spec_fn(GrantRowView) -> bool {
    |row: GrantRowView|
        row.record.id == grant_id && row.record.node_id == node_id && row.tenant_id == tenant_id
            && is_live(row.record.status)
}

/// The operations that run under a grant.
pub open spec fn running_under(grant_id: Seq<char>, tenant_id: Seq<char>) -> spec_fn(
    OperationRowView,
) -> bool {
    |row: OperationRowView|
        row.record.grant_id == Some(grant_id) && row.tenant_id == tenant_id && is_running(
            row.record.status,
        )
}

/// The tombstone of a grant.
pub open spec fn tombstone_of(grant_id: Seq<char>) -> spec_fn(TombstoneRowView) -> bool {
    |row: TombstoneRowView| row.grant_id == grant_id
}

/// The draft that revokes a grant.
pub open spec fn draft_for(grant_id: Seq<char>) -> spec_fn(NodeGrantRevocationDraftView) -> bool {
    |draft: NodeGrantRevocationDraftView| draft.grant_id == grant_id
}

/// What the revocation of a grant needs of it: its identifier and its expiry.
pub open spec fn grant_deadline() -> spec_fn(GrantRowView) -> (Seq<char>, i64) {
    |row: GrantRowView| (row.record.id, row.record.expires_at_ms)
}

/// Deadlines in the order of the grants' identifiers.
pub open spec fn deadline_order() -> spec_fn((Seq<char>, i64), (Seq<char>, i64)) -> bool {
    |a: (Seq<char>, i64), b: (Seq<char>, i64)| text_before(a.0, b.0)
}

/// The drafts for the usable grants of a node, each with the end of its
/// tombstone. `reason` is the reason that every draft must give; where it is
/// absent, a draft's own reason stands.
pub open spec fn checked_drafts(
    grants: Seq<(Seq<char>, i64)>,
    drafts: Seq<NodeGrantRevocationDraftView>,
    reason: Option<Seq<char>>,
    node_id: Seq<char>,
    now_ms: i64,
    issuer_epoch: i64,
) -> Result<Seq<(NodeGrantRevocationDraftView, i64)>, StoreError>
    decreases grants.len(),
{
    if grants.len() == 0 {
        Ok(Seq::empty())
    } else {
        match checked_drafts(grants.drop_last(), drafts, reason, node_id, now_ms, issuer_epoch) {
            Err(error) => Err(error),
            Ok(done) => match first(drafts, draft_for(grants.last().0)) {
                None => Err(StoreError::InvalidInput("node grant set changed")),
                Some(draft) => match node_grant_revocation(
                    draft.envelope_json,
                    draft.parsed,
                    grants.last().0,
                    node_id,
                    now_ms,
                    grants.last().1,
                    issuer_epoch,
                    match reason {
                        Some(expected) => expected,
                        None => draft.reason,
                    },
                ) {
                    Err(error) => Err(error),
                    Ok(revocation) => Ok(done.push((draft, revocation.retain_until_ms as i64))),
                },
            },
        }
    }
}

/// The checked drafts that revoke a grant.
pub open spec fn checked_for(grant_id: Seq<char>) -> spec_fn(
    (NodeGrantRevocationDraftView, i64),
) -> bool {
    |checked: (NodeGrantRevocationDraftView, i64)| checked.0.grant_id == grant_id
}

/// A draft that no usable grant asks for, or that gives another reason than the
/// one demanded.
pub open spec fn stray_draft(
    validated: Seq<(NodeGrantRevocationDraftView, i64)>,
    reason: Option<Seq<char>>,
) -> spec_fn(NodeGrantRevocationDraftView) -> bool {
    |draft: NodeGrantRevocationDraftView|
        (reason is Some && Some(draft.reason) != reason) || count(
            validated,
            checked_for(draft.grant_id),
        ) != 1
}

/// Whether the drafts are exactly those that the usable grants ask for.
pub open spec fn drafts_match(
    drafts: Seq<NodeGrantRevocationDraftView>,
    validated: Seq<(NodeGrantRevocationDraftView, i64)>,
    reason: Option<Seq<char>>,
) -> bool {
    validated.len() == drafts.len() && !any(drafts, stray_draft(validated, reason))
}

/// Whether an operation of a node waits for an approval.
pub open spec fn awaits(node_id: Seq<char>, tenant_id: Seq<char>, approval_id: Seq<char>) -> spec_fn(
    OperationRowView,
) -> bool {
    |row: OperationRowView|
        row.record.node_id == node_id && row.tenant_id == tenant_id && row.record.status
            == "awaiting_approval"@ && row.record.approval_id == Some(approval_id)
}

/// The pending approvals that an operation of a node waits for.
pub open spec fn awaited_approval(
    operations: Seq<OperationRowView>,
    node_id: Seq<char>,
    tenant_id: Seq<char>,
) -> spec_fn(OperationApprovalRowView) -> bool {
    |row: OperationApprovalRowView|
        row.tenant_id == tenant_id && row.record.status == "pending"@ && any(
            operations,
            awaits(node_id, tenant_id, row.record.id),
        )
}

/// The operations that end when a node stops: those of the node that wait, and
/// those of any node that wait for an approval which one of them waits for.
pub open spec fn cancelled_operation(
    operations: Seq<OperationRowView>,
    node_id: Seq<char>,
    tenant_id: Seq<char>,
) -> spec_fn(OperationRowView) -> bool {
    |row: OperationRowView|
        row.tenant_id == tenant_id && ((row.record.status == "awaiting_approval"@
            && row.record.approval_id is Some && any(
            operations,
            awaits(node_id, tenant_id, row.record.approval_id->0),
        )) || (row.record.node_id == node_id && (row.record.status == "requested"@
            || row.record.status == "awaiting_approval"@)))
}

/// The operations that run under a grant of a node that lapsed.
pub open spec fn overdue_operation(
    grants: Seq<GrantRowView>,
    node_id: Seq<char>,
    tenant_id: Seq<char>,
    now_ms: i64,
) -> spec_fn(OperationRowView) -> bool {
    |row: OperationRowView|
        row.tenant_id == tenant_id && is_running(row.record.status) && row.record.grant_id is Some
            && any(
            grants,
            |grant: GrantRowView|
                grant.record.id == row.record.grant_id->0 && lapsed_grant(
                    node_id,
                    tenant_id,
                    now_ms,
                )(grant),
        )
}

/// The active workloads of a node.
pub open spec fn active_workload_on(node_id: Seq<char>, tenant_id: Seq<char>) -> spec_fn(
    WorkloadRowView,
) -> bool {
    |row: WorkloadRowView|
        row.record.node_id == node_id && row.tenant_id == tenant_id && row.record.status
            == "active"@
}

/// A workload that is revoked, unless one of its versions is exhausted.
pub open spec fn workload_revoked(at_ms: Option<i64>) -> spec_fn(WorkloadRowView) -> Option<
    WorkloadRowView,
> {
    |row: WorkloadRowView|
        if row.record.version == i64::MAX || row.record.registration_version == i64::MAX {
            None
        } else {
            Some(
                WorkloadRowView {
                    record: WorkloadRecordView {
                        status: "revoked"@,
                        revoked_at_ms: at_ms,
                        registration_version: (row.record.registration_version + 1) as i64,
                        version: (row.record.version + 1) as i64,
                        ..row.record
                    },
                    ..row
                },
            )
        }
}

/// A node that is revoked, unless its version is exhausted.
pub open spec fn node_revoked(at_ms: i64) -> spec_fn(NodeRowView) -> Option<NodeRowView> {
    |row: NodeRowView|
        if row.version == i64::MAX {
            None
        } else {
            Some(
                NodeRowView {
                    status: "revoked"@,
                    revoked_at_ms: Some(at_ms),
                    version: (row.version + 1) as i64,
                    ..row
                },
            )
        }
}

/// The queued revocation of a node.
pub open spec fn queued_revocation(node_id: Seq<char>) -> spec_fn(NodeRevocationRowView) -> bool {
    |row: NodeRevocationRowView| row.node_id == node_id
}

/// The unsigned reading of a version that is never negative.
pub open spec fn unsigned(version: int) -> int {
    if version < 0 {
        0
    } else {
        version
    }
}

/// Whether a rotation takes a node from its current key to the next one.
pub open spec fn rotation_fits(
    node: NodeRowView,
    pending: bool,
    expected_key_version: i64,
    draft: NodeKeyRotationDraftView,
    node_id: Seq<char>,
) -> bool {
    &&& node.status == "active"@
    &&& !pending
    &&& node.key_version == expected_key_version
    &&& draft.rotation.from_key_version == unsigned(node.key_version as int)
    &&& draft.rotation.to_key_version == unsigned(
        if node.key_version == i64::MAX {
            i64::MAX as int
        } else {
            node.key_version + 1
        },
    )
    &&& draft.rotation.node_id == node_id
    &&& draft.rotation.signing_public != node.signing_pub
    &&& draft.rotation.recipient_public != node.recipient_pub
}

/// The key of a node with a version.
pub open spec fn key_with(node_id: Seq<char>, key_version: i64) -> spec_fn(NodeKeyRowView) -> bool {
    |row: NodeKeyRowView| row.node_id == node_id && row.key_version == key_version
}

impl StoreView {
    /// The usable grants of a node, by identifier.
    pub open spec fn live_grants(self, node_id: Seq<char>, now_ms: i64) -> Seq<(Seq<char>, i64)> {
        ordered(
            selected(self.grants, live_grant(node_id, self.tenant_id, now_ms), grant_deadline()),
            deadline_order(),
        )
    }

    /// The state after a grant of a node is revoked: the grant and what runs
    /// under it end, its tombstone is kept and the signed revocation is sent.
    pub open spec fn retire_grant(
        self,
        draft: NodeGrantRevocationDraftView,
        retain_until_ms: i64,
        node_id: Seq<char>,
        reason: Seq<char>,
        now_ms: i64,
    ) -> Result<StoreView, StoreError> {
        match attempted(
            self.operations,
            running_under(draft.grant_id, self.tenant_id),
            settled("revoked"@, reason_result(reason), now_ms),
        ) {
            None => Err(StoreError::Database(DatabaseFault::OutOfRange)),
            Some(operations) => if any(self.grant_tombstones, tombstone_of(draft.grant_id)) {
                Err(StoreError::Database(DatabaseFault::DuplicateKey))
            } else {
                StoreView {
                    grants: updated(
                        self.grants,
                        live_grant_with(draft.grant_id, node_id, self.tenant_id),
                        grant_revoked(now_ms),
                    ),
                    operations,
                    grant_tombstones: self.grant_tombstones.push(
                        TombstoneRowView {
                            grant_id: draft.grant_id,
                            node_id,
                            reason,
                            created_at_ms: now_ms,
                            retain_until_ms,
                        },
                    ),
                    ..self
                }.enqueue(node_id, draft.envelope_json, Some(now_ms))
            },
        }
    }

    /// The state after the grants of checked drafts are revoked, in order.
    pub open spec fn retire_grants(
        self,
        validated: Seq<(NodeGrantRevocationDraftView, i64)>,
        node_id: Seq<char>,
        reason: Seq<char>,
        now_ms: i64,
    ) -> Result<StoreView, StoreError>
        decreases validated.len(),
    {
        if validated.len() == 0 {
            Ok(self)
        } else {
            match self.retire_grants(validated.drop_last(), node_id, reason, now_ms) {
                Err(error) => Err(error),
                Ok(state) => state.retire_grant(
                    validated.last().0,
                    validated.last().1,
                    node_id,
                    reason,
                    now_ms,
                ),
            }
        }
    }

    /// The state after every usable grant of a node is revoked by a draft of
    /// its own.
    pub open spec fn retire_node_grants(
        self,
        drafts: Seq<NodeGrantRevocationDraftView>,
        demanded: Option<Seq<char>>,
        node_id: Seq<char>,
        reason: Seq<char>,
        now_ms: i64,
    ) -> Result<StoreView, StoreError> {
        match checked_drafts(
            self.live_grants(node_id, now_ms),
            drafts,
            demanded,
            node_id,
            now_ms,
            self.meta.issuer_epoch,
        ) {
            Err(error) => Err(error),
            Ok(validated) => if !drafts_match(drafts, validated, demanded) {
                Err(StoreError::InvalidInput("node grant set changed"))
            } else {
                self.retire_grants(validated, node_id, reason, now_ms)
            },
        }
    }

    /// The state after a node's waiting operations end, with the approvals
    /// that they wait for and whatever else waits for those.
    pub open spec fn cancel_node_operations(
        self,
        node_id: Seq<char>,
        reason: Seq<char>,
        now_ms: i64,
    ) -> Result<StoreView, StoreError> {
        match attempted(
            self.operation_approvals,
            awaited_approval(self.operations, node_id, self.tenant_id),
            lapsed(now_ms),
        ) {
            None => Err(StoreError::Database(DatabaseFault::OutOfRange)),
            Some(operation_approvals) => match attempted(
                self.operations,
                cancelled_operation(self.operations, node_id, self.tenant_id),
                settled("cancelled"@, reason_result(reason), now_ms),
            ) {
                None => Err(StoreError::Database(DatabaseFault::OutOfRange)),
                Some(operations) => Ok(StoreView { operation_approvals, operations, ..self }),
            },
        }
    }

    /// The state after a node's unused grants that lapsed are marked so.
    pub open spec fn expire_node_grants(self, node_id: Seq<char>, now_ms: i64) -> StoreView {
        StoreView {
            grants: updated(
                self.grants,
                lapsed_grant(node_id, self.tenant_id, now_ms),
                grant_expired(),
            ),
            ..self
        }
    }

    /// The state after what runs under a lapsed grant of a node failed.
    pub open spec fn fail_overdue_operations(self, node_id: Seq<char>, now_ms: i64) -> Result<
        StoreView,
        StoreError,
    > {
        match attempted(
            self.operations,
            overdue_operation(self.grants, node_id, self.tenant_id, now_ms),
            settled("failed"@, reason_result("expired"@), now_ms),
        ) {
            None => Err(StoreError::Database(DatabaseFault::OutOfRange)),
            Some(operations) => Ok(StoreView { operations, ..self }),
        }
    }

    /// The state after a node and its workloads are revoked.
    pub open spec fn strip_node(self, node_id: Seq<char>, now_ms: i64) -> Result<
        StoreView,
        StoreError,
    > {
        match attempted(
            self.workloads,
            active_workload_on(node_id, self.tenant_id),
            workload_revoked(Some(now_ms)),
        ) {
            None => Err(StoreError::Database(DatabaseFault::OutOfRange)),
            Some(workloads) => match attempted(
                self.nodes,
                active_node(node_id, self.tenant_id),
                node_revoked(now_ms),
            ) {
                None => Err(StoreError::Database(DatabaseFault::OutOfRange)),
                Some(nodes) => Ok(StoreView { workloads, nodes, ..self }),
            },
        }
    }

    /// The state with a node's revocation queued.
    pub open spec fn queue_revocation(self, node_id: Seq<char>, now_ms: i64) -> StoreView {
        if any(self.node_revocation_queue, queued_revocation(node_id)) {
            self
        } else {
            StoreView {
                node_revocation_queue: self.node_revocation_queue.push(
                    NodeRevocationRowView { node_id, created_at_ms: now_ms },
                ),
                ..self
            }
        }
    }

    /// The state after the authority of a node is withdrawn.
    pub open spec fn withdraw_node(
        self,
        node_id: Seq<char>,
        revocations: Seq<NodeGrantRevocationDraftView>,
        document_json: Seq<char>,
        document: Parsed<NodeRevocationView>,
        now_ms: i64,
    ) -> Result<StoreView, StoreError> {
        match node_revocation_document(
            document_json,
            document,
            node_id,
            now_ms,
            self.meta.issuer_epoch,
        ) {
            Err(error) => Err(error),
            Ok(()) => match self.retire_node_grants(
                revocations,
                None,
                node_id,
                "operator"@,
                now_ms,
            ) {
                Err(error) => Err(error),
                Ok(retired) => match retired.enqueue(node_id, document_json, Some(now_ms)) {
                    Err(error) => Err(error),
                    Ok(sent) => match sent.queue_revocation(
                        node_id,
                        now_ms,
                    ).cancel_node_operations(node_id, "node_revoked"@, now_ms) {
                        Err(error) => Err(error),
                        Ok(cancelled) => match cancelled.fail_overdue_operations(node_id, now_ms) {
                            Err(error) => Err(error),
                            Ok(failed) => failed.expire_node_grants(node_id, now_ms).strip_node(
                                node_id,
                                now_ms,
                            ),
                        },
                    },
                },
            },
        }
    }

    /// Revoke a node: what happens to the state, and whether the node exists.
    pub open spec fn revoke_node(
        self,
        c: ClockReadingView,
        node_id: Seq<char>,
        revocations: Seq<NodeGrantRevocationDraftView>,
        document_json: Seq<char>,
        document: Parsed<NodeRevocationView>,
    ) -> (StoreView, Result<bool, StoreError>) {
        let (s, gate) = self.checkpoint_clock(c);
        match (gate, s.now(c.now_ms)) {
            (Err(error), _) => (s, Err(error)),
            (Ok(()), None) => (s, Err(StoreError::Database(DatabaseFault::ClockBehind))),
            (Ok(()), Some(now_ms)) => match first(s.nodes, node_with(node_id, s.tenant_id)) {
                None => (s, Ok(false)),
                Some(node) => if node.status == "revoked"@ {
                    (s, Ok(true))
                } else {
                    match s.withdraw_node(node_id, revocations, document_json, document, now_ms) {
                        Err(error) => (s, Err(error)),
                        Ok(after) => (after, Ok(true)),
                    }
                },
            },
        }
    }

    /// The state with a rotation staged and its key in the history.
    pub open spec fn stage_key(
        self,
        node_id: Seq<char>,
        from_key_version: i64,
        draft: NodeKeyRotationDraftView,
        now_ms: i64,
    ) -> Result<StoreView, StoreError> {
        if draft.rotation.to_key_version > i64::MAX {
            Err(StoreError::InvalidInput("node key version"))
        } else {
            let to_key_version = draft.rotation.to_key_version as i64;
            if any(self.node_key_rotations, rotation_of(node_id)) || any(
                self.node_key_history,
                key_with(node_id, to_key_version),
            ) {
                Err(StoreError::Database(DatabaseFault::DuplicateKey))
            } else {
                Ok(
                    StoreView {
                        node_key_rotations: self.node_key_rotations.push(
                            NodeKeyRotationRowView {
                                node_id,
                                rotation_id: draft.rotation.rotation_id,
                                from_key_version,
                                to_key_version,
                                signing_pub: draft.rotation.signing_public,
                                recipient_pub: draft.rotation.recipient_public,
                                fingerprint: draft.rotation.fingerprint,
                                created_at_ms: now_ms,
                            },
                        ),
                        node_key_history: self.node_key_history.push(
                            NodeKeyRowView {
                                node_id,
                                key_version: to_key_version,
                                signing_pub: draft.rotation.signing_public,
                                recipient_pub: draft.rotation.recipient_public,
                                created_at_ms: now_ms,
                                retired_at_ms: None,
                            },
                        ),
                        ..self
                    },
                )
            }
        }
    }

    /// The state after a key rotation is staged.
    pub open spec fn stage_rotation(
        self,
        node_id: Seq<char>,
        from_key_version: i64,
        draft: NodeKeyRotationDraftView,
        now_ms: i64,
    ) -> Result<StoreView, StoreError> {
        match node_key_rotation_document(
            draft.rotation_document_json,
            draft.parsed,
            draft.rotation,
            node_id,
            now_ms,
            self.meta.issuer_epoch,
        ) {
            Err(error) => Err(error),
            Ok(()) => match self.retire_node_grants(
                draft.grant_revocations,
                Some("key_rotation"@),
                node_id,
                "key_rotation"@,
                now_ms,
            ) {
                Err(error) => Err(error),
                Ok(retired) => match retired.expire_node_grants(
                    node_id,
                    now_ms,
                ).cancel_node_operations(node_id, "node_key_rotation"@, now_ms) {
                    Err(error) => Err(error),
                    Ok(cancelled) => match cancelled.stage_key(
                        node_id,
                        from_key_version,
                        draft,
                        now_ms,
                    ) {
                        Err(error) => Err(error),
                        Ok(staged) => staged.enqueue(
                            node_id,
                            draft.rotation_document_json,
                            Some(now_ms),
                        ),
                    },
                },
            },
        }
    }

    /// Stage a key rotation: what happens to the state, and whether the node
    /// can take the rotation.
    pub open spec fn stage_node_key_rotation(
        self,
        c: ClockReadingView,
        node_id: Seq<char>,
        expected_key_version: i64,
        draft: NodeKeyRotationDraftView,
    ) -> (StoreView, Result<bool, StoreError>) {
        let (s, gate) = self.checkpoint_clock(c);
        match (gate, s.now(c.now_ms)) {
            (Err(error), _) => (s, Err(error)),
            (Ok(()), None) => (s, Err(StoreError::Database(DatabaseFault::ClockBehind))),
            (Ok(()), Some(now_ms)) => match first(s.nodes, node_with(node_id, s.tenant_id)) {
                None => (s, Ok(false)),
                Some(node) => if !rotation_fits(
                    node,
                    any(s.node_key_rotations, rotation_of(node_id)),
                    expected_key_version,
                    draft,
                    node_id,
                ) {
                    (s, Ok(false))
                } else {
                    match s.stage_rotation(node_id, node.key_version, draft, now_ms) {
                        Err(error) => (s, Err(error)),
                        Ok(after) => (after, Ok(true)),
                    }
                },
            },
        }
    }
}

impl Store {
    fn live_grant_deadlines(&self, node_id: &str, now_ms: i64) -> (found: Vec<(String, i64)>)
        ensures
            rows_view(found@) == self@.live_grants(node_id@, now_ms),
    {
        let tenant_id = &self.tenant_id;
        let found = select_rows(
            &self.grants,
            |row: &GrantRow| -> (b: bool)
                ensures b == live_grant(node_id@, tenant_id@, now_ms)(row@)
                {
                    same(&row.record.node_id, node_id) && same(&row.tenant_id, tenant_id) && live(
                        &row.record.status,
                    ) && row.record.expires_at_ms > now_ms
                },
            |row: &GrantRow| -> (deadline: (String, i64))
                ensures deadline@ == grant_deadline()(row@)
                { (row.record.id.clone(), row.record.expires_at_ms) },
            Ghost(live_grant(node_id@, tenant_id@, now_ms)),
            Ghost(grant_deadline()),
        );
        order_rows(
            found,
            |a: &(String, i64), b: &(String, i64)| -> (less: bool)
                ensures less == deadline_order()(a@, b@)
                { before(&a.0, &b.0) },
            Ghost(deadline_order()),
        )
    }

    /// Revoke one grant of a node.
    fn retire_grant(
        &mut self,
        draft: &NodeGrantRevocationDraft,
        retain_until_ms: i64,
        node_id: &str,
        reason: &str,
        now_ms: i64,
    ) -> (reply: Result<(), StoreError>)
        ensures
            stepped(
                old(self)@.retire_grant(draft@, retain_until_ms, node_id@, reason@, now_ms),
                final(self)@,
                reply,
            ),
    {
        let tenant_id = self.tenant_id.clone();
        let grant_id = &draft.grant_id;
        let result = reason_json(reason);
        let ended = attempt_rows(
            &mut self.operations,
            |row: &OperationRow| -> (b: bool)
                ensures b == running_under(grant_id@, tenant_id@)(row@)
                {
                    is_text(&row.record.grant_id, grant_id) && same(&row.tenant_id, &tenant_id)
                        && running(&row.record.status)
                },
            |row: &OperationRow| -> (next: Option<OperationRow>)
                ensures crate::relation::option_view(next) == settled("revoked"@, result@, now_ms)(row@)
                { settle(row, "revoked", &result, now_ms) },
            Ghost(running_under(grant_id@, tenant_id@)),
            Ghost(settled("revoked"@, result@, now_ms)),
        );
        if ended.is_none() {
            return Err(StoreError::Database(DatabaseFault::OutOfRange));
        }
        let taken = any_row(
            &self.grant_tombstones,
            |row: &TombstoneRow| -> (b: bool)
                ensures b == tombstone_of(grant_id@)(row@)
                { same(&row.grant_id, grant_id) },
            Ghost(tombstone_of(grant_id@)),
        );
        if taken {
            return Err(StoreError::Database(DatabaseFault::DuplicateKey));
        }
        update_rows(
            &mut self.grants,
            |row: &GrantRow| -> (b: bool)
                ensures b == live_grant_with(grant_id@, node_id@, tenant_id@)(row@)
                {
                    same(&row.record.id, grant_id) && same(&row.record.node_id, node_id) && same(
                        &row.tenant_id,
                        &tenant_id,
                    ) && live(&row.record.status)
                },
            |row: &GrantRow| -> (next: GrantRow)
                ensures next@ == grant_revoked(now_ms)(row@)
                {
                    let mut next = row.duplicate();
                    next.record.status = "revoked".to_owned();
                    next.record.revoked_at_ms = Some(now_ms);
                    next
                },
            Ghost(live_grant_with(grant_id@, node_id@, tenant_id@)),
            Ghost(grant_revoked(now_ms)),
        );
        push_row(
            &mut self.grant_tombstones,
            TombstoneRow {
                grant_id: grant_id.clone(),
                node_id: node_id.to_owned(),
                reason: reason.to_owned(),
                created_at_ms: now_ms,
                retain_until_ms,
            },
        );
        self.enqueue_node_document(node_id, &draft.envelope_json, Some(now_ms))
    }

    /// Check one signed revocation for each usable grant.
    fn check_drafts(
        &self,
        deadlines: &Vec<(String, i64)>,
        drafts: &Vec<NodeGrantRevocationDraft>,
        demanded: Option<&str>,
        node_id: &str,
        now_ms: i64,
    ) -> (reply: Result<Vec<(NodeGrantRevocationDraft, i64)>, StoreError>)
        ensures
            crate::relation::answer_rows(reply) == checked_drafts(
                rows_view(deadlines@),
                rows_view(drafts@),
                crate::text::optional_str(demanded),
                node_id@,
                now_ms,
                self@.meta.issuer_epoch,
            ),
    {
        let ghost dv = rows_view(deadlines@);
        let ghost fv = rows_view(drafts@);
        let ghost demand = crate::text::optional_str(demanded);
        let ghost epoch = self@.meta.issuer_epoch;
        let mut validated: Vec<(NodeGrantRevocationDraft, i64)> = Vec::new();
        let mut i: usize = 0;
        proof {
            assert(rows_view(validated@) =~= Seq::empty());
        }
        while i < deadlines.len()
            invariant
                i <= deadlines@.len(),
                dv == rows_view(deadlines@),
                fv == rows_view(drafts@),
                demand == crate::text::optional_str(demanded),
                epoch == self@.meta.issuer_epoch,
                checked_drafts(dv.take(i as int), fv, demand, node_id@, now_ms, epoch) == Ok::<
                    Seq<(NodeGrantRevocationDraftView, i64)>,
                    StoreError,
                >(rows_view(validated@)),
            decreases deadlines@.len() - i,
        {
            let grant_id = &deadlines[i].0;
            let expires_at_ms: i64 = deadlines[i].1;
            proof {
                assert(dv.take(i + 1).drop_last() =~= dv.take(i as int));
                assert(dv.take(i + 1).last() == dv[i as int]);
            }
            let found = find_row(
                drafts,
                |draft: &NodeGrantRevocationDraft| -> (b: bool)
                    ensures b == draft_for(grant_id@)(draft@)
                    { same(&draft.grant_id, grant_id) },
                Ghost(draft_for(grant_id@)),
            );
            let at: usize = match found {
                Some(at) => at,
                None => {
                    proof {
                        lemma_first_refusal(dv, fv, demand, node_id@, now_ms, epoch, i + 1);
                    }
                    return Err(StoreError::InvalidInput("node grant set changed"));
                },
            };
            let draft = &drafts[at];
            let reason: &str = match demanded {
                Some(reason) => reason,
                None => draft.reason.as_str(),
            };
            match validate_node_revocation(
                &draft.envelope_json,
                &draft.parsed,
                grant_id,
                node_id,
                now_ms,
                expires_at_ms,
                self.meta.issuer_epoch,
                reason,
            ) {
                Ok(retain_until_ms) => {
                    push_row(&mut validated, (draft.duplicate(), retain_until_ms));
                },
                Err(error) => {
                    proof {
                        lemma_first_refusal(dv, fv, demand, node_id@, now_ms, epoch, i + 1);
                    }
                    return Err(error);
                },
            }
            i = i + 1;
        }
        proof {
            assert(dv.take(i as int) =~= dv);
        }
        Ok(validated)
    }

    /// Revoke the grants of checked drafts, in order.
    fn retire_grants(
        &mut self,
        validated: &Vec<(NodeGrantRevocationDraft, i64)>,
        node_id: &str,
        reason: &str,
        now_ms: i64,
    ) -> (reply: Result<(), StoreError>)
        ensures
            stepped(
                old(self)@.retire_grants(rows_view(validated@), node_id@, reason@, now_ms),
                final(self)@,
                reply,
            ),
    {
        let ghost start = self@;
        let ghost vv = rows_view(validated@);
        let mut i: usize = 0;
        while i < validated.len()
            invariant
                i <= validated@.len(),
                vv == rows_view(validated@),
                start == old(self)@,
                start.retire_grants(vv.take(i as int), node_id@, reason@, now_ms) == Ok::<
                    StoreView,
                    StoreError,
                >(self@),
            decreases validated@.len() - i,
        {
            proof {
                assert(vv.take(i + 1).drop_last() =~= vv.take(i as int));
                assert(vv.take(i + 1).last() == vv[i as int]);
            }
            match self.retire_grant(&validated[i].0, validated[i].1, node_id, reason, now_ms) {
                Ok(()) => {},
                Err(error) => {
                    proof {
                        start.lemma_first_failure(vv, node_id@, reason@, now_ms, i + 1);
                    }
                    return Err(error);
                },
            }
            i = i + 1;
        }
        proof {
            assert(vv.take(i as int) =~= vv);
        }
        Ok(())
    }

    /// Revoke every usable grant of a node, each by the draft that was signed
    /// for it.
    fn retire_node_grants(
        &mut self,
        drafts: &Vec<NodeGrantRevocationDraft>,
        demanded: Option<&str>,
        node_id: &str,
        reason: &str,
        now_ms: i64,
    ) -> (reply: Result<(), StoreError>)
        ensures
            stepped(
                old(self)@.retire_node_grants(
                    rows_view(drafts@),
                    crate::text::optional_str(demanded),
                    node_id@,
                    reason@,
                    now_ms,
                ),
                final(self)@,
                reply,
            ),
    {
        let deadlines = self.live_grant_deadlines(node_id, now_ms);
        let validated = match self.check_drafts(&deadlines, drafts, demanded, node_id, now_ms) {
            Ok(validated) => validated,
            Err(error) => {
                return Err(error);
            },
        };
        if !validate_revocation_draft_set(drafts, &validated, demanded) {
            return Err(StoreError::InvalidInput("node grant set changed"));
        }
        self.retire_grants(&validated, node_id, reason, now_ms)
    }
}

impl StoreView {
    /// The first grant that cannot be revoked decides what is reported.
    proof fn lemma_first_failure(
        self,
        validated: Seq<(NodeGrantRevocationDraftView, i64)>,
        node_id: Seq<char>,
        reason: Seq<char>,
        now_ms: i64,
        n: int,
    )
        requires
            0 <= n <= validated.len(),
            self.retire_grants(validated.take(n), node_id, reason, now_ms) is Err,
        ensures
            self.retire_grants(validated, node_id, reason, now_ms) == self.retire_grants(
                validated.take(n),
                node_id,
                reason,
                now_ms,
            ),
        decreases validated.len(),
    {
        if n < validated.len() {
            assert(validated.drop_last().take(n) =~= validated.take(n));
            self.lemma_first_failure(validated.drop_last(), node_id, reason, now_ms, n);
        } else {
            assert(validated.take(n) =~= validated);
        }
    }
}

/// The first draft that is refused decides what is reported.
proof fn lemma_first_refusal(
    grants: Seq<(Seq<char>, i64)>,
    drafts: Seq<NodeGrantRevocationDraftView>,
    reason: Option<Seq<char>>,
    node_id: Seq<char>,
    now_ms: i64,
    issuer_epoch: i64,
    n: int,
)
    requires
        0 <= n <= grants.len(),
        checked_drafts(grants.take(n), drafts, reason, node_id, now_ms, issuer_epoch) is Err,
    ensures
        checked_drafts(grants, drafts, reason, node_id, now_ms, issuer_epoch) == checked_drafts(
            grants.take(n),
            drafts,
            reason,
            node_id,
            now_ms,
            issuer_epoch,
        ),
    decreases grants.len(),
{
    if n < grants.len() {
        assert(grants.drop_last().take(n) =~= grants.take(n));
        lemma_first_refusal(grants.drop_last(), drafts, reason, node_id, now_ms, issuer_epoch, n);
    } else {
        assert(grants.take(n) =~= grants);
    }
}

/// Whether the drafts are exactly those that the usable grants ask for.
pub fn validate_revocation_draft_set(
    drafts: &Vec<NodeGrantRevocationDraft>,
    validated: &Vec<(NodeGrantRevocationDraft, i64)>,
    demanded: Option<&str>,
) -> (matching: bool)
    ensures
        matching == drafts_match(
            rows_view(drafts@),
            rows_view(validated@),
            crate::text::optional_str(demanded),
        ),
{
    let ghost vv = rows_view(validated@);
    let ghost demand = crate::text::optional_str(demanded);
    if validated.len() != drafts.len() {
        return false;
    }
    let stray = any_row(
        drafts,
        |draft: &NodeGrantRevocationDraft| -> (b: bool)
            ensures b == stray_draft(vv, demand)(draft@)
            {
                let other = match demanded {
                    Some(reason) => !same(&draft.reason, reason),
                    None => false,
                };
                let grant_id = &draft.grant_id;
                other || count_rows(
                    validated,
                    |checked: &(NodeGrantRevocationDraft, i64)| -> (c: bool)
                        ensures c == checked_for(grant_id@)(checked@)
                        { same(&checked.0.grant_id, grant_id) },
                    Ghost(checked_for(grant_id@)),
                ) != 1
            },
        Ghost(stray_draft(vv, demand)),
    );
    !stray
}

/// The approvals that operations of a node wait for.
fn awaited_approvals(operations: &Vec<OperationRow>, node_id: &str, tenant_id: &str) -> (ids: Vec<
    String,
>)
    ensures
        forall|id: Seq<char>|
            #[trigger] texts(ids@).contains(id) == any(
                rows_view(operations@),
                awaits(node_id@, tenant_id@, id),
            ),
{
    let ghost ov = rows_view(operations@);
    let mut ids: Vec<String> = Vec::new();
    let mut i: usize = 0;
    while i < operations.len()
        invariant
            i <= operations@.len(),
            ov == rows_view(operations@),
            forall|k: int|
                0 <= k < ids@.len() ==> any(ov, awaits(node_id@, tenant_id@, (#[trigger] ids@[k])@)),
            forall|j: int|
                0 <= j < i && (#[trigger] ov[j]).record.approval_id is Some && awaits(
                    node_id@,
                    tenant_id@,
                    ov[j].record.approval_id->0,
                )(ov[j]) ==> texts(ids@).contains(ov[j].record.approval_id->0),
        decreases operations@.len() - i,
    {
        let row = &operations[i];
        let ghost known = texts(ids@);
        if same(&row.record.node_id, node_id) && same(&row.tenant_id, tenant_id) && same(
            &row.record.status,
            "awaiting_approval",
        ) {
            if let Some(approval_id) = &row.record.approval_id {
                ids.push(approval_id.clone());
                proof {
                    assert(awaits(node_id@, tenant_id@, approval_id@)(ov[i as int]));
                    assert(texts(ids@) =~= known.push(approval_id@));
                    assert(texts(ids@)[known.len() as int] == approval_id@);
                    assert forall|id: Seq<char>| known.contains(id) implies texts(ids@).contains(
                        id,
                    ) by {
                        let k = choose|k: int| 0 <= k < known.len() && known[k] == id;
                        assert(texts(ids@)[k] == id);
                    }
                }
            }
        }
        i = i + 1;
    }
    proof {
        assert forall|id: Seq<char>| #[trigger]
            texts(ids@).contains(id) == any(ov, awaits(node_id@, tenant_id@, id)) by {
            if texts(ids@).contains(id) {
                let k = choose|k: int| 0 <= k < texts(ids@).len() && texts(ids@)[k] == id;
                assert(ids@[k]@ == id);
            } else if any(ov, awaits(node_id@, tenant_id@, id)) {
                let j = choose|j: int|
                    0 <= j < ov.len() && awaits(node_id@, tenant_id@, id)(#[trigger] ov[j]);
                assert(ov[j].record.approval_id == Some(id));
            }
        }
    }
    ids
}

impl Store {
    /// End what waits on a node, with the approvals that it waits for.
    fn cancel_node_operations(&mut self, node_id: &str, reason: &str, now_ms: i64) -> (reply:
        Result<(), StoreError>)
        ensures
            stepped(
                old(self)@.cancel_node_operations(node_id@, reason@, now_ms),
                final(self)@,
                reply,
            ),
    {
        let ghost ov = self@.operations;
        let tenant_id = self.tenant_id.clone();
        let awaited = awaited_approvals(&self.operations, node_id, &tenant_id);
        let result = reason_json(reason);
        let approvals = attempt_rows(
            &mut self.operation_approvals,
            |row: &OperationApprovalRow| -> (b: bool)
                ensures b == awaited_approval(ov, node_id@, tenant_id@)(row@)
                {
                    same(&row.tenant_id, &tenant_id) && same(&row.record.status, "pending")
                        && holds_text(&awaited, &row.record.id)
                },
            |row: &OperationApprovalRow| -> (next: Option<OperationApprovalRow>)
                ensures crate::relation::option_view(next) == lapsed(now_ms)(row@)
                { lapse(row, now_ms) },
            Ghost(awaited_approval(ov, node_id@, tenant_id@)),
            Ghost(lapsed(now_ms)),
        );
        if approvals.is_none() {
            return Err(StoreError::Database(DatabaseFault::OutOfRange));
        }
        let operations = attempt_rows(
            &mut self.operations,
            |row: &OperationRow| -> (b: bool)
                ensures b == cancelled_operation(ov, node_id@, tenant_id@)(row@)
                {
                    let waits = same(&row.record.status, "awaiting_approval");
                    let shared = match &row.record.approval_id {
                        Some(approval_id) => waits && holds_text(&awaited, approval_id),
                        None => false,
                    };
                    same(&row.tenant_id, &tenant_id) && (shared || (same(
                        &row.record.node_id,
                        node_id,
                    ) && (same(&row.record.status, "requested") || waits)))
                },
            |row: &OperationRow| -> (next: Option<OperationRow>)
                ensures crate::relation::option_view(next) == settled("cancelled"@, result@, now_ms)(row@)
                { settle(row, "cancelled", &result, now_ms) },
            Ghost(cancelled_operation(ov, node_id@, tenant_id@)),
            Ghost(settled("cancelled"@, result@, now_ms)),
        );
        if operations.is_none() {
            return Err(StoreError::Database(DatabaseFault::OutOfRange));
        }
        Ok(())
    }

    /// Mark a node's unused grants that lapsed.
    fn expire_node_grants(&mut self, node_id: &str, now_ms: i64)
        ensures
            final(self)@ == old(self)@.expire_node_grants(node_id@, now_ms),
    {
        let tenant_id = &self.tenant_id;
        update_rows(
            &mut self.grants,
            |row: &GrantRow| -> (b: bool)
                ensures b == lapsed_grant(node_id@, tenant_id@, now_ms)(row@)
                {
                    same(&row.record.node_id, node_id) && same(&row.tenant_id, tenant_id) && live(
                        &row.record.status,
                    ) && row.record.expires_at_ms <= now_ms
                },
            |row: &GrantRow| -> (next: GrantRow)
                ensures next@ == grant_expired()(row@)
                {
                    let mut next = row.duplicate();
                    next.record.status = "expired".to_owned();
                    next
                },
            Ghost(lapsed_grant(node_id@, tenant_id@, now_ms)),
            Ghost(grant_expired()),
        );
    }

    /// Fail what runs under a lapsed grant of a node.
    fn fail_overdue_operations(&mut self, node_id: &str, now_ms: i64) -> (reply: Result<
        (),
        StoreError,
    >)
        ensures
            stepped(
                old(self)@.fail_overdue_operations(node_id@, now_ms),
                final(self)@,
                reply,
            ),
    {
        let tenant_id = &self.tenant_id;
        let grants = &self.grants;
        let ghost gv = rows_view(grants@);
        let result = reason_json("expired");
        let failed = attempt_rows(
            &mut self.operations,
            |row: &OperationRow| -> (b: bool)
                ensures b == overdue_operation(gv, node_id@, tenant_id@, now_ms)(row@)
                {
                    match &row.record.grant_id {
                        Some(grant_id) => {
                            let ghost wanted = |grant: GrantRowView|
                                grant.record.id == grant_id@ && lapsed_grant(
                                    node_id@,
                                    tenant_id@,
                                    now_ms,
                                )(grant);
                            let lapsed_one = any_row(
                                grants,
                                |grant: &GrantRow| -> (c: bool)
                                    ensures c == wanted(grant@)
                                    {
                                        same(&grant.record.id, grant_id) && same(
                                            &grant.record.node_id,
                                            node_id,
                                        ) && same(&grant.tenant_id, tenant_id) && live(
                                            &grant.record.status,
                                        ) && grant.record.expires_at_ms <= now_ms
                                    },
                                Ghost(wanted),
                            );
                            same(&row.tenant_id, tenant_id) && running(&row.record.status)
                                && lapsed_one
                        },
                        None => false,
                    }
                },
            |row: &OperationRow| -> (next: Option<OperationRow>)
                ensures crate::relation::option_view(next) == settled("failed"@, result@, now_ms)(row@)
                { settle(row, "failed", &result, now_ms) },
            Ghost(overdue_operation(gv, node_id@, tenant_id@, now_ms)),
            Ghost(settled("failed"@, result@, now_ms)),
        );
        if failed.is_none() {
            return Err(StoreError::Database(DatabaseFault::OutOfRange));
        }
        Ok(())
    }

    /// Revoke a node's workloads and the node.
    fn strip_node(&mut self, node_id: &str, now_ms: i64) -> (reply: Result<(), StoreError>)
        ensures
            stepped(old(self)@.strip_node(node_id@, now_ms), final(self)@, reply),
    {
        let tenant_id = &self.tenant_id;
        let workloads = attempt_rows(
            &mut self.workloads,
            |row: &WorkloadRow| -> (b: bool)
                ensures b == active_workload_on(node_id@, tenant_id@)(row@)
                {
                    same(&row.record.node_id, node_id) && same(&row.tenant_id, tenant_id) && same(
                        &row.record.status,
                        "active",
                    )
                },
            |row: &WorkloadRow| -> (next: Option<WorkloadRow>)
                ensures crate::relation::option_view(next) == workload_revoked(Some(now_ms))(row@)
                { revoke_workload_row(row, Some(now_ms)) },
            Ghost(active_workload_on(node_id@, tenant_id@)),
            Ghost(workload_revoked(Some(now_ms))),
        );
        if workloads.is_none() {
            return Err(StoreError::Database(DatabaseFault::OutOfRange));
        }
        let nodes = attempt_rows(
            &mut self.nodes,
            |row: &NodeRow| -> (b: bool)
                ensures b == active_node(node_id@, tenant_id@)(row@)
                {
                    same(&row.id, node_id) && same(&row.tenant_id, tenant_id) && same(
                        &row.status,
                        "active",
                    )
                },
            |row: &NodeRow| -> (next: Option<NodeRow>)
                ensures crate::relation::option_view(next) == node_revoked(now_ms)(row@)
                {
                    if row.version == i64::MAX {
                        return None;
                    }
                    let mut next = row.duplicate();
                    next.status = "revoked".to_owned();
                    next.revoked_at_ms = Some(now_ms);
                    next.version = row.version + 1;
                    Some(next)
                },
            Ghost(active_node(node_id@, tenant_id@)),
            Ghost(node_revoked(now_ms)),
        );
        if nodes.is_none() {
            return Err(StoreError::Database(DatabaseFault::OutOfRange));
        }
        Ok(())
    }

    /// Queue the revocation of a node, unless it is queued.
    fn queue_revocation(&mut self, node_id: &str, now_ms: i64)
        ensures
            final(self)@ == old(self)@.queue_revocation(node_id@, now_ms),
    {
        let queued = any_row(
            &self.node_revocation_queue,
            |row: &NodeRevocationRow| -> (b: bool)
                ensures b == queued_revocation(node_id@)(row@)
                { same(&row.node_id, node_id) },
            Ghost(queued_revocation(node_id@)),
        );
        if !queued {
            push_row(
                &mut self.node_revocation_queue,
                NodeRevocationRow { node_id: node_id.to_owned(), created_at_ms: now_ms },
            );
        }
    }

    fn withdraw_node(
        &mut self,
        node_id: &str,
        revocations: &Vec<NodeGrantRevocationDraft>,
        document_json: &str,
        document: &Parsed<NodeRevocation>,
        now_ms: i64,
    ) -> (reply: Result<(), StoreError>)
        ensures
            stepped(
                old(self)@.withdraw_node(
                    node_id@,
                    rows_view(revocations@),
                    document_json@,
                    document@,
                    now_ms,
                ),
                final(self)@,
                reply,
            ),
    {
        if let Err(error) = validate_node_revocation_document(
            document_json,
            document,
            node_id,
            now_ms,
            self.meta.issuer_epoch,
        ) {
            return Err(error);
        }
        if let Err(error) = self.retire_node_grants(
            revocations,
            None,
            node_id,
            "operator",
            now_ms,
        ) {
            return Err(error);
        }
        if let Err(error) = self.enqueue_node_document(node_id, document_json, Some(now_ms)) {
            return Err(error);
        }
        self.queue_revocation(node_id, now_ms);
        if let Err(error) = self.cancel_node_operations(node_id, "node_revoked", now_ms) {
            return Err(error);
        }
        if let Err(error) = self.fail_overdue_operations(node_id, now_ms) {
            return Err(error);
        }
        self.expire_node_grants(node_id, now_ms);
        self.strip_node(node_id, now_ms)
    }

    pub(crate) fn find_node(&self, node_id: &str) -> (found: Option<usize>)
        ensures
            match found {
                Some(at) => {
                    &&& at < self.nodes@.len()
                    &&& first(self@.nodes, node_with(node_id@, self@.tenant_id)) == Some(
                        self.nodes@[at as int]@,
                    )
                },
                None => first(self@.nodes, node_with(node_id@, self@.tenant_id)) is None,
            },
    {
        let tenant_id = &self.tenant_id;
        find_row(
            &self.nodes,
            |row: &NodeRow| -> (b: bool)
                ensures b == node_with(node_id@, tenant_id@)(row@)
                { same(&row.id, node_id) && same(&row.tenant_id, tenant_id) },
            Ghost(node_with(node_id@, tenant_id@)),
        )
    }

    /// Revoke the authority of a node and keep signed tombstones for its unused
    /// grants. Returns whether the node exists.
    pub fn revoke_node(
        &mut self,
        reading: &ClockReading,
        node_id: &str,
        revocations: &Vec<NodeGrantRevocationDraft>,
        node_revocation_json: &str,
        parsed: &Parsed<NodeRevocation>,
    ) -> (reply: Result<bool, StoreError>)
        ensures
            (final(self)@, reply) == old(self)@.revoke_node(
                reading@,
                node_id@,
                rows_view(revocations@),
                node_revocation_json@,
                parsed@,
            ),
    {
        if let Err(error) = self.checkpoint_clock(reading) {
            return Err(error);
        }
        let now_ms: i64 = match self.now(reading.now_ms) {
            Some(now_ms) => now_ms,
            None => {
                return Err(StoreError::Database(DatabaseFault::ClockBehind));
            },
        };
        let at: usize = match self.find_node(node_id) {
            Some(at) => at,
            None => {
                return Ok(false);
            },
        };
        if same(&self.nodes[at].status, "revoked") {
            return Ok(true);
        }
        let mut transaction = self.duplicate();
        match transaction.withdraw_node(
            node_id,
            revocations,
            node_revocation_json,
            parsed,
            now_ms,
        ) {
            Ok(()) => {
                *self = transaction;
                Ok(true)
            },
            Err(error) => Err(error),
        }
    }

    pub(crate) fn rotation_pending(&self, node_id: &str) -> (pending: bool)
        ensures
            pending == any(self@.node_key_rotations, rotation_of(node_id@)),
    {
        any_row(
            &self.node_key_rotations,
            |row: &NodeKeyRotationRow| -> (b: bool)
                ensures b == rotation_of(node_id@)(row@)
                { same(&row.node_id, node_id) },
            Ghost(rotation_of(node_id@)),
        )
    }

    fn stage_key(
        &mut self,
        node_id: &str,
        from_key_version: i64,
        draft: &NodeKeyRotationDraft,
        now_ms: i64,
    ) -> (reply: Result<(), StoreError>)
        ensures
            stepped(
                old(self)@.stage_key(node_id@, from_key_version, draft@, now_ms),
                final(self)@,
                reply,
            ),
    {
        if draft.rotation.to_key_version > i64::MAX as u64 {
            return Err(StoreError::InvalidInput("node key version"));
        }
        let to_key_version: i64 = draft.rotation.to_key_version as i64;
        let known = any_row(
            &self.node_key_history,
            |row: &NodeKeyRow| -> (b: bool)
                ensures b == key_with(node_id@, to_key_version)(row@)
                { same(&row.node_id, node_id) && row.key_version == to_key_version },
            Ghost(key_with(node_id@, to_key_version)),
        );
        if self.rotation_pending(node_id) || known {
            return Err(StoreError::Database(DatabaseFault::DuplicateKey));
        }
        push_row(
            &mut self.node_key_rotations,
            NodeKeyRotationRow {
                node_id: node_id.to_owned(),
                rotation_id: draft.rotation.rotation_id.clone(),
                from_key_version,
                to_key_version,
                signing_pub: draft.rotation.signing_public.clone(),
                recipient_pub: draft.rotation.recipient_public.clone(),
                fingerprint: draft.rotation.fingerprint.clone(),
                created_at_ms: now_ms,
            },
        );
        push_row(
            &mut self.node_key_history,
            NodeKeyRow {
                node_id: node_id.to_owned(),
                key_version: to_key_version,
                signing_pub: draft.rotation.signing_public.clone(),
                recipient_pub: draft.rotation.recipient_public.clone(),
                created_at_ms: now_ms,
                retired_at_ms: None,
            },
        );
        Ok(())
    }

    fn stage_rotation(
        &mut self,
        node_id: &str,
        from_key_version: i64,
        draft: &NodeKeyRotationDraft,
        now_ms: i64,
    ) -> (reply: Result<(), StoreError>)
        ensures
            stepped(
                old(self)@.stage_rotation(node_id@, from_key_version, draft@, now_ms),
                final(self)@,
                reply,
            ),
    {
        if let Err(error) = validate_node_key_rotation_document(
            &draft.rotation_document_json,
            &draft.parsed,
            &draft.rotation,
            node_id,
            now_ms,
            self.meta.issuer_epoch,
        ) {
            return Err(error);
        }
        if let Err(error) = self.retire_node_grants(
            &draft.grant_revocations,
            Some("key_rotation"),
            node_id,
            "key_rotation",
            now_ms,
        ) {
            return Err(error);
        }
        self.expire_node_grants(node_id, now_ms);
        if let Err(error) = self.cancel_node_operations(node_id, "node_key_rotation", now_ms) {
            return Err(error);
        }
        if let Err(error) = self.stage_key(node_id, from_key_version, draft, now_ms) {
            return Err(error);
        }
        self.enqueue_node_document(node_id, &draft.rotation_document_json, Some(now_ms))
    }

    /// Stage an approved key rotation and revoke every unused grant that is
    /// bound to the old key. The old key stays current until the node reports
    /// that it applied the rotation. Returns whether the node can take it.
    pub fn stage_node_key_rotation(
        &mut self,
        reading: &ClockReading,
        node_id: &str,
        expected_key_version: i64,
        draft: &NodeKeyRotationDraft,
    ) -> (reply: Result<bool, StoreError>)
        ensures
            (final(self)@, reply) == old(self)@.stage_node_key_rotation(
                reading@,
                node_id@,
                expected_key_version,
                draft@,
            ),
    {
        if let Err(error) = self.checkpoint_clock(reading) {
            return Err(error);
        }
        let now_ms: i64 = match self.now(reading.now_ms) {
            Some(now_ms) => now_ms,
            None => {
                return Err(StoreError::Database(DatabaseFault::ClockBehind));
            },
        };
        let at: usize = match self.find_node(node_id) {
            Some(at) => at,
            None => {
                return Ok(false);
            },
        };
        let pending = self.rotation_pending(node_id);
        let current: i64 = self.nodes[at].key_version;
        let from: u64 = if current < 0 {
            0
        } else {
            current as u64
        };
        let next: i64 = crate::limits::saturated_sum(current, 1);
        let to: u64 = if next < 0 {
            0
        } else {
            next as u64
        };
        let fits = same(&self.nodes[at].status, "active") && !pending && current
            == expected_key_version && draft.rotation.from_key_version == from
            && draft.rotation.to_key_version == to && same(&draft.rotation.node_id, node_id)
            && !same(&draft.rotation.signing_public, &self.nodes[at].signing_pub) && !same(
            &draft.rotation.recipient_public,
            &self.nodes[at].recipient_pub,
        );
        if !fits {
            return Ok(false);
        }
        let mut transaction = self.duplicate();
        match transaction.stage_rotation(node_id, current, draft, now_ms) {
            Ok(()) => {
                *self = transaction;
                Ok(true)
            },
            Err(error) => Err(error),
        }
    }
}

/// The rotation of a node with an identifier.
pub open spec fn rotation_with(node_id: Seq<char>, rotation_id: Seq<char>) -> spec_fn(
    NodeKeyRotationRowView,
) -> bool {
    |row: NodeKeyRotationRowView| row.node_id == node_id && row.rotation_id == rotation_id
}

/// The node that can move to a staged key: active, or revoked with its
/// revocation still to be delivered, and still at the key that the rotation
/// starts from.
pub open spec fn rotatable_node(
    queue: Seq<NodeRevocationRowView>,
    id: Seq<char>,
    tenant_id: Seq<char>,
    key_version: i64,
) -> spec_fn(NodeRowView) -> bool {
    |row: NodeRowView|
        row.id == id && row.tenant_id == tenant_id && row.key_version == key_version && (row.status
            == "active"@ || (row.status == "revoked"@ && any(queue, queued_revocation(row.id))))
}

/// A node that moved to a staged key, unless its version is exhausted.
pub open spec fn node_moved(rotation: NodeKeyRotationRowView) -> spec_fn(NodeRowView) -> Option<
    NodeRowView,
> {
    |row: NodeRowView|
        if row.version == i64::MAX {
            None
        } else {
            Some(
                NodeRowView {
                    signing_pub: rotation.signing_pub,
                    recipient_pub: rotation.recipient_pub,
                    key_version: rotation.to_key_version,
                    version: (row.version + 1) as i64,
                    ..row
                },
            )
        }
}

/// The key of a node with a version, while it is in use.
pub open spec fn current_key(node_id: Seq<char>, key_version: i64) -> spec_fn(
    NodeKeyRowView,
) -> bool {
    |row: NodeKeyRowView|
        row.node_id == node_id && row.key_version == key_version && row.retired_at_ms is None
}

/// A key that is retired.
pub open spec fn key_retired(at_ms: i64) -> spec_fn(NodeKeyRowView) -> NodeKeyRowView {
    |row: NodeKeyRowView| NodeKeyRowView { retired_at_ms: Some(at_ms), ..row }
}

/// The sessions of a node that are not revoked.
pub open spec fn open_node_session(node_id: Seq<char>) -> spec_fn(NodeSessionRowView) -> bool {
    |row: NodeSessionRowView| row.node_id == node_id && row.revoked_at_ms is None
}

/// A node session that is revoked.
pub open spec fn node_session_revoked(at_ms: Option<i64>) -> spec_fn(
    NodeSessionRowView,
) -> NodeSessionRowView {
    |row: NodeSessionRowView| NodeSessionRowView { revoked_at_ms: at_ms, ..row }
}

impl StoreView {
    /// The state after a node moved to its staged key.
    pub open spec fn finish_rotation(
        self,
        nodes: Seq<NodeRowView>,
        node_id: Seq<char>,
        rotation: NodeKeyRotationRowView,
        now_ms: i64,
    ) -> StoreView {
        StoreView {
            nodes,
            node_key_history: updated(
                self.node_key_history,
                current_key(node_id, rotation.from_key_version),
                key_retired(now_ms),
            ),
            node_sessions: updated(
                self.node_sessions,
                open_node_session(node_id),
                node_session_revoked(Some(now_ms)),
            ),
            node_key_rotations: without(
                self.node_key_rotations,
                rotation_with(node_id, rotation.rotation_id),
            ),
            ..self
        }
    }

    /// Complete a key rotation: what happens to the state, and whether the node
    /// is at the reported key. A rotation that was completed before is
    /// recognised by the fingerprint of the key in the history.
    pub open spec fn complete_node_key_rotation(
        self,
        c: ClockReadingView,
        node_id: Seq<char>,
        rotation_id: Seq<char>,
        key_version: i64,
        fingerprint: Seq<char>,
        history_fingerprint: Option<Seq<char>>,
    ) -> (StoreView, Result<bool, StoreError>) {
        let (s, gate) = self.checkpoint_clock(c);
        match (gate, s.now(c.now_ms)) {
            (Err(error), _) => (s, Err(error)),
            (Ok(()), None) => (s, Err(StoreError::Database(DatabaseFault::ClockBehind))),
            (Ok(()), Some(now_ms)) => match first(
                s.node_key_rotations,
                rotation_with(node_id, rotation_id),
            ) {
                None => {
                    let at_version = match first(s.nodes, node_with(node_id, s.tenant_id)) {
                        Some(node) => node.key_version == key_version,
                        None => false,
                    };
                    let recorded = any(s.node_key_history, key_with(node_id, key_version))
                        && history_fingerprint == Some(fingerprint);
                    (s, Ok(at_version && recorded))
                },
                Some(rotation) => if key_version != rotation.to_key_version || fingerprint
                    != rotation.fingerprint {
                    (s, Ok(false))
                } else {
                    let movable = rotatable_node(
                        s.node_revocation_queue,
                        node_id,
                        s.tenant_id,
                        rotation.from_key_version,
                    );
                    match attempted(s.nodes, movable, node_moved(rotation)) {
                        None => (s, Err(StoreError::Database(DatabaseFault::OutOfRange))),
                        Some(nodes) => if count(s.nodes, movable) != 1 {
                            (s, Ok(false))
                        } else {
                            (s.finish_rotation(nodes, node_id, rotation, now_ms), Ok(true))
                        },
                    }
                },
            },
        }
    }
}

impl Store {
    fn key_recorded(&self, node_id: &str, key_version: i64) -> (recorded: bool)
        ensures
            recorded == any(self@.node_key_history, key_with(node_id@, key_version)),
    {
        any_row(
            &self.node_key_history,
            |row: &NodeKeyRow| -> (b: bool)
                ensures b == key_with(node_id@, key_version)(row@)
                { same(&row.node_id, node_id) && row.key_version == key_version },
            Ghost(key_with(node_id@, key_version)),
        )
    }

    /// The public keys that a node had under a key version.
    pub fn recorded_key(&self, node_id: &str, key_version: i64) -> (key: Option<NodeKeyRow>)
        ensures
            crate::relation::option_view(key) == first(
                self@.node_key_history,
                key_with(node_id@, key_version),
            ),
    {
        let found = find_row(
            &self.node_key_history,
            |row: &NodeKeyRow| -> (b: bool)
                ensures b == key_with(node_id@, key_version)(row@)
                { same(&row.node_id, node_id) && row.key_version == key_version },
            Ghost(key_with(node_id@, key_version)),
        );
        match found {
            Some(at) => Some(self.node_key_history[at].duplicate()),
            None => None,
        }
    }

    /// Move a node to its staged key once it reports, signed with that key, that
    /// it applied the rotation. The node's old sessions are revoked. Returns
    /// whether the node is at the reported key. `history_fingerprint` is the
    /// fingerprint of the recorded key with the reported version, absent where
    /// it has none.
    pub fn complete_node_key_rotation(
        &mut self,
        reading: &ClockReading,
        node_id: &str,
        rotation_id: &str,
        key_version: i64,
        fingerprint: &str,
        history_fingerprint: Option<&str>,
    ) -> (reply: Result<bool, StoreError>)
        ensures
            (final(self)@, reply) == old(self)@.complete_node_key_rotation(
                reading@,
                node_id@,
                rotation_id@,
                key_version,
                fingerprint@,
                crate::text::optional_str(history_fingerprint),
            ),
    {
        if let Err(error) = self.checkpoint_clock(reading) {
            return Err(error);
        }
        let now_ms: i64 = match self.now(reading.now_ms) {
            Some(now_ms) => now_ms,
            None => {
                return Err(StoreError::Database(DatabaseFault::ClockBehind));
            },
        };
        let pending = find_row(
            &self.node_key_rotations,
            |row: &NodeKeyRotationRow| -> (b: bool)
                ensures b == rotation_with(node_id@, rotation_id@)(row@)
                { same(&row.node_id, node_id) && same(&row.rotation_id, rotation_id) },
            Ghost(rotation_with(node_id@, rotation_id@)),
        );
        let rotation = match pending {
            Some(at) => self.node_key_rotations[at].duplicate(),
            None => {
                let at_version = match self.find_node(node_id) {
                    Some(at) => self.nodes[at].key_version == key_version,
                    None => false,
                };
                let same_print = match history_fingerprint {
                    Some(recorded) => same(recorded, fingerprint),
                    None => false,
                };
                return Ok(at_version && self.key_recorded(node_id, key_version) && same_print);
            },
        };
        if key_version != rotation.to_key_version || !same(fingerprint, &rotation.fingerprint) {
            return Ok(false);
        }
        let mut transaction = self.duplicate();
        let tenant_id = &transaction.tenant_id;
        let queue = &transaction.node_revocation_queue;
        let ghost qv = rows_view(queue@);
        let from: i64 = rotation.from_key_version;
        let moved = attempt_rows(
            &mut transaction.nodes,
            |row: &NodeRow| -> (b: bool)
                ensures b == rotatable_node(qv, node_id@, tenant_id@, from)(row@)
                {
                    let id = &row.id;
                    let queued = any_row(
                        queue,
                        |entry: &NodeRevocationRow| -> (c: bool)
                            ensures c == queued_revocation(id@)(entry@)
                            { same(&entry.node_id, id) },
                        Ghost(queued_revocation(id@)),
                    );
                    same(&row.id, node_id) && same(&row.tenant_id, tenant_id) && row.key_version
                        == from && (same(&row.status, "active") || (same(&row.status, "revoked")
                        && queued))
                },
            |row: &NodeRow| -> (next: Option<NodeRow>)
                ensures crate::relation::option_view(next) == node_moved(rotation@)(row@)
                {
                    if row.version == i64::MAX {
                        return None;
                    }
                    let mut next = row.duplicate();
                    next.signing_pub = rotation.signing_pub.clone();
                    next.recipient_pub = rotation.recipient_pub.clone();
                    next.key_version = rotation.to_key_version;
                    next.version = row.version + 1;
                    Some(next)
                },
            Ghost(rotatable_node(qv, node_id@, tenant_id@, from)),
            Ghost(node_moved(rotation@)),
        );
        match moved {
            None => {
                return Err(StoreError::Database(DatabaseFault::OutOfRange));
            },
            Some(rows) => {
                if rows != 1 {
                    return Ok(false);
                }
            },
        }
        update_rows(
            &mut transaction.node_key_history,
            |row: &NodeKeyRow| -> (b: bool)
                ensures b == current_key(node_id@, from)(row@)
                {
                    same(&row.node_id, node_id) && row.key_version == from
                        && row.retired_at_ms.is_none()
                },
            |row: &NodeKeyRow| -> (next: NodeKeyRow)
                ensures next@ == key_retired(now_ms)(row@)
                {
                    let mut next = row.duplicate();
                    next.retired_at_ms = Some(now_ms);
                    next
                },
            Ghost(current_key(node_id@, from)),
            Ghost(key_retired(now_ms)),
        );
        transaction.revoke_node_sessions(node_id, Some(now_ms));
        let rotation_id = &rotation.rotation_id;
        remove_rows(
            &mut transaction.node_key_rotations,
            |row: &NodeKeyRotationRow| -> (b: bool)
                ensures b == rotation_with(node_id@, rotation_id@)(row@)
                { same(&row.node_id, node_id) && same(&row.rotation_id, rotation_id) },
            Ghost(rotation_with(node_id@, rotation_id@)),
        );
        *self = transaction;
        Ok(true)
    }

    /// Revoke the sessions of a node.
    pub(crate) fn revoke_node_sessions(&mut self, node_id: &str, at_ms: Option<i64>)
        ensures
            final(self)@ == (StoreView {
                node_sessions: updated(
                    old(self)@.node_sessions,
                    open_node_session(node_id@),
                    node_session_revoked(at_ms),
                ),
                ..old(self)@
            }),
    {
        update_rows(
            &mut self.node_sessions,
            |row: &NodeSessionRow| -> (b: bool)
                ensures b == open_node_session(node_id@)(row@)
                { same(&row.node_id, node_id) && row.revoked_at_ms.is_none() },
            |row: &NodeSessionRow| -> (next: NodeSessionRow)
                ensures next@ == node_session_revoked(at_ms)(row@)
                {
                    let mut next = row.duplicate();
                    next.revoked_at_ms = at_ms;
                    next
                },
            Ghost(open_node_session(node_id@)),
            Ghost(node_session_revoked(at_ms)),
        );
    }
}

/// Revoke a workload.
pub fn revoke_workload_row(row: &WorkloadRow, at_ms: Option<i64>) -> (next: Option<WorkloadRow>)
    ensures
        crate::relation::option_view(next) == workload_revoked(at_ms)(row@),
{
    if row.record.version == i64::MAX || row.record.registration_version == i64::MAX {
        return None;
    }
    let mut next = row.duplicate();
    next.record.status = "revoked".to_owned();
    next.record.revoked_at_ms = at_ms;
    next.record.registration_version = row.record.registration_version + 1;
    next.record.version = row.record.version + 1;
    Some(next)
}

} // verus!
