//! Operations, and the approvals that they wait for.

use crate::clock::{ClockReading, ClockReadingView};
use crate::error::{DatabaseFault, StoreError};
use crate::json::{json_list, json_strings, list_text, parse_list};
use crate::limits::{
    clamp_limit, clamped, is_unexpired, page_size, saturated_sum, unexpired,
};
use crate::node_authority::active_node;
use crate::operations::{restate, restated};
use crate::paging::{behind, cursor_view, is_before, is_behind, place_before};
use crate::records::{
    OperationApprovalDraft, OperationApprovalDraftView, OperationApprovalRecord,
    OperationApprovalRecordView, OperationCreateOutcome, OperationCreateOutcomeView,
    OperationDecisionOutcome, OperationDecisionOutcomeView, OperationRecord, OperationRecordView,
};
use crate::relation::{
    answer, answer_option, answer_rows, any, any_row, attempt_rows, attempted, count, count_rows,
    find_row, first, lemma_any_counted, option_view, order_rows, ordered, page, page_rows, push_row,
    rows_view, select_rows, selected, Duplicate,
};
use crate::relation_laws::lemma_attempted;
use crate::store::{stepped, Store, StoreView};
use crate::tables::{
    NodeRow, NodeRowView, OperationApprovalRow, OperationApprovalRowView, OperationRow,
    OperationRowView, WorkloadRow, WorkloadRowView,
};
use crate::text::{holds_text, is_text, optional_str, same, same_texts, texts};
use vstd::prelude::*;

verus! {

/// The most operations that one approval decides.
pub const MAX_APPROVAL_OPERATIONS: usize = 10;

/// The operation of a requester under a key.
pub open spec fn operation_under(
    tenant_id: Seq<char>,
    requested_by: Seq<char>,
    idempotency_key: Seq<char>,
) -> spec_fn(OperationRowView) -> bool {
    |row: OperationRowView|
        row.tenant_id == tenant_id && row.record.requested_by == requested_by
            && row.record.idempotency_key == idempotency_key
}

/// The operation that a node's event asked for.
pub open spec fn operation_for_event(
    tenant_id: Seq<char>,
    node_id: Seq<char>,
    event_key: Seq<char>,
) -> spec_fn(OperationRowView) -> bool {
    |row: OperationRowView|
        row.tenant_id == tenant_id && row.record.node_id == node_id && row.record.broker_event_key
            == Some(event_key)
}

/// The operation with an identifier.
pub open spec fn operation_with(id: Seq<char>, tenant_id: Seq<char>) -> spec_fn(
    OperationRowView,
) -> bool {
    |row: OperationRowView| row.record.id == id && row.tenant_id == tenant_id
}

/// The operation with an identifier, of any tenant.
pub open spec fn operation_taken(id: Seq<char>) -> spec_fn(OperationRowView) -> bool {
    |row: OperationRowView| row.record.id == id
}

/// The active workload that an operation is bound to.
pub open spec fn bound_workload(
    record: OperationRecordView,
    tenant_id: Seq<char>,
    unit: Seq<char>,
    account: Seq<char>,
    ttl_seconds: i64,
) -> spec_fn(WorkloadRowView) -> bool {
    |row: WorkloadRowView|
        row.record.id == record.workload_id && row.tenant_id == tenant_id && row.record.node_id
            == record.node_id && row.record.unit == unit && row.record.account == account
            && row.record.consumption_mode == record.mode && row.record.local_ceiling_seconds
            >= ttl_seconds && row.record.status == "active"@
}

/// The open approvals that a new operation may join.
pub open spec fn joinable_approval(
    draft: OperationApprovalDraftView,
    tenant_id: Seq<char>,
    now: Option<i64>,
) -> spec_fn(OperationApprovalRowView) -> bool {
    |row: OperationApprovalRowView|
        row.tenant_id == tenant_id && row.record.status == "pending"@ && row.record.rule_id
            == draft.rule_id && row.record.requester_summary_json == draft.requester_summary_json
            && row.record.verified_identity_json == draft.verified_identity_json && unexpired(
            row.record.expires_at_ms,
            now,
        )
}

/// The approval of a row.
pub open spec fn operation_approval_of() -> spec_fn(
    OperationApprovalRowView,
) -> OperationApprovalRecordView {
    |row: OperationApprovalRowView| row.record
}

/// The operation of a row.
pub open spec fn operation_of() -> spec_fn(OperationRowView) -> OperationRecordView {
    |row: OperationRowView| row.record
}

/// Approvals by creation and identifier, the newest first.
pub open spec fn newest_approval() -> spec_fn(
    OperationApprovalRecordView,
    OperationApprovalRecordView,
) -> bool {
    |a: OperationApprovalRecordView, b: OperationApprovalRecordView|
        place_before(b.created_at_ms, b.id, a.created_at_ms, a.id)
}

/// Approvals by creation and identifier.
pub open spec fn oldest_approval() -> spec_fn(
    OperationApprovalRecordView,
    OperationApprovalRecordView,
) -> bool {
    |a: OperationApprovalRecordView, b: OperationApprovalRecordView|
        place_before(a.created_at_ms, a.id, b.created_at_ms, b.id)
}

/// Operations by creation and identifier.
pub open spec fn oldest_operation() -> spec_fn(OperationRecordView, OperationRecordView) -> bool {
    |a: OperationRecordView, b: OperationRecordView|
        place_before(a.created_at_ms, a.id, b.created_at_ms, b.id)
}

/// The pending approval with an identifier and a version.
pub open spec fn pending_at(id: Seq<char>, tenant_id: Seq<char>, version: i64) -> spec_fn(
    OperationApprovalRowView,
) -> bool {
    |row: OperationApprovalRowView|
        row.record.id == id && row.tenant_id == tenant_id && row.record.status == "pending"@
            && row.record.version == version
}

/// The pending approval with an identifier.
pub open spec fn pending_with(id: Seq<char>, tenant_id: Seq<char>) -> spec_fn(
    OperationApprovalRowView,
) -> bool {
    |row: OperationApprovalRowView|
        row.record.id == id && row.tenant_id == tenant_id && row.record.status == "pending"@
}

/// The approval with an identifier.
pub open spec fn operation_approval_with(id: Seq<char>, tenant_id: Seq<char>) -> spec_fn(
    OperationApprovalRowView,
) -> bool {
    |row: OperationApprovalRowView| row.record.id == id && row.tenant_id == tenant_id
}

/// The approval with an identifier, of any tenant.
pub open spec fn operation_approval_taken(id: Seq<char>) -> spec_fn(
    OperationApprovalRowView,
) -> bool {
    |row: OperationApprovalRowView| row.record.id == id
}

/// An approval that decides other operations, unless its version is exhausted.
pub open spec fn approval_extended(operation_ids_json: Seq<char>) -> spec_fn(
    OperationApprovalRowView,
) -> Option<OperationApprovalRowView> {
    |row: OperationApprovalRowView|
        if row.record.version == i64::MAX {
            None
        } else {
            Some(
                OperationApprovalRowView {
                    record: OperationApprovalRecordView {
                        operation_ids_json,
                        version: (row.record.version + 1) as i64,
                        ..row.record
                    },
                    ..row
                },
            )
        }
}

/// An approval that lapsed undecided, unless its version is exhausted.
pub open spec fn approval_lapsed() -> spec_fn(OperationApprovalRowView) -> Option<
    OperationApprovalRowView,
> {
    |row: OperationApprovalRowView|
        if row.record.version == i64::MAX {
            None
        } else {
            Some(
                OperationApprovalRowView {
                    record: OperationApprovalRecordView {
                        status: "expired"@,
                        version: (row.record.version + 1) as i64,
                        ..row.record
                    },
                    ..row
                },
            )
        }
}

/// An approval with a decision, unless its version is exhausted.
pub open spec fn approval_closed(
    status: Seq<char>,
    decided_by: Seq<char>,
    decided_at_ms: i64,
    decision_key_hash: Seq<char>,
) -> spec_fn(OperationApprovalRowView) -> Option<OperationApprovalRowView> {
    |row: OperationApprovalRowView|
        if row.record.version == i64::MAX {
            None
        } else {
            Some(
                OperationApprovalRowView {
                    record: OperationApprovalRecordView {
                        status,
                        decided_by: Some(decided_by),
                        decided_at_ms: Some(decided_at_ms),
                        decision_key_hash: Some(decision_key_hash),
                        version: (row.record.version + 1) as i64,
                        ..row.record
                    },
                    ..row
                },
            )
        }
}

/// The operations that wait for an approval.
pub open spec fn waiting_for(approval_id: Seq<char>, tenant_id: Seq<char>) -> spec_fn(
    OperationRowView,
) -> bool {
    |row: OperationRowView|
        row.record.approval_id == Some(approval_id) && row.tenant_id == tenant_id
            && row.record.status == "awaiting_approval"@
}

/// An operation that was approved and gets its lifetime, unless its deadline or
/// its version does not fit.
pub open spec fn operation_approved(now_ms: i64) -> spec_fn(OperationRowView) -> Option<
    OperationRowView,
> {
    |row: OperationRowView|
        {
            let expires_at_ms = now_ms + row.record.requested_ttl_seconds * 1_000;
            if row.record.version == i64::MAX || expires_at_ms > i64::MAX || expires_at_ms
                < i64::MIN {
                None
            } else {
                Some(
                    OperationRowView {
                        record: OperationRecordView {
                            status: "requested"@,
                            expires_at_ms: expires_at_ms as i64,
                            version: (row.record.version + 1) as i64,
                            ..row.record
                        },
                        ..row
                    },
                )
            }
        }
}

/// The workload with an identifier, of any tenant.
pub open spec fn any_workload(id: Seq<char>) -> spec_fn(WorkloadRowView) -> bool {
    |row: WorkloadRowView| row.record.id == id
}

/// The node with an identifier, of any tenant.
pub open spec fn any_node(id: Seq<char>) -> spec_fn(NodeRowView) -> bool {
    |row: NodeRowView| row.id == id
}

/// The operation that waits for an approval under an identifier, where its
/// workload and its node are known.
pub open spec fn grouped_operation(
    workloads: Seq<WorkloadRowView>,
    nodes: Seq<NodeRowView>,
    id: Seq<char>,
    tenant_id: Seq<char>,
    approval_id: Seq<char>,
) -> spec_fn(OperationRowView) -> bool {
    |row: OperationRowView|
        row.record.id == id && row.tenant_id == tenant_id && row.record.approval_id == Some(
            approval_id,
        ) && any(workloads, any_workload(row.record.workload_id)) && any(
            nodes,
            any_node(row.record.node_id),
        )
}

/// Whether a list shows a record with a status.
pub open spec fn shows(wanted: Seq<char>, status: Seq<char>) -> bool {
    wanted.len() == 0 || status == wanted
}

/// The operations of a tenant that a list shows.
pub open spec fn listed_operation(
    tenant_id: Seq<char>,
    wanted: Seq<char>,
    cursor: Option<(i64, Seq<char>)>,
) -> spec_fn(OperationRowView) -> bool {
    |row: OperationRowView|
        row.tenant_id == tenant_id && shows(wanted, row.record.status) && behind(
            cursor,
            row.record.created_at_ms,
            row.record.id,
        )
}

/// The approvals of a tenant that a list shows: no pending one that lapsed.
pub open spec fn listed_operation_approval(
    tenant_id: Seq<char>,
    wanted: Seq<char>,
    cursor: Option<(i64, Seq<char>)>,
    now: Option<i64>,
) -> spec_fn(OperationApprovalRowView) -> bool {
    |row: OperationApprovalRowView|
        row.tenant_id == tenant_id && shows(wanted, row.record.status) && behind(
            cursor,
            row.record.created_at_ms,
            row.record.id,
        ) && (row.record.status != "pending"@ || unexpired(row.record.expires_at_ms, now))
}

/// The live pending approvals of a tenant.
pub open spec fn open_approval(tenant_id: Seq<char>, now: Option<i64>) -> spec_fn(
    OperationApprovalRowView,
) -> bool {
    |row: OperationApprovalRowView|
        row.tenant_id == tenant_id && row.record.status == "pending"@ && unexpired(
            row.record.expires_at_ms,
            now,
        )
}

/// An optional status as a list takes it: nothing shows every status.
pub open spec fn wanted_status(status: Option<Seq<char>>) -> Seq<char> {
    match status {
        Some(text) => text,
        None => Seq::empty(),
    }
}

impl StoreView {
    /// The open approvals that an operation may join, the newest first.
    pub open spec fn approval_candidates(
        self,
        draft: OperationApprovalDraftView,
        now: Option<i64>,
    ) -> Seq<OperationApprovalRecordView> {
        page(
            ordered(
                selected(
                    self.operation_approvals,
                    joinable_approval(draft, self.tenant_id, now),
                    operation_approval_of(),
                ),
                newest_approval(),
            ),
            50,
        )
    }

    /// The state with a new approval for one operation.
    pub open spec fn insert_operation_approval(
        self,
        operation_id: Seq<char>,
        draft: OperationApprovalDraftView,
        now_ms: i64,
    ) -> Result<(StoreView, Seq<char>), StoreError> {
        if any(self.operation_approvals, operation_approval_taken(draft.id)) {
            Err(StoreError::Database(DatabaseFault::DuplicateKey))
        } else {
            Ok(
                (
                    StoreView {
                        operation_approvals: self.operation_approvals.push(
                            OperationApprovalRowView {
                                tenant_id: self.tenant_id,
                                record: OperationApprovalRecordView {
                                    id: draft.id,
                                    operation_ids_json: json_list(seq![operation_id]),
                                    requester_summary_json: draft.requester_summary_json,
                                    verified_identity_json: draft.verified_identity_json,
                                    rule_id: draft.rule_id,
                                    status: "pending"@,
                                    decided_by: None,
                                    decided_at_ms: None,
                                    expires_at_ms: draft.expires_at_ms,
                                    idempotency_key: draft.idempotency_key,
                                    decision_key_hash: None,
                                    version: 1,
                                    created_at_ms: now_ms,
                                },
                            },
                        ),
                        ..self
                    },
                    draft.id,
                ),
            )
        }
    }

    /// The state with an operation put to the first candidate that has room and
    /// does not decide it yet, or to a new approval; and that approval.
    pub open spec fn join_approval(
        self,
        candidates: Seq<OperationApprovalRecordView>,
        operation_id: Seq<char>,
        draft: OperationApprovalDraftView,
        now_ms: i64,
    ) -> Result<(StoreView, Seq<char>), StoreError>
        decreases candidates.len(),
    {
        if candidates.len() == 0 {
            self.insert_operation_approval(operation_id, draft, now_ms)
        } else {
            let candidate = candidates[0];
            let rest = candidates.skip(1);
            match json_strings(candidate.operation_ids_json) {
                None => Err(StoreError::InvalidInput("approval operation ids")),
                Some(ids) => if ids.len() >= MAX_APPROVAL_OPERATIONS || ids.contains(operation_id) {
                    self.join_approval(rest, operation_id, draft, now_ms)
                } else {
                    let hit = pending_at(candidate.id, self.tenant_id, candidate.version);
                    match attempted(
                        self.operation_approvals,
                        hit,
                        approval_extended(json_list(ids.push(operation_id))),
                    ) {
                        None => Err(StoreError::Database(DatabaseFault::OutOfRange)),
                        Some(operation_approvals) => {
                            let extended = StoreView { operation_approvals, ..self };
                            if count(self.operation_approvals, hit) == 1 {
                                Ok((extended, candidate.id))
                            } else {
                                extended.join_approval(rest, operation_id, draft, now_ms)
                            }
                        },
                    }
                },
            }
        }
    }

    /// An operation as it enters the table.
    pub open spec fn fresh_operation(
        self,
        record: OperationRecordView,
        approval_id: Option<Seq<char>>,
        now_ms: i64,
    ) -> OperationRowView {
        OperationRowView {
            tenant_id: self.tenant_id,
            record: OperationRecordView {
                approval_id,
                created_at_ms: now_ms,
                completed_at_ms: None,
                version: 1,
                ..record
            },
        }
    }

    /// The state with a new operation, and the operation.
    pub open spec fn insert_operation(
        self,
        record: OperationRecordView,
        approval_id: Option<Seq<char>>,
        now_ms: i64,
    ) -> Result<(StoreView, OperationRecordView), StoreError> {
        if any(self.operations, operation_taken(record.id)) {
            Err(StoreError::Database(DatabaseFault::DuplicateKey))
        } else {
            let row = self.fresh_operation(record, approval_id, now_ms);
            Ok((StoreView { operations: self.operations.push(row), ..self }, row.record))
        }
    }

    /// The state with a new operation and its approval, and the operation.
    pub open spec fn admit_operation(
        self,
        record: OperationRecordView,
        approval: Option<OperationApprovalDraftView>,
        now_ms: i64,
    ) -> Result<(StoreView, OperationRecordView), StoreError> {
        match approval {
            None => self.insert_operation(record, None, now_ms),
            Some(draft) => match self.join_approval(
                self.approval_candidates(draft, Some(now_ms)),
                record.id,
                draft,
                now_ms,
            ) {
                Err(error) => Err(error),
                Ok((joined, approval_id)) => joined.insert_operation(
                    record,
                    Some(approval_id),
                    now_ms,
                ),
            },
        }
    }

    /// Request an operation. The same request under the same key gets the
    /// operation that exists, another one under that key, or one for an event
    /// that was used, is refused; and so is one whose policy, deadline or
    /// workload is not current.
    pub open spec fn create_operation(
        self,
        c: ClockReadingView,
        record: OperationRecordView,
        expected_unit: Seq<char>,
        expected_account: Seq<char>,
        effective_ttl_seconds: i64,
        approval: Option<OperationApprovalDraftView>,
    ) -> (StoreView, Result<OperationCreateOutcomeView, StoreError>) {
        let (s, gate) = self.checkpoint_clock(c);
        match gate {
            Err(error) => (s, Err(error)),
            Ok(()) => match first(
                s.operations,
                operation_under(s.tenant_id, record.requested_by, record.idempotency_key),
            ) {
                Some(row) => (
                    s,
                    Ok(
                        if row.record.request_hash == record.request_hash {
                            OperationCreateOutcomeView::Existing(row.record)
                        } else {
                            OperationCreateOutcomeView::Conflict
                        },
                    ),
                ),
                None => if record.broker_event_key is Some && any(
                    s.operations,
                    operation_for_event(s.tenant_id, record.node_id, record.broker_event_key->0),
                ) {
                    (s, Ok(OperationCreateOutcomeView::Conflict))
                } else if s.current_fleet_policy().version != record.policy_version {
                    (s, Ok(OperationCreateOutcomeView::Stale))
                } else {
                    match s.now(c.now_ms) {
                        None => (s, Err(StoreError::Database(DatabaseFault::ClockBehind))),
                        Some(now_ms) => if record.expires_at_ms <= now_ms || !any(
                            s.workloads,
                            bound_workload(
                                record,
                                s.tenant_id,
                                expected_unit,
                                expected_account,
                                effective_ttl_seconds,
                            ),
                        ) || !any(s.nodes, active_node(record.node_id, s.tenant_id)) {
                            (s, Ok(OperationCreateOutcomeView::Stale))
                        } else {
                            match s.admit_operation(record, approval, now_ms) {
                                Err(error) => (s, Err(error)),
                                Ok((after, created)) => (
                                    after,
                                    Ok(OperationCreateOutcomeView::Created(created)),
                                ),
                            }
                        },
                    }
                },
            },
        }
    }

    /// Whether an operation of a group can still be decided.
    pub open spec fn operation_current(
        self,
        id: Seq<char>,
        approval_id: Seq<char>,
        now_ms: i64,
    ) -> bool {
        match first(
            self.operations,
            grouped_operation(self.workloads, self.nodes, id, self.tenant_id, approval_id),
        ) {
            None => false,
            Some(row) => {
                &&& row.record.policy_version == self.current_fleet_policy().version
                &&& row.record.status == "awaiting_approval"@
                &&& row.record.expires_at_ms > now_ms
                &&& (match first(self.workloads, any_workload(row.record.workload_id)) {
                    Some(workload) => workload.record.status == "active"@,
                    None => false,
                })
                &&& (match first(self.nodes, any_node(row.record.node_id)) {
                    Some(node) => node.status == "active"@,
                    None => false,
                })
            },
        }
    }

    /// The state with a pending approval closed and what waits for it denied.
    pub open spec fn close_group(
        self,
        id: Seq<char>,
        closed: spec_fn(OperationApprovalRowView) -> Option<OperationApprovalRowView>,
    ) -> Result<StoreView, StoreError> {
        match attempted(self.operation_approvals, pending_with(id, self.tenant_id), closed) {
            None => Err(StoreError::Database(DatabaseFault::OutOfRange)),
            Some(operation_approvals) => match attempted(
                self.operations,
                waiting_for(id, self.tenant_id),
                restated("denied"@),
            ) {
                None => Err(StoreError::Database(DatabaseFault::OutOfRange)),
                Some(operations) => Ok(StoreView { operation_approvals, operations, ..self }),
            },
        }
    }

    /// The state with a decision applied to an approval and what waits for it.
    pub open spec fn apply_group(
        self,
        id: Seq<char>,
        expected_version: i64,
        decision: Seq<char>,
        decided_by: Seq<char>,
        decision_key_hash: Seq<char>,
        now_ms: i64,
    ) -> Result<StoreView, StoreError> {
        match attempted(
            self.operation_approvals,
            pending_at(id, self.tenant_id, expected_version),
            approval_closed(decision, decided_by, now_ms, decision_key_hash),
        ) {
            None => Err(StoreError::Database(DatabaseFault::OutOfRange)),
            Some(operation_approvals) => match attempted(
                self.operations,
                waiting_for(id, self.tenant_id),
                if decision == "approved"@ {
                    operation_approved(now_ms)
                } else {
                    restated("denied"@)
                },
            ) {
                None => Err(StoreError::Database(DatabaseFault::OutOfRange)),
                Some(operations) => Ok(StoreView { operation_approvals, operations, ..self }),
            },
        }
    }

    /// What a decision on an approval finds before it looks at the clock.
    pub open spec fn decision_precheck(
        self,
        approval: OperationApprovalRecordView,
        stored_ids: Seq<Seq<char>>,
        expected_version: i64,
        expected_ids: Seq<Seq<char>>,
        decision: Seq<char>,
        decided_by: Seq<char>,
        decision_key_hash: Seq<char>,
    ) -> Option<OperationDecisionOutcomeView> {
        let target = if decision == "approved"@ {
            "approved"@
        } else {
            "rejected"@
        };
        if approval.status == target && approval.version == clamped(expected_version + 1)
            && approval.decided_by == Some(decided_by) && approval.decision_key_hash == Some(
            decision_key_hash,
        ) && stored_ids == expected_ids {
            Some(OperationDecisionOutcomeView::Replayed(approval))
        } else if !crate::approvals::is_decision(decision) || approval.status != "pending"@
            || approval.version != expected_version || stored_ids != expected_ids
            || stored_ids.len() == 0 || stored_ids.len() > MAX_APPROVAL_OPERATIONS {
            Some(OperationDecisionOutcomeView::Conflict)
        } else {
            None
        }
    }

    /// What a decision that was not replayed or refused does at a moment.
    pub open spec fn decide_group(
        self,
        approval: OperationApprovalRecordView,
        stored_ids: Seq<Seq<char>>,
        expected_version: i64,
        decision: Seq<char>,
        decided_by: Seq<char>,
        decision_key_hash: Seq<char>,
        now_ms: i64,
    ) -> Result<(StoreView, OperationDecisionOutcomeView), StoreError> {
        let id = approval.id;
        if approval.expires_at_ms <= now_ms {
            match self.close_group(id, approval_lapsed()) {
                Err(error) => Err(error),
                Ok(after) => Ok((after, OperationDecisionOutcomeView::StalePolicy)),
            }
        } else if any(
            stored_ids,
            |operation_id: Seq<char>| !self.operation_current(operation_id, id, now_ms),
        ) {
            match self.close_group(
                id,
                approval_closed("expired"@, decided_by, now_ms, decision_key_hash),
            ) {
                Err(error) => Err(error),
                Ok(after) => Ok((after, OperationDecisionOutcomeView::StalePolicy)),
            }
        } else {
            match self.apply_group(
                id,
                expected_version,
                decision,
                decided_by,
                decision_key_hash,
                now_ms,
            ) {
                Err(error) => Err(error),
                Ok(after) => match first(
                    after.operation_approvals,
                    operation_approval_with(id, self.tenant_id),
                ) {
                    None => Err(StoreError::Database(DatabaseFault::RowNotFound)),
                    Some(row) => Ok((after, OperationDecisionOutcomeView::Applied(row.record))),
                },
            }
        }
    }

    /// Decide an approval for exactly the operations that were shown. The same
    /// decision again is a replay; a group with an operation that is not current
    /// is denied as a whole.
    pub open spec fn decide_operation_approval(
        self,
        c: ClockReadingView,
        id: Seq<char>,
        expected_version: i64,
        expected_ids: Seq<Seq<char>>,
        decision: Seq<char>,
        decided_by: Seq<char>,
        decision_key_hash: Seq<char>,
    ) -> (StoreView, Result<OperationDecisionOutcomeView, StoreError>) {
        let (s, gate) = self.checkpoint_clock(c);
        match gate {
            Err(error) => (s, Err(error)),
            Ok(()) => match first(
                s.operation_approvals,
                operation_approval_with(id, s.tenant_id),
            ) {
                None => (s, Ok(OperationDecisionOutcomeView::NotFound)),
                Some(row) => match json_strings(row.record.operation_ids_json) {
                    None => (s, Err(StoreError::InvalidInput("approval operation ids"))),
                    Some(stored_ids) => match s.decision_precheck(
                        row.record,
                        stored_ids,
                        expected_version,
                        expected_ids,
                        decision,
                        decided_by,
                        decision_key_hash,
                    ) {
                        Some(outcome) => (s, Ok(outcome)),
                        None => match s.now(c.now_ms) {
                            None => (s, Err(StoreError::Database(DatabaseFault::ClockBehind))),
                            Some(now_ms) => match s.decide_group(
                                row.record,
                                stored_ids,
                                expected_version,
                                decision,
                                decided_by,
                                decision_key_hash,
                                now_ms,
                            ) {
                                Err(error) => (s, Err(error)),
                                Ok((after, outcome)) => (after, Ok(outcome)),
                            },
                        },
                    },
                },
            },
        }
    }

    /// Read an operation.
    pub open spec fn operation_by_id(self, c: ClockReadingView, id: Seq<char>) -> (
        StoreView,
        Result<Option<OperationRecordView>, StoreError>,
    ) {
        let (s, gate) = self.checkpoint_clock(c);
        match gate {
            Err(error) => (s, Err(error)),
            Ok(()) => (
                s,
                Ok(
                    match first(s.operations, operation_with(id, s.tenant_id)) {
                        Some(row) => Some(row.record),
                        None => None,
                    },
                ),
            ),
        }
    }

    /// List operations.
    pub open spec fn list_operations(
        self,
        c: ClockReadingView,
        status: Option<Seq<char>>,
        cursor: Option<(i64, Seq<char>)>,
        limit: u32,
    ) -> (StoreView, Result<Seq<OperationRecordView>, StoreError>) {
        let (s, gate) = self.checkpoint_clock(c);
        match gate {
            Err(error) => (s, Err(error)),
            Ok(()) => (
                s,
                Ok(
                    page(
                        ordered(
                            selected(
                                s.operations,
                                listed_operation(s.tenant_id, wanted_status(status), cursor),
                                operation_of(),
                            ),
                            oldest_operation(),
                        ),
                        page_size(limit, 101),
                    ),
                ),
            ),
        }
    }

    /// Read an approval of operations.
    pub open spec fn operation_approval_by_id(self, c: ClockReadingView, id: Seq<char>) -> (
        StoreView,
        Result<Option<OperationApprovalRecordView>, StoreError>,
    ) {
        let (s, gate) = self.checkpoint_clock(c);
        match gate {
            Err(error) => (s, Err(error)),
            Ok(()) => (
                s,
                Ok(
                    match first(
                        s.operation_approvals,
                        operation_approval_with(id, s.tenant_id),
                    ) {
                        Some(row) => Some(row.record),
                        None => None,
                    },
                ),
            ),
        }
    }

    /// List approvals of operations.
    pub open spec fn list_operation_approvals(
        self,
        c: ClockReadingView,
        status: Option<Seq<char>>,
        cursor: Option<(i64, Seq<char>)>,
        limit: u32,
    ) -> (StoreView, Result<Seq<OperationApprovalRecordView>, StoreError>) {
        let (s, gate) = self.checkpoint_clock(c);
        match gate {
            Err(error) => (s, Err(error)),
            Ok(()) => (
                s,
                Ok(
                    page(
                        ordered(
                            selected(
                                s.operation_approvals,
                                listed_operation_approval(
                                    s.tenant_id,
                                    wanted_status(status),
                                    cursor,
                                    s.now(c.now_ms),
                                ),
                                operation_approval_of(),
                            ),
                            oldest_approval(),
                        ),
                        page_size(limit, 101),
                    ),
                ),
            ),
        }
    }

    /// Count the live pending approvals of operations.
    pub open spec fn count_pending_operation_approvals(self, c: ClockReadingView) -> (
        StoreView,
        Result<i64, StoreError>,
    ) {
        let (s, gate) = self.checkpoint_clock(c);
        match gate {
            Err(error) => (s, Err(error)),
            Ok(()) => (
                s,
                Ok(
                    count(
                        s.operation_approvals,
                        open_approval(s.tenant_id, s.now(c.now_ms)),
                    ) as i64,
                ),
            ),
        }
    }
}

fn is_pending_at(row: &OperationApprovalRow, id: &str, tenant_id: &str, version: i64) -> (yes: bool)
    ensures
        yes == pending_at(id@, tenant_id@, version)(row@),
{
    same(&row.record.id, id) && same(&row.tenant_id, tenant_id) && same(
        &row.record.status,
        "pending",
    ) && row.record.version == version
}

fn is_waiting_for(row: &OperationRow, approval_id: &str, tenant_id: &str) -> (yes: bool)
    ensures
        yes == waiting_for(approval_id@, tenant_id@)(row@),
{
    is_text(&row.record.approval_id, approval_id) && same(&row.tenant_id, tenant_id) && same(
        &row.record.status,
        "awaiting_approval",
    )
}

fn approve_row(row: &OperationRow, now_ms: i64) -> (next: Option<OperationRow>)
    ensures
        option_view(next) == operation_approved(now_ms)(row@),
{
    if row.record.version == i64::MAX {
        return None;
    }
    let until: i128 = now_ms as i128 + row.record.requested_ttl_seconds as i128 * 1_000;
    if until > i64::MAX as i128 || until < i64::MIN as i128 {
        return None;
    }
    let mut next = row.duplicate();
    next.record.status = "requested".to_owned();
    next.record.expires_at_ms = until as i64;
    next.record.version = row.record.version + 1;
    Some(next)
}

fn close_row(
    row: &OperationApprovalRow,
    status: &str,
    decided_by: &str,
    decided_at_ms: i64,
    decision_key_hash: &str,
) -> (next: Option<OperationApprovalRow>)
    ensures
        option_view(next) == approval_closed(
            status@,
            decided_by@,
            decided_at_ms,
            decision_key_hash@,
        )(row@),
{
    if row.record.version == i64::MAX {
        return None;
    }
    let mut next = row.duplicate();
    next.record.status = status.to_owned();
    next.record.decided_by = Some(decided_by.to_owned());
    next.record.decided_at_ms = Some(decided_at_ms);
    next.record.decision_key_hash = Some(decision_key_hash.to_owned());
    next.record.version = row.record.version + 1;
    Some(next)
}

/// The view of an optional draft.
pub open spec fn draft_view(draft: Option<&OperationApprovalDraft>) -> Option<
    OperationApprovalDraftView,
> {
    match draft {
        Some(inner) => Some(inner@),
        None => None,
    }
}

/// The open approval that an operation was put to: its list of operations reads
/// back, holds the operation, and is no longer than a group may be.
pub open spec fn approval_holding(
    id: Seq<char>,
    tenant_id: Seq<char>,
    operation_id: Seq<char>,
) -> spec_fn(OperationApprovalRowView) -> bool {
    |row: OperationApprovalRowView|
        row.record.id == id && row.tenant_id == tenant_id && row.record.status == "pending"@
            && json_strings(row.record.operation_ids_json) is Some && json_strings(
            row.record.operation_ids_json,
        )->0.contains(operation_id) && json_strings(row.record.operation_ids_json)->0.len()
            <= MAX_APPROVAL_OPERATIONS
}

/// What a step that also yields an approval did.
pub open spec fn joined(
    expected: Result<(StoreView, Seq<char>), StoreError>,
    after: StoreView,
    reply: Result<String, StoreError>,
) -> bool {
    match expected {
        Ok((state, id)) => reply is Ok && reply->Ok_0@ == id && after == state,
        Err(error) => reply is Err && reply->Err_0 == error,
    }
}

impl Store {
    fn approval_candidates(&self, draft: &OperationApprovalDraft, now: Option<i64>) -> (found: Vec<
        OperationApprovalRecord,
    >)
        ensures
            rows_view(found@) == self@.approval_candidates(draft@, now),
    {
        let tenant_id = &self.tenant_id;
        let found = select_rows(
            &self.operation_approvals,
            |row: &OperationApprovalRow| -> (b: bool)
                ensures b == joinable_approval(draft@, tenant_id@, now)(row@)
                {
                    same(&row.tenant_id, tenant_id) && same(&row.record.status, "pending") && same(
                        &row.record.rule_id,
                        &draft.rule_id,
                    ) && same(&row.record.requester_summary_json, &draft.requester_summary_json)
                        && same(&row.record.verified_identity_json, &draft.verified_identity_json)
                        && is_unexpired(row.record.expires_at_ms, now)
                },
            |row: &OperationApprovalRow| -> (record: OperationApprovalRecord)
                ensures record@ == operation_approval_of()(row@)
                { row.record.duplicate() },
            Ghost(joinable_approval(draft@, tenant_id@, now)),
            Ghost(operation_approval_of()),
        );
        let sorted = order_rows(
            found,
            |a: &OperationApprovalRecord, b: &OperationApprovalRecord| -> (less: bool)
                ensures less == newest_approval()(a@, b@)
                { is_before(b.created_at_ms, &b.id, a.created_at_ms, &a.id) },
            Ghost(newest_approval()),
        );
        page_rows(sorted, 50)
    }

    fn insert_operation_approval(
        &mut self,
        operation_id: &str,
        draft: &OperationApprovalDraft,
        now_ms: i64,
    ) -> (reply: Result<String, StoreError>)
        ensures
            joined(
                old(self)@.insert_operation_approval(operation_id@, draft@, now_ms),
                final(self)@,
                reply,
            ),
            reply is Ok ==> any(
                final(self)@.operation_approvals,
                approval_holding(reply->Ok_0@, final(self)@.tenant_id, operation_id@),
            ),
    {
        let mut ids: Vec<String> = Vec::new();
        ids.push(operation_id.to_owned());
        proof {
            assert(texts(ids@) =~= seq![operation_id@]);
        }
        let operation_ids_json = match list_text(&ids) {
            Ok(text) => text,
            Err(_) => {
                return Err(StoreError::InvalidInput("approval operation ids"));
            },
        };
        let id = &draft.id;
        let taken = any_row(
            &self.operation_approvals,
            |row: &OperationApprovalRow| -> (b: bool)
                ensures b == operation_approval_taken(id@)(row@)
                { same(&row.record.id, id) },
            Ghost(operation_approval_taken(id@)),
        );
        if taken {
            return Err(StoreError::Database(DatabaseFault::DuplicateKey));
        }
        let row = OperationApprovalRow {
            tenant_id: self.tenant_id.clone(),
            record: OperationApprovalRecord {
                id: draft.id.clone(),
                operation_ids_json,
                requester_summary_json: draft.requester_summary_json.clone(),
                verified_identity_json: draft.verified_identity_json.clone(),
                rule_id: draft.rule_id.clone(),
                status: "pending".to_owned(),
                decided_by: None,
                decided_at_ms: None,
                expires_at_ms: draft.expires_at_ms,
                idempotency_key: draft.idempotency_key.clone(),
                decision_key_hash: None,
                version: 1,
                created_at_ms: now_ms,
            },
        };
        push_row(&mut self.operation_approvals, row);
        proof {
            let rows = self@.operation_approvals;
            assert(texts(ids@)[0] == operation_id@);
            assert(approval_holding(draft.id@, self@.tenant_id, operation_id@)(
                rows[rows.len() - 1],
            ));
        }
        Ok(draft.id.clone())
    }

    /// Put an operation to an open approval that has room, or to a new one.
    fn create_or_extend_approval(
        &mut self,
        operation_id: &str,
        draft: &OperationApprovalDraft,
        now_ms: i64,
    ) -> (reply: Result<String, StoreError>)
        ensures
            joined(
                old(self)@.join_approval(
                    old(self)@.approval_candidates(draft@, Some(now_ms)),
                    operation_id@,
                    draft@,
                    now_ms,
                ),
                final(self)@,
                reply,
            ),
            reply is Ok ==> any(
                final(self)@.operation_approvals,
                approval_holding(reply->Ok_0@, final(self)@.tenant_id, operation_id@),
            ),
    {
        let candidates = self.approval_candidates(draft, Some(now_ms));
        let ghost cv = rows_view(candidates@);
        let ghost goal = self@.join_approval(cv, operation_id@, draft@, now_ms);
        let mut i: usize = 0;
        proof {
            assert(cv.skip(0) =~= cv);
        }
        while i < candidates.len()
            invariant
                i <= candidates@.len(),
                cv == rows_view(candidates@),
                goal == self@.join_approval(cv.skip(i as int), operation_id@, draft@, now_ms),
                goal == old(self)@.join_approval(
                    old(self)@.approval_candidates(draft@, Some(now_ms)),
                    operation_id@,
                    draft@,
                    now_ms,
                ),
            decreases candidates@.len() - i,
        {
            let candidate = &candidates[i];
            proof {
                assert(cv.skip(i as int)[0] == candidate@);
                assert(cv.skip(i as int).skip(1) =~= cv.skip(i + 1));
            }
            let mut ids = match parse_list(&candidate.operation_ids_json) {
                Ok(ids) => ids,
                Err(_) => {
                    return Err(StoreError::InvalidInput("approval operation ids"));
                },
            };
            if ids.len() < MAX_APPROVAL_OPERATIONS && !holds_text(&ids, operation_id) {
                let ghost known = texts(ids@);
                ids.push(operation_id.to_owned());
                proof {
                    assert(texts(ids@) =~= known.push(operation_id@));
                }
                let encoded = match list_text(&ids) {
                    Ok(text) => text,
                    Err(_) => {
                        return Err(StoreError::InvalidInput("approval operation ids"));
                    },
                };
                let tenant_id = &self.tenant_id;
                let id = &candidate.id;
                let version: i64 = candidate.version;
                let ghost before = self@.operation_approvals;
                let changed = attempt_rows(
                    &mut self.operation_approvals,
                    |row: &OperationApprovalRow| -> (b: bool)
                        ensures b == pending_at(id@, tenant_id@, version)(row@)
                        { is_pending_at(row, id, tenant_id, version) },
                    |row: &OperationApprovalRow| -> (next: Option<OperationApprovalRow>)
                        ensures option_view(next) == approval_extended(encoded@)(row@)
                        {
                            if row.record.version == i64::MAX {
                                return None;
                            }
                            let mut next = row.duplicate();
                            next.record.operation_ids_json = encoded.clone();
                            next.record.version = row.record.version + 1;
                            Some(next)
                        },
                    Ghost(pending_at(id@, tenant_id@, version)),
                    Ghost(approval_extended(encoded@)),
                );
                match changed {
                    None => {
                        return Err(StoreError::Database(DatabaseFault::OutOfRange));
                    },
                    Some(rows) => {
                        if rows == 1 {
                            proof {
                                let hit = pending_at(candidate.id@, self@.tenant_id, version);
                                let change = approval_extended(encoded@);
                                lemma_any_counted(before, hit);
                                lemma_attempted(before, hit, change);
                                let j = choose|j: int|
                                    0 <= j < before.len() && hit(#[trigger] before[j]);
                                assert(change(before[j]) is Some);
                                assert(texts(ids@)[texts(ids@).len() - 1] == operation_id@);
                                assert(approval_holding(
                                    candidate.id@,
                                    self@.tenant_id,
                                    operation_id@,
                                )(self@.operation_approvals[j]));
                            }
                            return Ok(candidate.id.clone());
                        }
                    },
                }
            }
            i = i + 1;
        }
        self.insert_operation_approval(operation_id, draft, now_ms)
    }

    fn insert_operation(
        &mut self,
        record: &OperationRecord,
        approval_id: Option<String>,
        now_ms: i64,
    ) -> (reply: Result<OperationRecord, StoreError>)
        ensures
            match old(self)@.insert_operation(
                record@,
                crate::text::optional_text(approval_id),
                now_ms,
            ) {
                Ok((after, created)) => reply is Ok && reply->Ok_0@ == created && final(self)@
                    == after,
                Err(error) => reply is Err && reply->Err_0 == error,
            },
    {
        let id = &record.id;
        let taken = any_row(
            &self.operations,
            |row: &OperationRow| -> (b: bool)
                ensures b == operation_taken(id@)(row@)
                { same(&row.record.id, id) },
            Ghost(operation_taken(id@)),
        );
        if taken {
            return Err(StoreError::Database(DatabaseFault::DuplicateKey));
        }
        let mut created = record.duplicate();
        created.approval_id = approval_id;
        created.created_at_ms = now_ms;
        created.completed_at_ms = None;
        created.version = 1;
        let row = OperationRow { tenant_id: self.tenant_id.clone(), record: created.duplicate() };
        push_row(&mut self.operations, row);
        Ok(created)
    }

    fn admit_operation(
        &mut self,
        record: &OperationRecord,
        approval: Option<&OperationApprovalDraft>,
        now_ms: i64,
    ) -> (reply: Result<OperationRecord, StoreError>)
        ensures
            match old(self)@.admit_operation(record@, draft_view(approval), now_ms) {
                Ok((after, created)) => reply is Ok && reply->Ok_0@ == created && final(self)@
                    == after,
                Err(error) => reply is Err && reply->Err_0 == error,
            },
            reply is Ok && approval is Some ==> reply->Ok_0@.approval_id is Some && any(
                final(self)@.operation_approvals,
                approval_holding(reply->Ok_0@.approval_id->0, final(self)@.tenant_id, record@.id),
            ),
    {
        match approval {
            None => self.insert_operation(record, None, now_ms),
            Some(draft) => match self.create_or_extend_approval(&record.id, draft, now_ms) {
                Err(error) => Err(error),
                Ok(approval_id) => self.insert_operation(record, Some(approval_id), now_ms),
            },
        }
    }

    fn workload_bound(
        &self,
        record: &OperationRecord,
        unit: &str,
        account: &str,
        ttl_seconds: i64,
    ) -> (bound: bool)
        ensures
            bound == (any(
                self@.workloads,
                bound_workload(record@, self@.tenant_id, unit@, account@, ttl_seconds),
            ) && any(self@.nodes, active_node(record@.node_id, self@.tenant_id))),
    {
        let tenant_id = &self.tenant_id;
        let node_id = &record.node_id;
        let workload = any_row(
            &self.workloads,
            |row: &WorkloadRow| -> (b: bool)
                ensures b == bound_workload(record@, tenant_id@, unit@, account@, ttl_seconds)(row@)
                {
                    same(&row.record.id, &record.workload_id) && same(&row.tenant_id, tenant_id)
                        && same(&row.record.node_id, &record.node_id) && same(
                        &row.record.unit,
                        unit,
                    ) && same(&row.record.account, account) && same(
                        &row.record.consumption_mode,
                        &record.mode,
                    ) && row.record.local_ceiling_seconds >= ttl_seconds && same(
                        &row.record.status,
                        "active",
                    )
                },
            Ghost(bound_workload(record@, tenant_id@, unit@, account@, ttl_seconds)),
        );
        let node = any_row(
            &self.nodes,
            |row: &NodeRow| -> (b: bool)
                ensures b == active_node(node_id@, tenant_id@)(row@)
                {
                    same(&row.id, node_id) && same(&row.tenant_id, tenant_id) && same(
                        &row.status,
                        "active",
                    )
                },
            Ghost(active_node(node_id@, tenant_id@)),
        );
        workload && node
    }

    /// Request an operation, once per key and once per node event, for a
    /// workload, a policy and a deadline that are current.
    pub fn create_operation(
        &mut self,
        reading: &ClockReading,
        record: &OperationRecord,
        expected_unit: &str,
        expected_account: &str,
        effective_ttl_seconds: i64,
        approval: Option<&OperationApprovalDraft>,
    ) -> (reply: Result<OperationCreateOutcome, StoreError>)
        ensures
            (final(self)@, answer(reply)) == old(self)@.create_operation(
                reading@,
                record@,
                expected_unit@,
                expected_account@,
                effective_ttl_seconds,
                draft_view(approval),
            ),
            match (reply, approval) {
                (Ok(OperationCreateOutcome::Created(created)), Some(_)) => {
                    &&& created@.approval_id is Some
                    &&& any(
                        final(self)@.operation_approvals,
                        approval_holding(
                            created@.approval_id->0,
                            final(self)@.tenant_id,
                            record@.id,
                        ),
                    )
                },
                _ => true,
            },
    {
        if let Err(error) = self.checkpoint_clock(reading) {
            return Err(error);
        }
        let tenant_id = &self.tenant_id;
        let requested_by = &record.requested_by;
        let key = &record.idempotency_key;
        let existing = find_row(
            &self.operations,
            |row: &OperationRow| -> (b: bool)
                ensures b == operation_under(tenant_id@, requested_by@, key@)(row@)
                {
                    same(&row.tenant_id, tenant_id) && same(&row.record.requested_by, requested_by)
                        && same(&row.record.idempotency_key, key)
                },
            Ghost(operation_under(tenant_id@, requested_by@, key@)),
        );
        if let Some(at) = existing {
            return Ok(
                if same(&self.operations[at].record.request_hash, &record.request_hash) {
                    OperationCreateOutcome::Existing(self.operations[at].record.duplicate())
                } else {
                    OperationCreateOutcome::Conflict
                },
            );
        }
        if let Some(event_key) = &record.broker_event_key {
            let node_id = &record.node_id;
            let used = any_row(
                &self.operations,
                |row: &OperationRow| -> (b: bool)
                    ensures b == operation_for_event(tenant_id@, node_id@, event_key@)(row@)
                    {
                        same(&row.tenant_id, tenant_id) && same(&row.record.node_id, node_id)
                            && is_text(&row.record.broker_event_key, event_key)
                    },
                Ghost(operation_for_event(tenant_id@, node_id@, event_key@)),
            );
            if used {
                return Ok(OperationCreateOutcome::Conflict);
            }
        }
        if self.current_fleet_policy().version != record.policy_version {
            return Ok(OperationCreateOutcome::Stale);
        }
        let now_ms: i64 = match self.now(reading.now_ms) {
            Some(now_ms) => now_ms,
            None => {
                return Err(StoreError::Database(DatabaseFault::ClockBehind));
            },
        };
        if record.expires_at_ms <= now_ms || !self.workload_bound(
            record,
            expected_unit,
            expected_account,
            effective_ttl_seconds,
        ) {
            return Ok(OperationCreateOutcome::Stale);
        }
        let mut transaction = self.duplicate();
        match transaction.admit_operation(record, approval, now_ms) {
            Ok(created) => {
                *self = transaction;
                Ok(OperationCreateOutcome::Created(created))
            },
            Err(error) => Err(error),
        }
    }

    fn is_current(&self, operation_id: &str, approval_id: &str, policy_version: i64, now_ms: i64) -> (
        current: bool)
        requires
            policy_version == self@.current_fleet_policy().version,
        ensures
            current == self@.operation_current(operation_id@, approval_id@, now_ms),
    {
        let tenant_id = &self.tenant_id;
        let workloads = &self.workloads;
        let nodes = &self.nodes;
        let ghost hit = grouped_operation(
            rows_view(workloads@),
            rows_view(nodes@),
            operation_id@,
            tenant_id@,
            approval_id@,
        );
        let found = find_row(
            &self.operations,
            |row: &OperationRow| -> (b: bool)
                ensures b == hit(row@)
                {
                    same(&row.record.id, operation_id) && same(&row.tenant_id, tenant_id)
                        && is_text(&row.record.approval_id, approval_id) && find_workload(
                        workloads,
                        &row.record.workload_id,
                    ).is_some() && find_any_node(nodes, &row.record.node_id).is_some()
                },
            Ghost(hit),
        );
        match found {
            None => false,
            Some(at) => {
                let row = &self.operations[at];
                let workload_active = match find_workload(
                    &self.workloads,
                    &row.record.workload_id,
                ) {
                    Some(workload) => same(&self.workloads[workload].record.status, "active"),
                    None => false,
                };
                let node_active = match find_any_node(&self.nodes, &row.record.node_id) {
                    Some(node) => same(&self.nodes[node].status, "active"),
                    None => false,
                };
                row.record.policy_version == policy_version && same(
                    &row.record.status,
                    "awaiting_approval",
                ) && row.record.expires_at_ms > now_ms && workload_active && node_active
            },
        }
    }

    fn all_current(&self, ids: &Vec<String>, approval_id: &str, now_ms: i64) -> (current: bool)
        ensures
            current == !any(
                texts(ids@),
                |operation_id: Seq<char>|
                    !self@.operation_current(operation_id, approval_id@, now_ms),
            ),
    {
        let policy_version: i64 = self.current_fleet_policy().version;
        let ghost tv = texts(ids@);
        let ghost lost = |operation_id: Seq<char>|
            !self@.operation_current(operation_id, approval_id@, now_ms);
        let mut i: usize = 0;
        while i < ids.len()
            invariant
                i <= ids@.len(),
                tv == texts(ids@),
                policy_version == self@.current_fleet_policy().version,
                lost == (|operation_id: Seq<char>|
                    !self@.operation_current(operation_id, approval_id@, now_ms)),
                forall|j: int| 0 <= j < i ==> !lost(#[trigger] tv[j]),
            decreases ids@.len() - i,
        {
            if !self.is_current(&ids[i], approval_id, policy_version, now_ms) {
                proof {
                    assert(lost(tv[i as int]));
                }
                return false;
            }
            i = i + 1;
        }
        true
    }

    fn deny_waiting(&mut self, approval_id: &str) -> (reply: Result<(), StoreError>)
        ensures
            match attempted(
                old(self)@.operations,
                waiting_for(approval_id@, old(self)@.tenant_id),
                restated("denied"@),
            ) {
                None => reply == Err::<(), StoreError>(
                    StoreError::Database(DatabaseFault::OutOfRange),
                ),
                Some(operations) => reply is Ok && final(self)@ == (StoreView {
                    operations,
                    ..old(self)@
                }),
            },
    {
        let tenant_id = &self.tenant_id;
        let denied = attempt_rows(
            &mut self.operations,
            |row: &OperationRow| -> (b: bool)
                ensures b == waiting_for(approval_id@, tenant_id@)(row@)
                { is_waiting_for(row, approval_id, tenant_id) },
            |row: &OperationRow| -> (next: Option<OperationRow>)
                ensures option_view(next) == restated("denied"@)(row@)
                { restate(row, "denied") },
            Ghost(waiting_for(approval_id@, tenant_id@)),
            Ghost(restated("denied"@)),
        );
        match denied {
            None => Err(StoreError::Database(DatabaseFault::OutOfRange)),
            Some(_) => Ok(()),
        }
    }

    fn lapse_group(&mut self, id: &str) -> (reply: Result<(), StoreError>)
        ensures
            stepped(old(self)@.close_group(id@, approval_lapsed()), final(self)@, reply),
    {
        let tenant_id = &self.tenant_id;
        let closed = attempt_rows(
            &mut self.operation_approvals,
            |row: &OperationApprovalRow| -> (b: bool)
                ensures b == pending_with(id@, tenant_id@)(row@)
                {
                    same(&row.record.id, id) && same(&row.tenant_id, tenant_id) && same(
                        &row.record.status,
                        "pending",
                    )
                },
            |row: &OperationApprovalRow| -> (next: Option<OperationApprovalRow>)
                ensures option_view(next) == approval_lapsed()(row@)
                {
                    if row.record.version == i64::MAX {
                        return None;
                    }
                    let mut next = row.duplicate();
                    next.record.status = "expired".to_owned();
                    next.record.version = row.record.version + 1;
                    Some(next)
                },
            Ghost(pending_with(id@, tenant_id@)),
            Ghost(approval_lapsed()),
        );
        if closed.is_none() {
            return Err(StoreError::Database(DatabaseFault::OutOfRange));
        }
        self.deny_waiting(id)
    }

    fn expire_group(
        &mut self,
        id: &str,
        decided_by: &str,
        decision_key_hash: &str,
        now_ms: i64,
    ) -> (reply: Result<(), StoreError>)
        ensures
            stepped(
                old(self)@.close_group(
                    id@,
                    approval_closed("expired"@, decided_by@, now_ms, decision_key_hash@),
                ),
                final(self)@,
                reply,
            ),
    {
        let tenant_id = &self.tenant_id;
        let ghost change = approval_closed("expired"@, decided_by@, now_ms, decision_key_hash@);
        let closed = attempt_rows(
            &mut self.operation_approvals,
            |row: &OperationApprovalRow| -> (b: bool)
                ensures b == pending_with(id@, tenant_id@)(row@)
                {
                    same(&row.record.id, id) && same(&row.tenant_id, tenant_id) && same(
                        &row.record.status,
                        "pending",
                    )
                },
            |row: &OperationApprovalRow| -> (next: Option<OperationApprovalRow>)
                ensures option_view(next) == change(row@)
                { close_row(row, "expired", decided_by, now_ms, decision_key_hash) },
            Ghost(pending_with(id@, tenant_id@)),
            Ghost(change),
        );
        if closed.is_none() {
            return Err(StoreError::Database(DatabaseFault::OutOfRange));
        }
        self.deny_waiting(id)
    }

    fn apply_group(
        &mut self,
        id: &str,
        expected_version: i64,
        decision: &str,
        decided_by: &str,
        decision_key_hash: &str,
        now_ms: i64,
    ) -> (reply: Result<(), StoreError>)
        ensures
            stepped(
                old(self)@.apply_group(
                    id@,
                    expected_version,
                    decision@,
                    decided_by@,
                    decision_key_hash@,
                    now_ms,
                ),
                final(self)@,
                reply,
            ),
    {
        let tenant_id = &self.tenant_id;
        let ghost change = approval_closed(decision@, decided_by@, now_ms, decision_key_hash@);
        let closed = attempt_rows(
            &mut self.operation_approvals,
            |row: &OperationApprovalRow| -> (b: bool)
                ensures b == pending_at(id@, tenant_id@, expected_version)(row@)
                { is_pending_at(row, id, tenant_id, expected_version) },
            |row: &OperationApprovalRow| -> (next: Option<OperationApprovalRow>)
                ensures option_view(next) == change(row@)
                { close_row(row, decision, decided_by, now_ms, decision_key_hash) },
            Ghost(pending_at(id@, tenant_id@, expected_version)),
            Ghost(change),
        );
        if closed.is_none() {
            return Err(StoreError::Database(DatabaseFault::OutOfRange));
        }
        if !same(decision, "approved") {
            return self.deny_waiting(id);
        }
        let tenant_id = &self.tenant_id;
        let approved = attempt_rows(
            &mut self.operations,
            |row: &OperationRow| -> (b: bool)
                ensures b == waiting_for(id@, tenant_id@)(row@)
                { is_waiting_for(row, id, tenant_id) },
            |row: &OperationRow| -> (next: Option<OperationRow>)
                ensures option_view(next) == operation_approved(now_ms)(row@)
                { approve_row(row, now_ms) },
            Ghost(waiting_for(id@, tenant_id@)),
            Ghost(operation_approved(now_ms)),
        );
        match approved {
            None => Err(StoreError::Database(DatabaseFault::OutOfRange)),
            Some(_) => Ok(()),
        }
    }

    fn find_operation_approval(&self, id: &str) -> (found: Option<usize>)
        ensures
            match found {
                Some(at) => {
                    &&& at < self.operation_approvals@.len()
                    &&& operation_approval_with(id@, self@.tenant_id)(
                        self.operation_approvals@[at as int]@,
                    )
                    &&& first(
                        self@.operation_approvals,
                        operation_approval_with(id@, self@.tenant_id),
                    ) == Some(self.operation_approvals@[at as int]@)
                },
                None => first(
                    self@.operation_approvals,
                    operation_approval_with(id@, self@.tenant_id),
                ) is None,
            },
    {
        let tenant_id = &self.tenant_id;
        find_row(
            &self.operation_approvals,
            |row: &OperationApprovalRow| -> (b: bool)
                ensures b == operation_approval_with(id@, tenant_id@)(row@)
                { same(&row.record.id, id) && same(&row.tenant_id, tenant_id) },
            Ghost(operation_approval_with(id@, tenant_id@)),
        )
    }

    fn decide_group(
        &mut self,
        approval: &OperationApprovalRecord,
        stored_ids: &Vec<String>,
        expected_version: i64,
        decision: &str,
        decided_by: &str,
        decision_key_hash: &str,
        now_ms: i64,
    ) -> (reply: Result<OperationDecisionOutcome, StoreError>)
        ensures
            match old(self)@.decide_group(
                approval@,
                texts(stored_ids@),
                expected_version,
                decision@,
                decided_by@,
                decision_key_hash@,
                now_ms,
            ) {
                Ok((after, outcome)) => reply is Ok && reply->Ok_0@ == outcome && final(self)@
                    == after,
                Err(error) => reply is Err && reply->Err_0 == error,
            },
    {
        let id = &approval.id;
        if approval.expires_at_ms <= now_ms {
            return match self.lapse_group(id) {
                Ok(()) => Ok(OperationDecisionOutcome::StalePolicy),
                Err(error) => Err(error),
            };
        }
        if !self.all_current(stored_ids, id, now_ms) {
            return match self.expire_group(id, decided_by, decision_key_hash, now_ms) {
                Ok(()) => Ok(OperationDecisionOutcome::StalePolicy),
                Err(error) => Err(error),
            };
        }
        if let Err(error) = self.apply_group(
            id,
            expected_version,
            decision,
            decided_by,
            decision_key_hash,
            now_ms,
        ) {
            return Err(error);
        }
        match self.find_operation_approval(id) {
            Some(at) => Ok(
                OperationDecisionOutcome::Applied(self.operation_approvals[at].record.duplicate()),
            ),
            None => Err(StoreError::Database(DatabaseFault::RowNotFound)),
        }
    }

    /// Decide an approval for exactly the operations that were shown.
    pub fn decide_operation_approval(
        &mut self,
        reading: &ClockReading,
        id: &str,
        expected_version: i64,
        expected_operation_ids: &Vec<String>,
        decision: &str,
        decided_by: &str,
        decision_key_hash: &str,
    ) -> (reply: Result<OperationDecisionOutcome, StoreError>)
        ensures
            (final(self)@, answer(reply)) == old(self)@.decide_operation_approval(
                reading@,
                id@,
                expected_version,
                texts(expected_operation_ids@),
                decision@,
                decided_by@,
                decision_key_hash@,
            ),
    {
        if let Err(error) = self.checkpoint_clock(reading) {
            return Err(error);
        }
        let at: usize = match self.find_operation_approval(id) {
            Some(at) => at,
            None => {
                return Ok(OperationDecisionOutcome::NotFound);
            },
        };
        let approval = self.operation_approvals[at].record.duplicate();
        let stored_ids = match parse_list(&approval.operation_ids_json) {
            Ok(ids) => ids,
            Err(_) => {
                return Err(StoreError::InvalidInput("approval operation ids"));
            },
        };
        let decisive = same(decision, "approved") || same(decision, "rejected");
        let target: &str = if same(decision, "approved") {
            "approved"
        } else {
            "rejected"
        };
        let same_ids = same_texts(&stored_ids, expected_operation_ids);
        if same(&approval.status, target) && approval.version == saturated_sum(
            expected_version,
            1,
        ) && is_text(&approval.decided_by, decided_by) && is_text(
            &approval.decision_key_hash,
            decision_key_hash,
        ) && same_ids {
            return Ok(OperationDecisionOutcome::Replayed(approval));
        }
        if !decisive || !same(&approval.status, "pending") || approval.version != expected_version
            || !same_ids || stored_ids.len() == 0 || stored_ids.len() > MAX_APPROVAL_OPERATIONS {
            return Ok(OperationDecisionOutcome::Conflict);
        }
        let now_ms: i64 = match self.now(reading.now_ms) {
            Some(now_ms) => now_ms,
            None => {
                return Err(StoreError::Database(DatabaseFault::ClockBehind));
            },
        };
        let mut transaction = self.duplicate();
        match transaction.decide_group(
            &approval,
            &stored_ids,
            expected_version,
            decision,
            decided_by,
            decision_key_hash,
            now_ms,
        ) {
            Ok(outcome) => {
                *self = transaction;
                Ok(outcome)
            },
            Err(error) => Err(error),
        }
    }

    /// Read an operation.
    pub fn operation_by_id(&mut self, reading: &ClockReading, id: &str) -> (reply: Result<
        Option<OperationRecord>,
        StoreError,
    >)
        ensures
            (final(self)@, answer_option(reply)) == old(self)@.operation_by_id(reading@, id@),
    {
        if let Err(error) = self.checkpoint_clock(reading) {
            return Err(error);
        }
        let tenant_id = &self.tenant_id;
        let found = find_row(
            &self.operations,
            |row: &OperationRow| -> (b: bool)
                ensures b == operation_with(id@, tenant_id@)(row@)
                { same(&row.record.id, id) && same(&row.tenant_id, tenant_id) },
            Ghost(operation_with(id@, tenant_id@)),
        );
        match found {
            Some(at) => Ok(Some(self.operations[at].record.duplicate())),
            None => Ok(None),
        }
    }

    /// List operations by creation, of one status where one is given.
    pub fn list_operations(
        &mut self,
        reading: &ClockReading,
        status: Option<&str>,
        cursor: Option<(i64, String)>,
        limit: u32,
    ) -> (reply: Result<Vec<OperationRecord>, StoreError>)
        ensures
            (final(self)@, answer_rows(reply)) == old(self)@.list_operations(
                reading@,
                optional_str(status),
                cursor_view(cursor),
                limit,
            ),
    {
        if let Err(error) = self.checkpoint_clock(reading) {
            return Err(error);
        }
        let size: usize = clamp_limit(limit, 101);
        let wanted = status_text(status);
        let tenant_id = &self.tenant_id;
        let ghost shown = listed_operation(tenant_id@, wanted@, cursor_view(cursor));
        let found = select_rows(
            &self.operations,
            |row: &OperationRow| -> (b: bool)
                ensures b == shown(row@)
                {
                    same(&row.tenant_id, tenant_id) && (wanted.is_empty() || same(
                        &row.record.status,
                        wanted,
                    )) && is_behind(&cursor, row.record.created_at_ms, &row.record.id)
                },
            |row: &OperationRow| -> (record: OperationRecord)
                ensures record@ == operation_of()(row@)
                { row.record.duplicate() },
            Ghost(shown),
            Ghost(operation_of()),
        );
        let sorted = order_rows(
            found,
            |a: &OperationRecord, b: &OperationRecord| -> (less: bool)
                ensures less == oldest_operation()(a@, b@)
                { is_before(a.created_at_ms, &a.id, b.created_at_ms, &b.id) },
            Ghost(oldest_operation()),
        );
        Ok(page_rows(sorted, size))
    }

    /// Read an approval of operations.
    pub fn operation_approval_by_id(&mut self, reading: &ClockReading, id: &str) -> (reply: Result<
        Option<OperationApprovalRecord>,
        StoreError,
    >)
        ensures
            (final(self)@, answer_option(reply)) == old(self)@.operation_approval_by_id(
                reading@,
                id@,
            ),
    {
        if let Err(error) = self.checkpoint_clock(reading) {
            return Err(error);
        }
        match self.find_operation_approval(id) {
            Some(at) => Ok(Some(self.operation_approvals[at].record.duplicate())),
            None => Ok(None),
        }
    }

    /// List approvals of operations by creation, of one status where one is
    /// given, without pending ones that lapsed.
    pub fn list_operation_approvals(
        &mut self,
        reading: &ClockReading,
        status: Option<&str>,
        cursor: Option<(i64, String)>,
        limit: u32,
    ) -> (reply: Result<Vec<OperationApprovalRecord>, StoreError>)
        ensures
            (final(self)@, answer_rows(reply)) == old(self)@.list_operation_approvals(
                reading@,
                optional_str(status),
                cursor_view(cursor),
                limit,
            ),
    {
        if let Err(error) = self.checkpoint_clock(reading) {
            return Err(error);
        }
        let now = self.now(reading.now_ms);
        let size: usize = clamp_limit(limit, 101);
        let wanted = status_text(status);
        let tenant_id = &self.tenant_id;
        let ghost shown = listed_operation_approval(
            tenant_id@,
            wanted@,
            cursor_view(cursor),
            now,
        );
        let found = select_rows(
            &self.operation_approvals,
            |row: &OperationApprovalRow| -> (b: bool)
                ensures b == shown(row@)
                {
                    same(&row.tenant_id, tenant_id) && (wanted.is_empty() || same(
                        &row.record.status,
                        wanted,
                    )) && is_behind(&cursor, row.record.created_at_ms, &row.record.id) && (!same(
                        &row.record.status,
                        "pending",
                    ) || is_unexpired(row.record.expires_at_ms, now))
                },
            |row: &OperationApprovalRow| -> (record: OperationApprovalRecord)
                ensures record@ == operation_approval_of()(row@)
                { row.record.duplicate() },
            Ghost(shown),
            Ghost(operation_approval_of()),
        );
        let sorted = order_rows(
            found,
            |a: &OperationApprovalRecord, b: &OperationApprovalRecord| -> (less: bool)
                ensures less == oldest_approval()(a@, b@)
                { is_before(a.created_at_ms, &a.id, b.created_at_ms, &b.id) },
            Ghost(oldest_approval()),
        );
        Ok(page_rows(sorted, size))
    }

    /// Count the live pending approvals of operations.
    pub fn count_pending_operation_approvals(&mut self, reading: &ClockReading) -> (reply: Result<
        i64,
        StoreError,
    >)
        ensures
            (final(self)@, reply) == old(self)@.count_pending_operation_approvals(reading@),
    {
        if let Err(error) = self.checkpoint_clock(reading) {
            return Err(error);
        }
        let now = self.now(reading.now_ms);
        let tenant_id = &self.tenant_id;
        let total: usize = count_rows(
            &self.operation_approvals,
            |row: &OperationApprovalRow| -> (b: bool)
                ensures b == open_approval(tenant_id@, now)(row@)
                {
                    same(&row.tenant_id, tenant_id) && same(&row.record.status, "pending")
                        && is_unexpired(row.record.expires_at_ms, now)
                },
            Ghost(open_approval(tenant_id@, now)),
        );
        Ok(total as i64)
    }
}

pub(crate) fn status_text<'a>(status: Option<&'a str>) -> (wanted: &'a str)
    ensures
        wanted@ == wanted_status(optional_str(status)),
{
    match status {
        Some(status) => status,
        None => {
            proof {
                reveal_strlit("");
                assert(""@ =~= Seq::empty());
            }
            ""
        },
    }
}

pub(crate) fn find_workload(workloads: &Vec<WorkloadRow>, id: &str) -> (found: Option<usize>)
    ensures
        match found {
            Some(at) => {
                &&& at < workloads@.len()
                &&& any(rows_view(workloads@), any_workload(id@))
                &&& first(rows_view(workloads@), any_workload(id@)) == Some(
                    workloads@[at as int]@,
                )
            },
            None => !any(rows_view(workloads@), any_workload(id@)) && first(
                rows_view(workloads@),
                any_workload(id@),
            ) is None,
        },
{
    find_row(
        workloads,
        |row: &WorkloadRow| -> (b: bool)
            ensures b == any_workload(id@)(row@)
            { same(&row.record.id, id) },
        Ghost(any_workload(id@)),
    )
}

pub(crate) fn find_any_node(nodes: &Vec<NodeRow>, id: &str) -> (found: Option<usize>)
    ensures
        match found {
            Some(at) => {
                &&& at < nodes@.len()
                &&& any(rows_view(nodes@), any_node(id@))
                &&& first(rows_view(nodes@), any_node(id@)) == Some(nodes@[at as int]@)
            },
            None => !any(rows_view(nodes@), any_node(id@)) && first(
                rows_view(nodes@),
                any_node(id@),
            ) is None,
        },
{
    find_row(
        nodes,
        |row: &NodeRow| -> (b: bool)
            ensures b == any_node(id@)(row@)
            { same(&row.id, id) },
        Ghost(any_node(id@)),
    )
}

} // verus!
