//! Grants: how they are issued for operations, read and revoked.

use crate::authorization::{
    any_node, any_workload, find_any_node, find_workload, operation_approval_with, operation_taken,
    operation_with, shows, status_text, wanted_status,
};
use crate::clock::{ClockReading, ClockReadingView};
use crate::documents::{
    grant_revocation, is_sized, revocation_time, sized, validate_revocation_envelope,
    validate_revocation_time, DocumentKind, GrantIssueDraft, GrantIssueDraftView, GrantReading,
    GrantReadingView, Parsed, Revocation, RevocationView,
};
use crate::error::{DatabaseFault, StoreError};
use crate::json::{json_member, member_text};
use crate::limits::{
    clamp_limit, clamped, page_size, saturated_difference, saturated_sum, to_i64,
};
use crate::node_authority::{grant_revoked, node_with, tombstone_of};
use crate::operations::{
    is_live, is_running, live, reason_json, reason_result, restate, restated, running, settle,
    settled,
};
use crate::paging::{behind, cursor_view, is_before, is_behind, place_before};
use crate::records::{
    GrantIssueOutcome, GrantIssueOutcomeView, GrantRecord, GrantRecordView,
    GrantRevocationOutcome, GrantRevocationOutcomeView, OperationRecord, OperationRecordView,
};
use crate::relation::{
    answer, answer_option, answer_rows, any, any_row, attempt_rows, attempted, count, find_row,
    first, option_view, order_rows, ordered, page, page_rows, push_row, rows_view, select_rows,
    selected, update_rows, updated, Duplicate,
};
use crate::store::{stepped, Store, StoreView};
use crate::tables::{
    GrantRow, GrantRowView, OperationApprovalRow, OperationRow, OperationRowView, TombstoneRow,
    TombstoneRowView, WorkloadRow,
};
use crate::text::{
    append_decimal, copy_bytes, copy_optional, decimal, decode, optional_str, optional_text,
    same, same_bytes, same_optional, texts, utf8_text,
};
use crate::workloads::workload_with;
use vstd::prelude::*;

verus! {

/// How long a node may be unseen before it counts as offline.
pub const NODE_OFFLINE_MS: i64 = 120_000;

/// The most grants that are issued together.
pub const MAX_GRANT_GROUP: usize = 10;

/// What the issue of a grant looks at: the operation with its workload, its
/// node and its approval.
#[derive(Debug, PartialEq, Eq)]
pub struct GrantContext {
    pub operation: OperationRecord,
    pub workload_id: String,
    pub node_id: String,
    pub unit: String,
    pub account: String,
    pub mode: String,
    pub workload_ceiling: i64,
    pub workload_status: String,
    pub node_status: String,
    pub recipient_key_version: i64,
    pub approval_status: Option<String>,
}

/// What a `GrantContext` stands for.
#[verifier::ext_equal]
pub struct GrantContextView {
    pub operation: OperationRecordView,
    pub workload_id: Seq<char>,
    pub node_id: Seq<char>,
    pub unit: Seq<char>,
    pub account: Seq<char>,
    pub mode: Seq<char>,
    pub workload_ceiling: i64,
    pub workload_status: Seq<char>,
    pub node_status: Seq<char>,
    pub recipient_key_version: i64,
    pub approval_status: Option<Seq<char>>,
}

impl View for GrantContext {
    type V = GrantContextView;

    open spec fn view(&self) -> GrantContextView {
        GrantContextView {
            operation: self.operation@,
            workload_id: self.workload_id@,
            node_id: self.node_id@,
            unit: self.unit@,
            account: self.account@,
            mode: self.mode@,
            workload_ceiling: self.workload_ceiling,
            workload_status: self.workload_status@,
            node_status: self.node_status@,
            recipient_key_version: self.recipient_key_version,
            approval_status: optional_text(self.approval_status),
        }
    }
}

/// A column read as an unsigned number: a negative one wraps around.
pub open spec fn unsigned_column(value: i64) -> int {
    if value < 0 {
        value + 0x1_0000_0000_0000_0000
    } else {
        value as int
    }
}

/// The identifier of a node's recipient key.
pub open spec fn recipient_key(node_id: Seq<char>, key_version: i64) -> Seq<char> {
    node_id + "-"@ + decimal(key_version)
}

/// A lifetime in milliseconds, or none at all where it does not fit.
pub open spec fn lifetime_ms(seconds: i64) -> i64 {
    if i64::MIN <= seconds * 1_000 <= i64::MAX {
        (seconds * 1_000) as i64
    } else {
        0
    }
}

/// Whether a draft can be issued behind others of its group.
pub open spec fn draft_check(
    earlier: Seq<GrantIssueDraftView>,
    draft: GrantIssueDraftView,
) -> Result<(), StoreError> {
    match draft.reading {
        GrantReadingView::BadGrant => Err(StoreError::InvalidInput("grant document")),
        GrantReadingView::Unreadable => Err(StoreError::InvalidInput("signed grant envelope")),
        GrantReadingView::BadBody => Err(StoreError::InvalidInput("grant body")),
        GrantReadingView::Envelope(envelope) => if draft.expected_operation_version > 0 && !any(
            earlier,
            draft_of(draft.grant.operation_id),
        ) && envelope.kind == DocumentKind::Grant && envelope.epoch == draft.grant.issuer_epoch
            && envelope.signed_body == envelope.expected_body && sized(draft.envelope_json) {
            Ok(())
        } else {
            Err(StoreError::InvalidInput("grant envelope binding"))
        },
    }
}

/// The drafts for an operation.
pub open spec fn draft_of(operation_id: Seq<char>) -> spec_fn(GrantIssueDraftView) -> bool {
    |draft: GrantIssueDraftView| draft.grant.operation_id == operation_id
}

/// The first thing that is wrong with a group of drafts, from a position on.
pub open spec fn group_check(drafts: Seq<GrantIssueDraftView>, from: int) -> Result<(), StoreError>
    decreases drafts.len() - from,
{
    if from < 0 || from >= drafts.len() {
        Ok(())
    } else {
        match draft_check(drafts.take(from), drafts[from]) {
            Err(error) => Err(error),
            Ok(()) => group_check(drafts, from + 1),
        }
    }
}

/// The grants that a group of operations has, where each of them has one.
pub open spec fn issued_ids(contexts: Seq<GrantContextView>) -> Option<Seq<Seq<char>>> {
    if contexts.len() == 0 || any(
        contexts,
        |context: GrantContextView|
            context.operation.status != "granted"@ || context.operation.grant_id is None,
    ) {
        None
    } else {
        Some(Seq::new(contexts.len(), |i: int| contexts[i].operation.grant_id->0))
    }
}

/// Whether an operation waits for its grant.
pub open spec fn issuable() -> spec_fn(GrantContextView) -> bool {
    |context: GrantContextView|
        context.operation.status == "requested"@ && context.operation.grant_id is None
            && context.operation.version > 0
}

/// Whether a grant is the one that its operation, its workload, its node, its
/// approval, the policy, the epoch and the time allow.
pub open spec fn grant_fits(
    draft: GrantIssueDraftView,
    context: GrantContextView,
    current_policy: i64,
    current_epoch: i64,
    now_ms: i64,
) -> bool {
    let grant = draft.grant;
    let issued_at = grant.issued_at_ms as i64;
    let expires_at = grant.expires_at_ms;
    &&& 0 < grant.issued_at_ms <= i64::MAX
    &&& expires_at <= i64::MAX
    &&& issued_at <= clamped(now_ms + 5_000)
    &&& clamped(now_ms - issued_at) <= 60_000
    &&& context.operation.expires_at_ms > now_ms
    &&& expires_at > now_ms
    &&& expires_at <= clamped(issued_at + lifetime_ms(context.operation.requested_ttl_seconds))
    &&& expires_at <= clamped(issued_at + clamped(context.workload_ceiling * 1_000))
    &&& grant.id != grant.operation_id
    &&& grant.operation_id == context.operation.id
    &&& grant.node_id == context.node_id
    &&& grant.workload_id == context.workload_id
    &&& grant.invocation_id == context.operation.invocation_id
    &&& grant.unit == context.unit
    &&& grant.account == context.account
    &&& grant.resource_id == context.operation.resource_id
    &&& grant.policy_version == unsigned_column(current_policy)
    &&& context.operation.policy_version == current_policy
    &&& grant.action == context.operation.action
    &&& grant.mode == context.mode
    &&& grant.audience == "blindpass-node"@
    &&& grant.issuer_epoch == unsigned_column(current_epoch)
    &&& grant.recipient_key_id == recipient_key(context.node_id, context.recipient_key_version)
    &&& grant.local_ceiling_seconds == unsigned_column(context.workload_ceiling)
    &&& grant.approval_reference == context.operation.approval_id
    &&& context.operation.version == draft.expected_operation_version
    &&& context.operation.decision != "deny"@
    &&& context.operation.status == "requested"@
    &&& context.workload_status == "active"@
    &&& context.node_status == "active"@
    &&& (context.approval_status is None || context.approval_status == Some("approved"@))
}

/// Whether every draft of a group fits its operation.
pub open spec fn group_fits(
    drafts: Seq<GrantIssueDraftView>,
    contexts: Seq<GrantContextView>,
    current_policy: i64,
    current_epoch: i64,
    now_ms: i64,
) -> bool {
    forall|i: int|
        0 <= i < drafts.len() ==> grant_fits(
            #[trigger] drafts[i],
            contexts[i],
            current_policy,
            current_epoch,
            now_ms,
        )
}

/// The requested operation with an identifier.
pub open spec fn requested_operation(id: Seq<char>, tenant_id: Seq<char>) -> spec_fn(
    OperationRowView,
) -> bool {
    |row: OperationRowView|
        row.record.id == id && row.tenant_id == tenant_id && row.record.status == "requested"@
}

/// The requested operation with an identifier and a version.
pub open spec fn requested_at(id: Seq<char>, tenant_id: Seq<char>, version: i64) -> spec_fn(
    OperationRowView,
) -> bool {
    |row: OperationRowView|
        row.record.id == id && row.tenant_id == tenant_id && row.record.status == "requested"@
            && row.record.version == version
}

/// An operation that got its grant, unless its version is exhausted.
pub open spec fn operation_granted(grant_id: Seq<char>, expires_at_ms: i64) -> spec_fn(
    OperationRowView,
) -> Option<OperationRowView> {
    |row: OperationRowView|
        if row.record.version == i64::MAX {
            None
        } else {
            Some(
                OperationRowView {
                    record: OperationRecordView {
                        status: "granted"@,
                        grant_id: Some(grant_id),
                        expires_at_ms,
                        version: (row.record.version + 1) as i64,
                        ..row.record
                    },
                    ..row
                },
            )
        }
}

/// The running operation with an identifier.
pub open spec fn running_operation(id: Seq<char>, tenant_id: Seq<char>) -> spec_fn(
    OperationRowView,
) -> bool {
    |row: OperationRowView|
        row.record.id == id && row.tenant_id == tenant_id && is_running(row.record.status)
}

/// The grant with an identifier.
pub open spec fn grant_with(id: Seq<char>, tenant_id: Seq<char>) -> spec_fn(GrantRowView) -> bool {
    |row: GrantRowView| row.record.id == id && row.tenant_id == tenant_id
}

/// The grant with an identifier, of any tenant.
pub open spec fn grant_taken(id: Seq<char>) -> spec_fn(GrantRowView) -> bool {
    |row: GrantRowView| row.record.id == id
}

/// The usable grant of a tenant with an identifier.
pub open spec fn usable_grant(id: Seq<char>, tenant_id: Seq<char>) -> spec_fn(
    GrantRowView,
) -> bool {
    |row: GrantRowView|
        row.record.id == id && row.tenant_id == tenant_id && is_live(row.record.status)
}

/// The grants of a tenant that a list shows.
pub open spec fn listed_grant(
    tenant_id: Seq<char>,
    node_id: Seq<char>,
    status: Seq<char>,
    cursor: Option<(i64, Seq<char>)>,
) -> spec_fn(GrantRowView) -> bool {
    |row: GrantRowView|
        row.tenant_id == tenant_id && shows(node_id, row.record.node_id) && shows(
            status,
            row.record.status,
        ) && behind(cursor, row.record.created_at_ms, row.record.id)
}

/// The grant of a row.
pub open spec fn grant_of() -> spec_fn(GrantRowView) -> GrantRecordView {
    |row: GrantRowView| row.record
}

/// Grants by creation and identifier.
pub open spec fn oldest_grant() -> spec_fn(GrantRecordView, GrantRecordView) -> bool {
    |a: GrantRecordView, b: GrantRecordView|
        place_before(a.created_at_ms, a.id, b.created_at_ms, b.id)
}

/// Whether a node was not seen lately.
pub open spec fn is_offline(last_seen_at_ms: Option<i64>, now_ms: i64) -> bool {
    match last_seen_at_ms {
        None => true,
        Some(seen_ms) => clamped(now_ms - seen_ms) > NODE_OFFLINE_MS,
    }
}

/// A grant as it enters the table.
pub open spec fn fresh_grant(
    draft: GrantIssueDraftView,
    tenant_id: Seq<char>,
    now_ms: i64,
) -> Result<GrantRowView, StoreError> {
    let grant = draft.grant;
    match draft.reading {
        GrantReadingView::Envelope(envelope) => match (
            utf8_text(envelope.signed_body),
            json_member(draft.envelope_json, "sig"@),
        ) {
            (None, _) => Err(StoreError::InvalidInput("grant body")),
            (Some(_), None) => Err(StoreError::InvalidInput("grant signature")),
            (Some(body_json), Some(signature)) => if grant.policy_version > i64::MAX {
                Err(StoreError::InvalidInput("policy version"))
            } else if grant.issuer_epoch > i64::MAX {
                Err(StoreError::InvalidInput("issuer epoch"))
            } else if grant.issued_at_ms > i64::MAX {
                Err(StoreError::InvalidInput("grant issue time"))
            } else if grant.expires_at_ms > i64::MAX {
                Err(StoreError::InvalidInput("grant expiry"))
            } else {
                Ok(
                    GrantRowView {
                        tenant_id,
                        request_use_id: grant.id,
                        body_json,
                        signature,
                        record: GrantRecordView {
                            id: grant.id,
                            operation_id: grant.operation_id,
                            node_id: grant.node_id,
                            workload_id: grant.workload_id,
                            invocation_id: grant.invocation_id,
                            unit: grant.unit,
                            account: grant.account,
                            resource_id: grant.resource_id,
                            recipient_key_id: grant.recipient_key_id,
                            policy_version: grant.policy_version as i64,
                            approval_reference: grant.approval_reference,
                            action: grant.action,
                            mode: grant.mode,
                            audience: grant.audience,
                            issuer_epoch: grant.issuer_epoch as i64,
                            issued_at_ms: grant.issued_at_ms as i64,
                            expires_at_ms: grant.expires_at_ms as i64,
                            status: "issued"@,
                            consumed_at_ms: None,
                            revoked_at_ms: None,
                            created_at_ms: now_ms,
                        },
                    },
                )
            },
        },
        _ => Err(StoreError::InvalidInput("signed grant envelope")),
    }
}

/// The identifiers of the grants of a group.
pub open spec fn draft_ids(drafts: Seq<GrantIssueDraftView>) -> Seq<Seq<char>> {
    Seq::new(drafts.len(), |i: int| drafts[i].grant.id)
}

impl StoreView {
    /// Read a grant.
    pub open spec fn grant_by_id(self, c: ClockReadingView, id: Seq<char>) -> (
        StoreView,
        Result<Option<GrantRecordView>, StoreError>,
    ) {
        let (s, gate) = self.checkpoint_clock(c);
        match gate {
            Err(error) => (s, Err(error)),
            Ok(()) => (
                s,
                Ok(
                    match first(s.grants, grant_with(id, s.tenant_id)) {
                        Some(row) => Some(row.record),
                        None => None,
                    },
                ),
            ),
        }
    }

    /// List grants.
    pub open spec fn list_grants(
        self,
        c: ClockReadingView,
        node_id: Option<Seq<char>>,
        status: Option<Seq<char>>,
        cursor: Option<(i64, Seq<char>)>,
        limit: u32,
    ) -> (StoreView, Result<Seq<GrantRecordView>, StoreError>) {
        let (s, gate) = self.checkpoint_clock(c);
        match gate {
            Err(error) => (s, Err(error)),
            Ok(()) => (
                s,
                Ok(
                    page(
                        ordered(
                            selected(
                                s.grants,
                                listed_grant(
                                    s.tenant_id,
                                    wanted_status(node_id),
                                    wanted_status(status),
                                    cursor,
                                ),
                                grant_of(),
                            ),
                            oldest_grant(),
                        ),
                        page_size(limit, 101),
                    ),
                ),
            ),
        }
    }

    /// What the issue of a grant for an operation looks at, where the
    /// operation, its workload and its node are known.
    pub open spec fn grant_context(self, operation_id: Seq<char>) -> Option<GrantContextView> {
        match first(self.operations, operation_with(operation_id, self.tenant_id)) {
            None => None,
            Some(row) => match (
                first(self.workloads, workload_with(row.record.workload_id, self.tenant_id)),
                first(self.nodes, node_with(row.record.node_id, self.tenant_id)),
            ) {
                (Some(workload), Some(node)) => Some(
                    GrantContextView {
                        operation: row.record,
                        workload_id: workload.record.id,
                        node_id: workload.record.node_id,
                        unit: workload.record.unit,
                        account: workload.record.account,
                        mode: workload.record.consumption_mode,
                        workload_ceiling: workload.record.local_ceiling_seconds,
                        workload_status: workload.record.status,
                        node_status: node.status,
                        recipient_key_version: node.key_version,
                        approval_status: match row.record.approval_id {
                            None => None,
                            Some(approval_id) => match first(
                                self.operation_approvals,
                                operation_approval_with(approval_id, self.tenant_id),
                            ) {
                                Some(approval) => Some(approval.record.status),
                                None => None,
                            },
                        },
                    },
                ),
                _ => None,
            },
        }
    }

    /// The contexts of a group of drafts, without those that have none.
    pub open spec fn grant_contexts(self, drafts: Seq<GrantIssueDraftView>) -> Seq<
        GrantContextView,
    >
        decreases drafts.len(),
    {
        if drafts.len() == 0 {
            Seq::empty()
        } else {
            let rest = self.grant_contexts(drafts.drop_last());
            match self.grant_context(drafts.last().grant.operation_id) {
                Some(context) => rest.push(context),
                None => rest,
            }
        }
    }

    /// The state with the requested operations of a group denied, from a
    /// position on.
    pub open spec fn deny_group(self, contexts: Seq<GrantContextView>, from: int) -> Result<
        StoreView,
        StoreError,
    >
        decreases contexts.len() - from,
    {
        if from < 0 || from >= contexts.len() {
            Ok(self)
        } else {
            match attempted(
                self.operations,
                requested_operation(contexts[from].operation.id, self.tenant_id),
                restated("denied"@),
            ) {
                None => Err(StoreError::Database(DatabaseFault::OutOfRange)),
                Some(operations) => StoreView { operations, ..self }.deny_group(
                    contexts,
                    from + 1,
                ),
            }
        }
    }

    /// The state with one grant issued, its operation granted and its envelope
    /// sent to the node.
    pub open spec fn issue_grant(self, draft: GrantIssueDraftView, now_ms: i64) -> Result<
        StoreView,
        StoreError,
    > {
        match fresh_grant(draft, self.tenant_id, now_ms) {
            Err(error) => Err(error),
            Ok(row) => if any(self.grants, grant_taken(draft.grant.id)) {
                Err(StoreError::Database(DatabaseFault::DuplicateKey))
            } else {
                let hit = requested_at(
                    draft.grant.operation_id,
                    self.tenant_id,
                    draft.expected_operation_version,
                );
                match attempted(
                    self.operations,
                    hit,
                    operation_granted(draft.grant.id, row.record.expires_at_ms),
                ) {
                    None => Err(StoreError::Database(DatabaseFault::OutOfRange)),
                    Some(operations) => if count(self.operations, hit) != 1 {
                        Err(StoreError::InvalidInput("grant operation changed during issuance"))
                    } else {
                        StoreView { grants: self.grants.push(row), operations, ..self }.enqueue(
                            draft.grant.node_id,
                            draft.envelope_json,
                            Some(now_ms),
                        )
                    },
                }
            },
        }
    }

    /// The state with a group of grants issued, from a position on.
    pub open spec fn issue_group(
        self,
        drafts: Seq<GrantIssueDraftView>,
        from: int,
        now_ms: i64,
    ) -> Result<StoreView, StoreError>
        decreases drafts.len() - from,
    {
        if from < 0 || from >= drafts.len() {
            Ok(self)
        } else {
            match self.issue_grant(drafts[from], now_ms) {
                Err(error) => Err(error),
                Ok(next) => next.issue_group(drafts, from + 1, now_ms),
            }
        }
    }

    /// Issue a group of grants: all of them or none. A group that has its
    /// grants gets them again; one that does not fit any more is denied.
    pub open spec fn issue_operation_grants(
        self,
        c: ClockReadingView,
        drafts: Seq<GrantIssueDraftView>,
    ) -> (StoreView, Result<GrantIssueOutcomeView, StoreError>) {
        let (s, gate) = self.checkpoint_clock(c);
        let contexts = s.grant_contexts(drafts);
        match gate {
            Err(error) => (s, Err(error)),
            Ok(()) => if drafts.len() == 0 || drafts.len() > MAX_GRANT_GROUP {
                (s, Err(StoreError::InvalidInput("grant group size")))
            } else {
                match (group_check(drafts, 0), s.now(c.now_ms)) {
                    (Err(error), _) => (s, Err(error)),
                    (Ok(()), None) => (
                        s,
                        Err(StoreError::Database(DatabaseFault::ClockBehind)),
                    ),
                    (Ok(()), Some(now_ms)) => match issued_ids(contexts) {
                        Some(ids) => (s, Ok(GrantIssueOutcomeView::Existing(ids))),
                        None => if contexts.len() != drafts.len() || any(
                            contexts,
                            |context: GrantContextView| !issuable()(context),
                        ) {
                            (s, Ok(GrantIssueOutcomeView::Conflict))
                        } else if !group_fits(
                            drafts,
                            contexts,
                            s.current_fleet_policy().version,
                            s.meta.issuer_epoch,
                            now_ms,
                        ) {
                            match s.deny_group(contexts, 0) {
                                Err(error) => (s, Err(error)),
                                Ok(after) => (after, Ok(GrantIssueOutcomeView::Stale)),
                            }
                        } else {
                            match s.issue_group(drafts, 0, now_ms) {
                                Err(error) => (s, Err(error)),
                                Ok(after) => (
                                    after,
                                    Ok(GrantIssueOutcomeView::Issued(draft_ids(drafts))),
                                ),
                            }
                        },
                    },
                }
            },
        }
    }

    /// The state with a grant revoked, what runs under it ended, its tombstone
    /// kept and the signed revocation sent; or nothing where the grant or the
    /// operation cannot be found in the state that they were read in.
    pub open spec fn withdraw_grant(
        self,
        grant: GrantRecordView,
        reason: Seq<char>,
        envelope_json: Seq<char>,
        retain_until_ms: i64,
        now_ms: i64,
    ) -> Result<Option<StoreView>, StoreError> {
        let grant_hit = usable_grant(grant.id, self.tenant_id);
        let operation_hit = running_operation(grant.operation_id, self.tenant_id);
        match attempted(
            self.operations,
            operation_hit,
            settled("revoked"@, reason_result(reason), now_ms),
        ) {
            None => Err(StoreError::Database(DatabaseFault::OutOfRange)),
            Some(operations) => if count(self.grants, grant_hit) != 1 || count(
                self.operations,
                operation_hit,
            ) != 1 {
                Ok(None)
            } else if any(self.grant_tombstones, tombstone_of(grant.id)) {
                Err(StoreError::Database(DatabaseFault::DuplicateKey))
            } else {
                match (StoreView {
                    grants: updated(self.grants, grant_hit, grant_revoked(now_ms)),
                    operations,
                    grant_tombstones: self.grant_tombstones.push(
                        TombstoneRowView {
                            grant_id: grant.id,
                            node_id: grant.node_id,
                            reason,
                            created_at_ms: now_ms,
                            retain_until_ms,
                        },
                    ),
                    ..self
                }).enqueue(grant.node_id, envelope_json, Some(now_ms)) {
                    Err(error) => Err(error),
                    Ok(after) => Ok(Some(after)),
                }
            },
        }
    }

    /// What the revocation of a grant that was found does.
    pub open spec fn revoke_found(
        self,
        grant: GrantRecordView,
        consumer_lifetime_seconds: i64,
        offline: bool,
        operation_status: Seq<char>,
        reason: Seq<char>,
        envelope_json: Seq<char>,
        parsed: Parsed<RevocationView>,
        now_ms: i64,
    ) -> (StoreView, Result<GrantRevocationOutcomeView, StoreError>) {
        if grant.status == "consumed"@ {
            (
                self,
                Ok(
                    GrantRevocationOutcomeView::Consumed {
                        grant_id: grant.id,
                        consumer_lifetime_seconds,
                    },
                ),
            )
        } else if grant.status == "revoked"@ {
            (self, Ok(GrantRevocationOutcomeView::Revoked { grant_id: grant.id, offline }))
        } else if !is_live(grant.status) || now_ms >= grant.expires_at_ms || !is_running(
            operation_status,
        ) {
            (self, Ok(GrantRevocationOutcomeView::Conflict))
        } else {
            match grant_revocation(envelope_json, parsed, grant.id, grant.node_id, reason) {
                Err(error) => (self, Err(error)),
                Ok(revocation) => match revocation_time(revocation, now_ms, grant.expires_at_ms) {
                    Err(error) => (self, Err(error)),
                    Ok(()) => match self.withdraw_grant(
                        grant,
                        reason,
                        envelope_json,
                        revocation.retain_until_ms as i64,
                        now_ms,
                    ) {
                        Err(error) => (self, Err(error)),
                        Ok(None) => (self, Ok(GrantRevocationOutcomeView::Conflict)),
                        Ok(Some(after)) => (
                            after,
                            Ok(
                                GrantRevocationOutcomeView::Revoked {
                                    grant_id: grant.id,
                                    offline,
                                },
                            ),
                        ),
                    },
                },
            }
        }
    }

    /// Revoke a grant with a signed revocation. A consumed grant answers how
    /// long its consumer may live, a revoked one that it is revoked.
    pub open spec fn revoke_grant(
        self,
        c: ClockReadingView,
        grant_id: Seq<char>,
        reason: Seq<char>,
        envelope_json: Seq<char>,
        parsed: Parsed<RevocationView>,
    ) -> (StoreView, Result<GrantRevocationOutcomeView, StoreError>) {
        let (s, gate) = self.checkpoint_clock(c);
        match gate {
            Err(error) => (s, Err(error)),
            Ok(()) => if reason != "operator"@ && reason != "cancelled"@ {
                (s, Err(StoreError::InvalidInput("grant revocation reason")))
            } else {
                match (s.now(c.now_ms), first(s.grants, grant_with(grant_id, s.tenant_id))) {
                    (None, _) => (s, Err(StoreError::Database(DatabaseFault::ClockBehind))),
                    (Some(_), None) => (s, Ok(GrantRevocationOutcomeView::NotFound)),
                    (Some(now_ms), Some(row)) => match (
                        first(s.workloads, any_workload(row.record.workload_id)),
                        first(s.nodes, any_node(row.record.node_id)),
                        first(s.operations, operation_taken(row.record.operation_id)),
                    ) {
                        (Some(workload), Some(node), Some(operation)) => s.revoke_found(
                            row.record,
                            workload.record.local_ceiling_seconds,
                            is_offline(node.last_seen_at_ms, now_ms),
                            operation.record.status,
                            reason,
                            envelope_json,
                            parsed,
                            now_ms,
                        ),
                        _ => (s, Ok(GrantRevocationOutcomeView::NotFound)),
                    },
                }
            },
        }
    }
}

/// The columns of an operation with its workload, its node and its approval, as
/// a query for grant contexts selects them.
pub fn operation_columns_prefixed() -> (columns: String)
    ensures
        columns@ == "o.id, o.workload_id, o.node_id, o.invocation_id, o.action, o.mode, o.resource_id,
     o.requested_ttl_seconds, o.broker_event_key, o.requested_by, o.purpose, o.policy_version,
     o.decision, o.decision_hash, o.status, o.approval_id, o.grant_id, o.idempotency_key,
     o.request_hash, o.result_json, o.created_at, o.expires_at, o.completed_at, o.version,
     w.id AS joined_workload_id, w.node_id AS joined_node_id, w.unit, w.account,
     w.consumption_mode, w.local_ceiling_seconds, w.status AS workload_status,
     n.status AS node_status, n.key_version AS recipient_key_version, a.status AS approval_status"@,
{
    "o.id, o.workload_id, o.node_id, o.invocation_id, o.action, o.mode, o.resource_id,
     o.requested_ttl_seconds, o.broker_event_key, o.requested_by, o.purpose, o.policy_version,
     o.decision, o.decision_hash, o.status, o.approval_id, o.grant_id, o.idempotency_key,
     o.request_hash, o.result_json, o.created_at, o.expires_at, o.completed_at, o.version,
     w.id AS joined_workload_id, w.node_id AS joined_node_id, w.unit, w.account,
     w.consumption_mode, w.local_ceiling_seconds, w.status AS workload_status,
     n.status AS node_status, n.key_version AS recipient_key_version, a.status AS approval_status".to_owned()
}

fn as_unsigned(value: i64) -> (wrapped: u64)
    ensures
        wrapped == unsigned_column(value),
{
    proof {
        assert(value < 0 ==> (value as u64) == value + 0x1_0000_0000_0000_0000) by (bit_vector);
        assert(value >= 0 ==> (value as u64) == value) by (bit_vector);
    }
    value as u64
}

fn seconds_saturated(seconds: i64) -> (ms: i64)
    ensures
        ms == clamped(seconds * 1_000),
{
    let product: i128 = seconds as i128 * 1_000;
    if product > i64::MAX as i128 {
        i64::MAX
    } else if product < i64::MIN as i128 {
        i64::MIN
    } else {
        product as i64
    }
}

fn seconds_or_none(seconds: i64) -> (ms: i64)
    ensures
        ms == lifetime_ms(seconds),
{
    let product: i128 = seconds as i128 * 1_000;
    if product > i64::MAX as i128 || product < i64::MIN as i128 {
        0
    } else {
        product as i64
    }
}

fn recipient_key_id(node_id: &str, key_version: i64) -> (id: String)
    ensures
        id@ == recipient_key(node_id@, key_version),
{
    let mut id = node_id.to_owned();
    id.append("-");
    append_decimal(&mut id, key_version);
    id
}

/// The grants of a group of operations, where every one of them is granted.
pub fn already_issued(contexts: &Vec<GrantContext>) -> (ids: Option<Vec<String>>)
    ensures
        match ids {
            Some(ids) => issued_ids(rows_view(contexts@)) == Some(texts(ids@)),
            None => issued_ids(rows_view(contexts@)) is None,
        },
{
    let ghost cv = rows_view(contexts@);
    let ghost missing = |context: GrantContextView|
        context.operation.status != "granted"@ || context.operation.grant_id is None;
    if contexts.len() == 0 {
        return None;
    }
    let mut ids: Vec<String> = Vec::new();
    let mut i: usize = 0;
    while i < contexts.len()
        invariant
            i <= contexts@.len(),
            cv == rows_view(contexts@),
            missing == (|context: GrantContextView|
                context.operation.status != "granted"@ || context.operation.grant_id is None),
            ids@.len() == i,
            forall|j: int| 0 <= j < i ==> !missing(#[trigger] cv[j]),
            forall|j: int|
                0 <= j < i ==> (#[trigger] ids@[j])@ == cv[j].operation.grant_id->0,
        decreases contexts@.len() - i,
    {
        let context = &contexts[i];
        proof {
            assert(cv[i as int] == context@);
        }
        if !same(&context.operation.status, "granted") {
            proof {
                assert(missing(cv[i as int]));
            }
            return None;
        }
        match &context.operation.grant_id {
            Some(id) => {
                ids.push(id.clone());
            },
            None => {
                proof {
                    assert(missing(cv[i as int]));
                }
                return None;
            },
        }
        i = i + 1;
    }
    proof {
        assert(texts(ids@) =~= Seq::new(cv.len(), |j: int| cv[j].operation.grant_id->0));
    }
    Some(ids)
}

/// Whether a grant is the one that its context, the policy, the epoch and the
/// time allow.
pub fn grant_matches_context(
    draft: &GrantIssueDraft,
    context: &GrantContext,
    current_policy: i64,
    current_epoch: i64,
    now_ms: i64,
) -> (fits: bool)
    ensures
        fits == grant_fits(draft@, context@, current_policy, current_epoch, now_ms),
{
    let grant = &draft.grant;
    let issued_at: i64 = match to_i64(grant.issued_at_ms, "grant issue time") {
        Ok(at_ms) => at_ms,
        Err(_) => {
            return false;
        },
    };
    let expires_at: i64 = match to_i64(grant.expires_at_ms, "grant expiry") {
        Ok(at_ms) => at_ms,
        Err(_) => {
            return false;
        },
    };
    let expected_key_id = recipient_key_id(&context.node_id, context.recipient_key_version);
    let ttl_ms: i64 = seconds_or_none(context.operation.requested_ttl_seconds);
    let approved = match &context.approval_status {
        Some(status) => same(status, "approved"),
        None => true,
    };
    let timed = issued_at > 0 && issued_at <= saturated_sum(now_ms, 5_000) && saturated_difference(
        now_ms,
        issued_at,
    ) <= 60_000 && context.operation.expires_at_ms > now_ms && expires_at > now_ms && expires_at
        <= saturated_sum(issued_at, ttl_ms) && expires_at <= saturated_sum(
        issued_at,
        seconds_saturated(context.workload_ceiling),
    );
    let bound = !same(&grant.id, &grant.operation_id) && same(
        &grant.operation_id,
        &context.operation.id,
    ) && same(&grant.node_id, &context.node_id) && same(&grant.workload_id, &context.workload_id)
        && same(&grant.invocation_id, &context.operation.invocation_id) && same(
        &grant.unit,
        &context.unit,
    ) && same(&grant.account, &context.account) && same(
        &grant.resource_id,
        &context.operation.resource_id,
    ) && same(&grant.action, &context.operation.action) && same(&grant.mode, &context.mode)
        && same(&grant.audience, "blindpass-node") && same(
        &grant.recipient_key_id,
        &expected_key_id,
    ) && same_optional(&grant.approval_reference, &context.operation.approval_id);
    let current = grant.policy_version == as_unsigned(current_policy)
        && context.operation.policy_version == current_policy && grant.issuer_epoch
        == as_unsigned(current_epoch) && grant.local_ceiling_seconds == as_unsigned(
        context.workload_ceiling,
    ) && context.operation.version == draft.expected_operation_version;
    timed && bound && current && !same(&context.operation.decision, "deny") && same(
        &context.operation.status,
        "requested",
    ) && same(&context.workload_status, "active") && same(&context.node_status, "active")
        && approved
}

fn check_draft(drafts: &Vec<GrantIssueDraft>, at: usize) -> (reply: Result<(), StoreError>)
    requires
        at < drafts@.len(),
    ensures
        reply == draft_check(
            rows_view(drafts@).take(at as int),
            rows_view(drafts@)[at as int],
        ),
{
    let ghost dv = rows_view(drafts@);
    let draft = &drafts[at];
    match &draft.reading {
        GrantReading::BadGrant => Err(StoreError::InvalidInput("grant document")),
        GrantReading::Unreadable => Err(StoreError::InvalidInput("signed grant envelope")),
        GrantReading::BadBody => Err(StoreError::InvalidInput("grant body")),
        GrantReading::Envelope(envelope) => {
            let ghost hit = draft_of(draft@.grant.operation_id);
            let mut repeated = false;
            let mut i: usize = 0;
            while i < at
                invariant
                    i <= at < drafts@.len(),
                    dv == rows_view(drafts@),
                    draft@ == dv[at as int],
                    hit == draft_of(draft@.grant.operation_id),
                    repeated == any(dv.take(i as int), hit),
                decreases at - i,
            {
                let ghost head = dv.take(i as int);
                let ghost longer = dv.take(i + 1);
                if same(&drafts[i].grant.operation_id, &draft.grant.operation_id) {
                    repeated = true;
                    proof {
                        assert(hit(longer[i as int]));
                    }
                }
                proof {
                    if any(head, hit) {
                        let j = choose|j: int| 0 <= j < head.len() && hit(#[trigger] head[j]);
                        assert(hit(longer[j]));
                    }
                    if any(longer, hit) && !hit(longer[i as int]) {
                        let j = choose|j: int| 0 <= j < longer.len() && hit(#[trigger] longer[j]);
                        assert(hit(head[j]));
                    }
                }
                i = i + 1;
            }
            if draft.expected_operation_version > 0 && !repeated && envelope.kind
                == DocumentKind::Grant && envelope.epoch == draft.grant.issuer_epoch
                && same_bytes(&envelope.signed_body, &envelope.expected_body) && is_sized(
                &draft.envelope_json,
            ) {
                Ok(())
            } else {
                Err(StoreError::InvalidInput("grant envelope binding"))
            }
        },
    }
}

fn check_group(drafts: &Vec<GrantIssueDraft>) -> (reply: Result<(), StoreError>)
    ensures
        reply == group_check(rows_view(drafts@), 0),
{
    let ghost dv = rows_view(drafts@);
    let mut i: usize = 0;
    while i < drafts.len()
        invariant
            i <= drafts@.len(),
            dv == rows_view(drafts@),
            group_check(dv, 0) == group_check(dv, i as int),
        decreases drafts@.len() - i,
    {
        if let Err(error) = check_draft(drafts, i) {
            return Err(error);
        }
        i = i + 1;
    }
    Ok(())
}

fn draft_row(draft: &GrantIssueDraft, tenant_id: &str, now_ms: i64) -> (reply: Result<
    GrantRow,
    StoreError,
>)
    ensures
        answer(reply) == fresh_grant(draft@, tenant_id@, now_ms),
{
    let grant = &draft.grant;
    let envelope = match &draft.reading {
        GrantReading::Envelope(envelope) => envelope,
        _ => {
            return Err(StoreError::InvalidInput("signed grant envelope"));
        },
    };
    let body_json = match decode(copy_bytes(&envelope.signed_body)) {
        Some(text) => text,
        None => {
            return Err(StoreError::InvalidInput("grant body"));
        },
    };
    let signature = match member_text(&draft.envelope_json, "sig") {
        Some(text) => text,
        None => {
            return Err(StoreError::InvalidInput("grant signature"));
        },
    };
    let policy_version: i64 = match to_i64(grant.policy_version, "policy version") {
        Ok(value) => value,
        Err(error) => {
            return Err(error);
        },
    };
    let issuer_epoch: i64 = match to_i64(grant.issuer_epoch, "issuer epoch") {
        Ok(value) => value,
        Err(error) => {
            return Err(error);
        },
    };
    let issued_at_ms: i64 = match to_i64(grant.issued_at_ms, "grant issue time") {
        Ok(value) => value,
        Err(error) => {
            return Err(error);
        },
    };
    let expires_at_ms: i64 = match to_i64(grant.expires_at_ms, "grant expiry") {
        Ok(value) => value,
        Err(error) => {
            return Err(error);
        },
    };
    Ok(
        GrantRow {
            tenant_id: tenant_id.to_owned(),
            request_use_id: grant.id.clone(),
            body_json,
            signature,
            record: GrantRecord {
                id: grant.id.clone(),
                operation_id: grant.operation_id.clone(),
                node_id: grant.node_id.clone(),
                workload_id: grant.workload_id.clone(),
                invocation_id: grant.invocation_id.clone(),
                unit: grant.unit.clone(),
                account: grant.account.clone(),
                resource_id: grant.resource_id.clone(),
                recipient_key_id: grant.recipient_key_id.clone(),
                policy_version,
                approval_reference: copy_optional(&grant.approval_reference),
                action: grant.action.clone(),
                mode: grant.mode.clone(),
                audience: grant.audience.clone(),
                issuer_epoch,
                issued_at_ms,
                expires_at_ms,
                status: "issued".to_owned(),
                consumed_at_ms: None,
                revoked_at_ms: None,
                created_at_ms: now_ms,
            },
        },
    )
}

fn group_matches(
    drafts: &Vec<GrantIssueDraft>,
    contexts: &Vec<GrantContext>,
    current_policy: i64,
    current_epoch: i64,
    now_ms: i64,
) -> (fits: bool)
    requires
        drafts@.len() == contexts@.len(),
    ensures
        fits == group_fits(
            rows_view(drafts@),
            rows_view(contexts@),
            current_policy,
            current_epoch,
            now_ms,
        ),
{
    let ghost dv = rows_view(drafts@);
    let ghost cv = rows_view(contexts@);
    let mut i: usize = 0;
    while i < drafts.len()
        invariant
            i <= drafts@.len(),
            drafts@.len() == contexts@.len(),
            dv == rows_view(drafts@),
            cv == rows_view(contexts@),
            forall|j: int|
                0 <= j < i ==> grant_fits(
                    #[trigger] dv[j],
                    cv[j],
                    current_policy,
                    current_epoch,
                    now_ms,
                ),
        decreases drafts@.len() - i,
    {
        proof {
            assert(dv[i as int] == drafts@[i as int]@);
            assert(cv[i as int] == contexts@[i as int]@);
        }
        if !grant_matches_context(
            &drafts[i],
            &contexts[i],
            current_policy,
            current_epoch,
            now_ms,
        ) {
            return false;
        }
        i = i + 1;
    }
    true
}

fn ids_of_drafts(drafts: &Vec<GrantIssueDraft>) -> (ids: Vec<String>)
    ensures
        texts(ids@) == draft_ids(rows_view(drafts@)),
{
    let mut ids: Vec<String> = Vec::new();
    let mut i: usize = 0;
    while i < drafts.len()
        invariant
            i <= drafts@.len(),
            ids@.len() == i,
            forall|j: int| 0 <= j < i ==> (#[trigger] ids@[j])@ == drafts@[j]@.grant.id,
        decreases drafts@.len() - i,
    {
        ids.push(drafts[i].grant.id.clone());
        i = i + 1;
    }
    proof {
        assert(texts(ids@) =~= draft_ids(rows_view(drafts@)));
    }
    ids
}

fn offline_since(last_seen_at_ms: Option<i64>, now_ms: i64) -> (offline: bool)
    ensures
        offline == is_offline(last_seen_at_ms, now_ms),
{
    match last_seen_at_ms {
        None => true,
        Some(seen_ms) => saturated_difference(now_ms, seen_ms) > NODE_OFFLINE_MS,
    }
}

impl Store {
    /// Read a grant.
    pub fn grant_by_id(&mut self, reading: &ClockReading, id: &str) -> (reply: Result<
        Option<GrantRecord>,
        StoreError,
    >)
        ensures
            (final(self)@, answer_option(reply)) == old(self)@.grant_by_id(reading@, id@),
    {
        if let Err(error) = self.checkpoint_clock(reading) {
            return Err(error);
        }
        match self.find_grant(id) {
            Some(at) => Ok(Some(self.grants[at].record.duplicate())),
            None => Ok(None),
        }
    }

    fn find_grant(&self, id: &str) -> (found: Option<usize>)
        ensures
            match found {
                Some(at) => {
                    &&& at < self.grants@.len()
                    &&& grant_with(id@, self@.tenant_id)(self.grants@[at as int]@)
                    &&& first(self@.grants, grant_with(id@, self@.tenant_id)) == Some(
                        self.grants@[at as int]@,
                    )
                },
                None => first(self@.grants, grant_with(id@, self@.tenant_id)) is None,
            },
    {
        let tenant_id = &self.tenant_id;
        find_row(
            &self.grants,
            |row: &GrantRow| -> (b: bool)
                ensures b == grant_with(id@, tenant_id@)(row@)
                { same(&row.record.id, id) && same(&row.tenant_id, tenant_id) },
            Ghost(grant_with(id@, tenant_id@)),
        )
    }

    /// List grants by creation, of one node and of one status where they are
    /// given.
    pub fn list_grants(
        &mut self,
        reading: &ClockReading,
        node_id: Option<&str>,
        status: Option<&str>,
        cursor: Option<(i64, String)>,
        limit: u32,
    ) -> (reply: Result<Vec<GrantRecord>, StoreError>)
        ensures
            (final(self)@, answer_rows(reply)) == old(self)@.list_grants(
                reading@,
                optional_str(node_id),
                optional_str(status),
                cursor_view(cursor),
                limit,
            ),
    {
        if let Err(error) = self.checkpoint_clock(reading) {
            return Err(error);
        }
        let size: usize = clamp_limit(limit, 101);
        let wanted_node = status_text(node_id);
        let wanted = status_text(status);
        let tenant_id = &self.tenant_id;
        let ghost shown = listed_grant(tenant_id@, wanted_node@, wanted@, cursor_view(cursor));
        let found = select_rows(
            &self.grants,
            |row: &GrantRow| -> (b: bool)
                ensures b == shown(row@)
                {
                    same(&row.tenant_id, tenant_id) && (wanted_node.is_empty() || same(
                        &row.record.node_id,
                        wanted_node,
                    )) && (wanted.is_empty() || same(&row.record.status, wanted)) && is_behind(
                        &cursor,
                        row.record.created_at_ms,
                        &row.record.id,
                    )
                },
            |row: &GrantRow| -> (record: GrantRecord)
                ensures record@ == grant_of()(row@)
                { row.record.duplicate() },
            Ghost(shown),
            Ghost(grant_of()),
        );
        let sorted = order_rows(
            found,
            |a: &GrantRecord, b: &GrantRecord| -> (less: bool)
                ensures less == oldest_grant()(a@, b@)
                { is_before(a.created_at_ms, &a.id, b.created_at_ms, &b.id) },
            Ghost(oldest_grant()),
        );
        Ok(page_rows(sorted, size))
    }

    fn approval_status(&self, approval_id: &Option<String>) -> (status: Option<String>)
        ensures
            optional_text(status) == match optional_text(*approval_id) {
                None => None,
                Some(id) => match first(
                    self@.operation_approvals,
                    operation_approval_with(id, self@.tenant_id),
                ) {
                    Some(approval) => Some(approval.record.status),
                    None => None,
                },
            },
    {
        let tenant_id = &self.tenant_id;
        match approval_id {
            None => None,
            Some(id) => {
                let found = find_row(
                    &self.operation_approvals,
                    |row: &OperationApprovalRow| -> (b: bool)
                        ensures b == operation_approval_with(id@, tenant_id@)(row@)
                        { same(&row.record.id, id) && same(&row.tenant_id, tenant_id) },
                    Ghost(operation_approval_with(id@, tenant_id@)),
                );
                match found {
                    Some(at) => Some(self.operation_approvals[at].record.status.clone()),
                    None => None,
                }
            },
        }
    }

    fn grant_context(&self, operation_id: &str) -> (context: Option<GrantContext>)
        ensures
            option_view(context) == self@.grant_context(operation_id@),
    {
        let tenant_id = &self.tenant_id;
        let found = find_row(
            &self.operations,
            |row: &OperationRow| -> (b: bool)
                ensures b == operation_with(operation_id@, tenant_id@)(row@)
                { same(&row.record.id, operation_id) && same(&row.tenant_id, tenant_id) },
            Ghost(operation_with(operation_id@, tenant_id@)),
        );
        let at: usize = match found {
            Some(at) => at,
            None => {
                return None;
            },
        };
        let operation = &self.operations[at].record;
        let workload_id = &operation.workload_id;
        let workload_found = find_row(
            &self.workloads,
            |row: &WorkloadRow| -> (b: bool)
                ensures b == workload_with(workload_id@, tenant_id@)(row@)
                { same(&row.record.id, workload_id) && same(&row.tenant_id, tenant_id) },
            Ghost(workload_with(workload_id@, tenant_id@)),
        );
        match (workload_found, self.find_node(&operation.node_id)) {
            (Some(workload_at), Some(node_at)) => {
                let workload = &self.workloads[workload_at].record;
                let node = &self.nodes[node_at];
                Some(
                    GrantContext {
                        operation: operation.duplicate(),
                        workload_id: workload.id.clone(),
                        node_id: workload.node_id.clone(),
                        unit: workload.unit.clone(),
                        account: workload.account.clone(),
                        mode: workload.consumption_mode.clone(),
                        workload_ceiling: workload.local_ceiling_seconds,
                        workload_status: workload.status.clone(),
                        node_status: node.status.clone(),
                        recipient_key_version: node.key_version,
                        approval_status: self.approval_status(&operation.approval_id),
                    },
                )
            },
            _ => None,
        }
    }

    fn grant_contexts(&self, drafts: &Vec<GrantIssueDraft>) -> (contexts: Vec<GrantContext>)
        ensures
            rows_view(contexts@) == self@.grant_contexts(rows_view(drafts@)),
    {
        let ghost dv = rows_view(drafts@);
        let mut contexts: Vec<GrantContext> = Vec::new();
        let mut i: usize = 0;
        proof {
            assert(rows_view(contexts@) =~= Seq::empty());
        }
        while i < drafts.len()
            invariant
                i <= drafts@.len(),
                dv == rows_view(drafts@),
                rows_view(contexts@) == self@.grant_contexts(dv.take(i as int)),
            decreases drafts@.len() - i,
        {
            proof {
                assert(dv.take(i + 1).drop_last() =~= dv.take(i as int));
                assert(dv.take(i + 1).last() == drafts@[i as int]@);
            }
            if let Some(context) = self.grant_context(&drafts[i].grant.operation_id) {
                push_row(&mut contexts, context);
            }
            i = i + 1;
        }
        proof {
            assert(dv.take(i as int) =~= dv);
        }
        contexts
    }

    fn deny_group(&mut self, contexts: &Vec<GrantContext>) -> (reply: Result<(), StoreError>)
        ensures
            stepped(old(self)@.deny_group(rows_view(contexts@), 0), final(self)@, reply),
    {
        let ghost cv = rows_view(contexts@);
        let mut i: usize = 0;
        while i < contexts.len()
            invariant
                i <= contexts@.len(),
                cv == rows_view(contexts@),
                old(self)@.deny_group(cv, 0) == self@.deny_group(cv, i as int),
            decreases contexts@.len() - i,
        {
            proof {
                assert(cv[i as int] == contexts@[i as int]@);
            }
            let id = &contexts[i].operation.id;
            let tenant_id = &self.tenant_id;
            let denied = attempt_rows(
                &mut self.operations,
                |row: &OperationRow| -> (b: bool)
                    ensures b == requested_operation(id@, tenant_id@)(row@)
                    {
                        same(&row.record.id, id) && same(&row.tenant_id, tenant_id) && same(
                            &row.record.status,
                            "requested",
                        )
                    },
                |row: &OperationRow| -> (next: Option<OperationRow>)
                    ensures option_view(next) == restated("denied"@)(row@)
                    { restate(row, "denied") },
                Ghost(requested_operation(id@, tenant_id@)),
                Ghost(restated("denied"@)),
            );
            if denied.is_none() {
                return Err(StoreError::Database(DatabaseFault::OutOfRange));
            }
            i = i + 1;
        }
        Ok(())
    }

    fn issue_grant(&mut self, draft: &GrantIssueDraft, now_ms: i64) -> (reply: Result<
        (),
        StoreError,
    >)
        ensures
            stepped(old(self)@.issue_grant(draft@, now_ms), final(self)@, reply),
    {
        let row = match draft_row(draft, &self.tenant_id, now_ms) {
            Ok(row) => row,
            Err(error) => {
                return Err(error);
            },
        };
        let grant_id = &draft.grant.id;
        let taken = any_row(
            &self.grants,
            |row: &GrantRow| -> (b: bool)
                ensures b == grant_taken(grant_id@)(row@)
                { same(&row.record.id, grant_id) },
            Ghost(grant_taken(grant_id@)),
        );
        if taken {
            return Err(StoreError::Database(DatabaseFault::DuplicateKey));
        }
        let expires_at_ms: i64 = row.record.expires_at_ms;
        push_row(&mut self.grants, row);
        let tenant_id = &self.tenant_id;
        let operation_id = &draft.grant.operation_id;
        let version: i64 = draft.expected_operation_version;
        let granted = attempt_rows(
            &mut self.operations,
            |row: &OperationRow| -> (b: bool)
                ensures b == requested_at(operation_id@, tenant_id@, version)(row@)
                {
                    same(&row.record.id, operation_id) && same(&row.tenant_id, tenant_id) && same(
                        &row.record.status,
                        "requested",
                    ) && row.record.version == version
                },
            |row: &OperationRow| -> (next: Option<OperationRow>)
                ensures option_view(next) == operation_granted(grant_id@, expires_at_ms)(row@)
                {
                    if row.record.version == i64::MAX {
                        return None;
                    }
                    let mut next = row.duplicate();
                    next.record.status = "granted".to_owned();
                    next.record.grant_id = Some(grant_id.clone());
                    next.record.expires_at_ms = expires_at_ms;
                    next.record.version = row.record.version + 1;
                    Some(next)
                },
            Ghost(requested_at(operation_id@, tenant_id@, version)),
            Ghost(operation_granted(grant_id@, expires_at_ms)),
        );
        match granted {
            None => {
                return Err(StoreError::Database(DatabaseFault::OutOfRange));
            },
            Some(rows) => {
                if rows != 1 {
                    return Err(
                        StoreError::InvalidInput("grant operation changed during issuance"),
                    );
                }
            },
        }
        self.enqueue_node_document(&draft.grant.node_id, &draft.envelope_json, Some(now_ms))
    }

    fn issue_group(&mut self, drafts: &Vec<GrantIssueDraft>, now_ms: i64) -> (reply: Result<
        (),
        StoreError,
    >)
        ensures
            stepped(old(self)@.issue_group(rows_view(drafts@), 0, now_ms), final(self)@, reply),
    {
        let ghost dv = rows_view(drafts@);
        let mut i: usize = 0;
        while i < drafts.len()
            invariant
                i <= drafts@.len(),
                dv == rows_view(drafts@),
                old(self)@.issue_group(dv, 0, now_ms) == self@.issue_group(dv, i as int, now_ms),
            decreases drafts@.len() - i,
        {
            proof {
                assert(dv[i as int] == drafts@[i as int]@);
            }
            if let Err(error) = self.issue_grant(&drafts[i], now_ms) {
                return Err(error);
            }
            i = i + 1;
        }
        Ok(())
    }

    /// Issue a group of at most ten grants. Every grant, its operation and its
    /// inbox entry are stored together, or none is.
    pub fn issue_operation_grants(
        &mut self,
        reading: &ClockReading,
        drafts: &Vec<GrantIssueDraft>,
    ) -> (reply: Result<GrantIssueOutcome, StoreError>)
        ensures
            (final(self)@, answer(reply)) == old(self)@.issue_operation_grants(
                reading@,
                rows_view(drafts@),
            ),
    {
        if let Err(error) = self.checkpoint_clock(reading) {
            return Err(error);
        }
        if drafts.len() == 0 || drafts.len() > MAX_GRANT_GROUP {
            return Err(StoreError::InvalidInput("grant group size"));
        }
        if let Err(error) = check_group(drafts) {
            return Err(error);
        }
        let now_ms: i64 = match self.now(reading.now_ms) {
            Some(now_ms) => now_ms,
            None => {
                return Err(StoreError::Database(DatabaseFault::ClockBehind));
            },
        };
        let contexts = self.grant_contexts(drafts);
        if let Some(ids) = already_issued(&contexts) {
            return Ok(GrantIssueOutcome::Existing(ids));
        }
        let ghost unready = |context: GrantContextView| !issuable()(context);
        let conflicting = any_row(
            &contexts,
            |context: &GrantContext| -> (b: bool)
                ensures b == unready(context@)
                {
                    !same(&context.operation.status, "requested")
                        || context.operation.grant_id.is_some() || context.operation.version <= 0
                },
            Ghost(unready),
        );
        if contexts.len() != drafts.len() || conflicting {
            return Ok(GrantIssueOutcome::Conflict);
        }
        let current_policy: i64 = self.current_fleet_policy().version;
        let mut transaction = self.duplicate();
        if !group_matches(drafts, &contexts, current_policy, self.meta.issuer_epoch, now_ms) {
            return match transaction.deny_group(&contexts) {
                Ok(()) => {
                    *self = transaction;
                    Ok(GrantIssueOutcome::Stale)
                },
                Err(error) => Err(error),
            };
        }
        match transaction.issue_group(drafts, now_ms) {
            Ok(()) => {
                *self = transaction;
                Ok(GrantIssueOutcome::Issued(ids_of_drafts(drafts)))
            },
            Err(error) => Err(error),
        }
    }

    fn withdraw_grant(
        &mut self,
        grant: &GrantRecord,
        reason: &str,
        envelope_json: &str,
        retain_until_ms: i64,
        now_ms: i64,
    ) -> (reply: Result<bool, StoreError>)
        ensures
            match old(self)@.withdraw_grant(
                grant@,
                reason@,
                envelope_json@,
                retain_until_ms,
                now_ms,
            ) {
                Ok(Some(after)) => reply == Ok::<bool, StoreError>(true) && final(self)@ == after,
                Ok(None) => reply == Ok::<bool, StoreError>(false),
                Err(error) => reply == Err::<bool, StoreError>(error),
            },
    {
        let tenant_id = &self.tenant_id;
        let grant_id = &grant.id;
        let operation_id = &grant.operation_id;
        let revoked: usize = update_rows(
            &mut self.grants,
            |row: &GrantRow| -> (b: bool)
                ensures b == usable_grant(grant_id@, tenant_id@)(row@)
                {
                    same(&row.record.id, grant_id) && same(&row.tenant_id, tenant_id) && live(
                        &row.record.status,
                    )
                },
            |row: &GrantRow| -> (next: GrantRow)
                ensures next@ == grant_revoked(now_ms)(row@)
                {
                    let mut next = row.duplicate();
                    next.record.status = "revoked".to_owned();
                    next.record.revoked_at_ms = Some(now_ms);
                    next
                },
            Ghost(usable_grant(grant_id@, tenant_id@)),
            Ghost(grant_revoked(now_ms)),
        );
        let result = reason_json(reason);
        let ghost change = settled("revoked"@, result@, now_ms);
        let ended = attempt_rows(
            &mut self.operations,
            |row: &OperationRow| -> (b: bool)
                ensures b == running_operation(operation_id@, tenant_id@)(row@)
                {
                    same(&row.record.id, operation_id) && same(&row.tenant_id, tenant_id)
                        && running(&row.record.status)
                },
            |row: &OperationRow| -> (next: Option<OperationRow>)
                ensures option_view(next) == change(row@)
                { settle(row, "revoked", &result, now_ms) },
            Ghost(running_operation(operation_id@, tenant_id@)),
            Ghost(change),
        );
        match ended {
            None => {
                return Err(StoreError::Database(DatabaseFault::OutOfRange));
            },
            Some(rows) => {
                if revoked != 1 || rows != 1 {
                    return Ok(false);
                }
            },
        }
        let buried = any_row(
            &self.grant_tombstones,
            |row: &TombstoneRow| -> (b: bool)
                ensures b == tombstone_of(grant_id@)(row@)
                { same(&row.grant_id, grant_id) },
            Ghost(tombstone_of(grant_id@)),
        );
        if buried {
            return Err(StoreError::Database(DatabaseFault::DuplicateKey));
        }
        let tombstone = TombstoneRow {
            grant_id: grant.id.clone(),
            node_id: grant.node_id.clone(),
            reason: reason.to_owned(),
            created_at_ms: now_ms,
            retain_until_ms,
        };
        push_row(&mut self.grant_tombstones, tombstone);
        match self.enqueue_node_document(&grant.node_id, envelope_json, Some(now_ms)) {
            Ok(()) => Ok(true),
            Err(error) => Err(error),
        }
    }

    fn revoke_found(
        &mut self,
        grant: &GrantRecord,
        consumer_lifetime_seconds: i64,
        offline: bool,
        operation_status: &str,
        reason: &str,
        envelope_json: &str,
        parsed: &Parsed<Revocation>,
        now_ms: i64,
    ) -> (reply: Result<GrantRevocationOutcome, StoreError>)
        ensures
            (final(self)@, answer(reply)) == old(self)@.revoke_found(
                grant@,
                consumer_lifetime_seconds,
                offline,
                operation_status@,
                reason@,
                envelope_json@,
                parsed@,
                now_ms,
            ),
    {
        if same(&grant.status, "consumed") {
            return Ok(
                GrantRevocationOutcome::Consumed {
                    grant_id: grant.id.clone(),
                    consumer_lifetime_seconds,
                },
            );
        }
        if same(&grant.status, "revoked") {
            return Ok(GrantRevocationOutcome::Revoked { grant_id: grant.id.clone(), offline });
        }
        if !live(&grant.status) || now_ms >= grant.expires_at_ms || !running(operation_status) {
            return Ok(GrantRevocationOutcome::Conflict);
        }
        let revocation = match validate_revocation_envelope(
            envelope_json,
            parsed,
            &grant.id,
            &grant.node_id,
            reason,
        ) {
            Ok(revocation) => revocation,
            Err(error) => {
                return Err(error);
            },
        };
        if let Err(error) = validate_revocation_time(revocation, now_ms, grant.expires_at_ms) {
            return Err(error);
        }
        let retain_until_ms: i64 = match to_i64(revocation.retain_until_ms, "tombstone retention") {
            Ok(at_ms) => at_ms,
            Err(error) => {
                return Err(error);
            },
        };
        let mut transaction = self.duplicate();
        match transaction.withdraw_grant(grant, reason, envelope_json, retain_until_ms, now_ms) {
            Ok(true) => {
                *self = transaction;
                Ok(GrantRevocationOutcome::Revoked { grant_id: grant.id.clone(), offline })
            },
            Ok(false) => Ok(GrantRevocationOutcome::Conflict),
            Err(error) => Err(error),
        }
    }

    /// Revoke a usable grant with a signed revocation, which is kept as a
    /// tombstone and sent to the node together with the change.
    pub fn revoke_grant(
        &mut self,
        reading: &ClockReading,
        grant_id: &str,
        reason: &str,
        envelope_json: &str,
        parsed: &Parsed<Revocation>,
    ) -> (reply: Result<GrantRevocationOutcome, StoreError>)
        ensures
            (final(self)@, answer(reply)) == old(self)@.revoke_grant(
                reading@,
                grant_id@,
                reason@,
                envelope_json@,
                parsed@,
            ),
    {
        if let Err(error) = self.checkpoint_clock(reading) {
            return Err(error);
        }
        if !same(reason, "operator") && !same(reason, "cancelled") {
            return Err(StoreError::InvalidInput("grant revocation reason"));
        }
        let now_ms: i64 = match self.now(reading.now_ms) {
            Some(now_ms) => now_ms,
            None => {
                return Err(StoreError::Database(DatabaseFault::ClockBehind));
            },
        };
        let at: usize = match self.find_grant(grant_id) {
            Some(at) => at,
            None => {
                return Ok(GrantRevocationOutcome::NotFound);
            },
        };
        let grant = self.grants[at].record.duplicate();
        let operation_id = &grant.operation_id;
        let workload_found = find_workload(&self.workloads, &grant.workload_id);
        let node_found = find_any_node(&self.nodes, &grant.node_id);
        let operation_found = find_row(
            &self.operations,
            |row: &OperationRow| -> (b: bool)
                ensures b == operation_taken(operation_id@)(row@)
                { same(&row.record.id, operation_id) },
            Ghost(operation_taken(operation_id@)),
        );
        match (workload_found, node_found, operation_found) {
            (Some(workload_at), Some(node_at), Some(operation_at)) => {
                let ceiling: i64 = self.workloads[workload_at].record.local_ceiling_seconds;
                let offline = offline_since(self.nodes[node_at].last_seen_at_ms, now_ms);
                let status = self.operations[operation_at].record.status.clone();
                self.revoke_found(
                    &grant,
                    ceiling,
                    offline,
                    &status,
                    reason,
                    envelope_json,
                    parsed,
                    now_ms,
                )
            },
            _ => Ok(GrantRevocationOutcome::NotFound),
        }
    }
}

} // verus!
