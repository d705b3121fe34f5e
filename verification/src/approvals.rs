//! Approvals that exchanges wait for.

use crate::clock::{ClockReading, ClockReadingView};
use crate::error::{DatabaseFault, StoreError};
use crate::ids::{hex, hex_text, new_hex_id};
use crate::json::{
    json_fields, json_list, json_object, json_strings, list_text, object_text, parse_list,
    JsonScalar, JsonScalarView,
};
use crate::limits::{
    clamp_limit, deadline, is_unexpired, moment_after, page_size, unexpired,
};
use crate::paging::{behind, cursor_view, is_before, is_behind, place_before};
use crate::records::{
    ApprovalDecisionOutcome, ApprovalDecisionOutcomeView, ApprovalRecord, ApprovalRecordView,
};
use crate::relation::{
    answer, answer_option, answer_rows, any, any_row, count, count_rows, find_row, first,
    order_rows, ordered, page, page_rows, push_row, select_rows, selected, update_rows, updated,
    Duplicate,
};
use crate::store::{Store, StoreView};
use crate::tables::{
    ApprovalRow, ApprovalRowView, AuditRow, AuditRowView, IdempotencyRow, IdempotencyRowView,
};
use crate::text::{copy_optional, optional_bytes, optional_str, same, texts};
use vstd::prelude::*;

verus! {

/// How long a decision can be replayed under its key.
pub const IDEMPOTENCY_RETENTION_MS: i64 = 86_400_000;

/// The strings of a stored list, none where the text is not a list of strings.
pub open spec fn stored_strings(text: Seq<char>) -> Seq<Seq<char>> {
    match json_strings(text) {
        Some(items) => items,
        None => Seq::empty(),
    }
}

/// The approval that a row stands for.
pub open spec fn approval_of() -> spec_fn(ApprovalRowView) -> ApprovalRecordView {
    |row: ApprovalRowView|
        ApprovalRecordView {
            approval_reference: row.reference,
            requester_id: row.requester_agent_id,
            workspace_id: row.tenant_id,
            secret_name: row.secret_name,
            purpose: row.purpose,
            fulfiller_hint: row.fulfiller_hint,
            rule_id: row.rule_id,
            reason: row.reason,
            requester_ring: row.requester_ring,
            fulfiller_ring: row.fulfiller_ring,
            approver_ids: stored_strings(row.approver_ids_json),
            approver_rings: stored_strings(row.approver_rings_json),
            status: row.status,
            created_at_ms: row.created_at_ms,
            expires_at_ms: row.expires_at_ms,
            decided_at_ms: row.decided_at_ms,
            decided_by: row.decided_by,
        }
}

/// The approval with a reference, of any tenant.
pub open spec fn approval_with(reference: Seq<char>) -> spec_fn(ApprovalRowView) -> bool {
    |row: ApprovalRowView| row.reference == reference
}

/// The approval that names the approvers of a record.
pub open spec fn approval_naming(approval: ApprovalRecordView) -> spec_fn(ApprovalRowView) -> bool {
    |row: ApprovalRowView|
        row.reference == approval.approval_reference && approval_of()(row).approver_ids
            == approval.approver_ids && approval_of()(row).approver_rings
            == approval.approver_rings
}

/// The live approval with a reference.
pub open spec fn live_approval(
    reference: Seq<char>,
    tenant_id: Seq<char>,
    now: Option<i64>,
) -> spec_fn(ApprovalRowView) -> bool {
    |row: ApprovalRowView|
        row.reference == reference && row.tenant_id == tenant_id && unexpired(
            row.expires_at_ms,
            now,
        )
}

/// The live pending approval with a reference.
pub open spec fn decidable(
    reference: Seq<char>,
    tenant_id: Seq<char>,
    now: Option<i64>,
) -> spec_fn(ApprovalRowView) -> bool {
    |row: ApprovalRowView|
        live_approval(reference, tenant_id, now)(row) && row.status == "pending"@
}

/// An approval that was decided.
pub open spec fn approval_decided(
    status: Seq<char>,
    decided_at_ms: Option<i64>,
    decided_by: Seq<char>,
) -> spec_fn(ApprovalRowView) -> ApprovalRowView {
    |row: ApprovalRowView|
        ApprovalRowView { status, decided_at_ms, decided_by: Some(decided_by), ..row }
}

/// The live pending approvals of a tenant.
pub open spec fn pending_of(tenant_id: Seq<char>, now: Option<i64>) -> spec_fn(
    ApprovalRowView,
) -> bool {
    |row: ApprovalRowView|
        row.tenant_id == tenant_id && row.status == "pending"@ && unexpired(row.expires_at_ms, now)
}

/// The approvals of a tenant that a list shows: of one status where one is
/// given, behind the cursor, and no pending one that lapsed.
pub open spec fn listed_approval(
    tenant_id: Seq<char>,
    status: Seq<char>,
    cursor: Option<(i64, Seq<char>)>,
    now: Option<i64>,
) -> spec_fn(ApprovalRowView) -> bool {
    |row: ApprovalRowView|
        row.tenant_id == tenant_id && (status.len() == 0 || row.status == status) && behind(
            cursor,
            row.created_at_ms,
            row.reference,
        ) && (row.status != "pending"@ || unexpired(row.expires_at_ms, now))
}

/// Approvals by creation and reference.
pub open spec fn approval_order() -> spec_fn(ApprovalRecordView, ApprovalRecordView) -> bool {
    |a: ApprovalRecordView, b: ApprovalRecordView|
        place_before(a.created_at_ms, a.approval_reference, b.created_at_ms, b.approval_reference)
}

/// How long an approval is to live: at least a millisecond.
pub open spec fn approval_lifetime(approval: ApprovalRecordView) -> i64 {
    let lifetime = approval.expires_at_ms - approval.created_at_ms;
    if lifetime < 1 {
        1
    } else {
        lifetime as i64
    }
}

/// The live replay of an actor's decision under a key.
pub open spec fn replay_of(
    tenant_id: Seq<char>,
    actor_id: Seq<char>,
    key_hash: Seq<char>,
    now: Option<i64>,
) -> spec_fn(IdempotencyRowView) -> bool {
    |row: IdempotencyRowView|
        idempotency_key(tenant_id, actor_id, key_hash)(row) && unexpired(row.expires_at_ms, now)
}

/// The key of an actor's decision.
pub open spec fn idempotency_key(
    tenant_id: Seq<char>,
    actor_id: Seq<char>,
    key_hash: Seq<char>,
) -> spec_fn(IdempotencyRowView) -> bool {
    |row: IdempotencyRowView|
        row.tenant_id == tenant_id && row.actor_id == actor_id && row.operation
            == "approval_decision"@ && row.key_hash == key_hash
}

/// Whether a text is a decision.
pub open spec fn is_decision(status: Seq<char>) -> bool {
    status == "approved"@ || status == "rejected"@
}

/// The text that identifies a decision on an approval: the reference, a zero
/// character and the decision.
pub open spec fn decision_text(reference: Seq<char>, status: Seq<char>) -> Seq<char> {
    reference + "\0"@ + status
}

/// The metadata that the audit event of a decision records.
pub open spec fn decision_metadata(status: Seq<char>, key_hash: Seq<char>) -> Seq<
    (Seq<char>, JsonScalarView),
> {
    seq![
        ("decision"@, JsonScalarView::Text(status)),
        ("idempotency_key_hash"@, JsonScalarView::Text(key_hash)),
    ]
}

impl StoreView {
    /// Ask for an approval. One with the same reference stays as it is.
    pub open spec fn create_approval(self, c: ClockReadingView, approval: ApprovalRecordView) -> (
        StoreView,
        Result<(), StoreError>,
    ) {
        let (s, gate) = self.checkpoint_clock(c);
        match gate {
            Err(error) => (s, Err(error)),
            Ok(()) => match s.insert_approval(approval, s.now(c.now_ms)) {
                Err(error) => (s, Err(error)),
                Ok(after) => (after, Ok(())),
            },
        }
    }

    /// The state with an approval asked for.
    pub open spec fn insert_approval(self, approval: ApprovalRecordView, now: Option<i64>) -> Result<
        StoreView,
        StoreError,
    > {
        match now {
            None => Err(StoreError::Database(DatabaseFault::ClockBehind)),
            Some(now_ms) => match moment_after(now, approval_lifetime(approval)) {
                None => Err(StoreError::Database(DatabaseFault::OutOfRange)),
                Some(expires_at_ms) => if any(
                    self.approvals,
                    approval_with(approval.approval_reference),
                ) {
                    Ok(self)
                } else {
                    Ok(
                        StoreView {
                            approvals: self.approvals.push(
                                ApprovalRowView {
                                    reference: approval.approval_reference,
                                    requester_agent_id: approval.requester_id,
                                    tenant_id: self.tenant_id,
                                    secret_name: approval.secret_name,
                                    purpose: approval.purpose,
                                    fulfiller_hint: approval.fulfiller_hint,
                                    rule_id: approval.rule_id,
                                    reason: approval.reason,
                                    requester_ring: approval.requester_ring,
                                    fulfiller_ring: approval.fulfiller_ring,
                                    approver_ids_json: json_list(approval.approver_ids),
                                    approver_rings_json: json_list(approval.approver_rings),
                                    status: "pending"@,
                                    created_at_ms: now_ms,
                                    expires_at_ms,
                                    decided_at_ms: None,
                                    decided_by: None,
                                },
                            ),
                            ..self
                        },
                    )
                },
            },
        }
    }

    /// Read a live approval.
    pub open spec fn get_approval(self, c: ClockReadingView, reference: Seq<char>) -> (
        StoreView,
        Result<Option<ApprovalRecordView>, StoreError>,
    ) {
        let (s, gate) = self.checkpoint_clock(c);
        match gate {
            Err(error) => (s, Err(error)),
            Ok(()) => (
                s,
                Ok(
                    match first(
                        s.approvals,
                        live_approval(reference, s.tenant_id, s.now(c.now_ms)),
                    ) {
                        Some(row) => Some(approval_of()(row)),
                        None => None,
                    },
                ),
            ),
        }
    }

    /// List approvals.
    pub open spec fn list_approvals(
        self,
        c: ClockReadingView,
        status: Option<Seq<char>>,
        cursor: Option<(i64, Seq<char>)>,
        limit: u32,
    ) -> (StoreView, Result<Seq<ApprovalRecordView>, StoreError>) {
        let (s, gate) = self.checkpoint_clock(c);
        let wanted = match status {
            Some(text) => text,
            None => Seq::empty(),
        };
        match gate {
            Err(error) => (s, Err(error)),
            Ok(()) => (
                s,
                Ok(
                    page(
                        ordered(
                            selected(
                                s.approvals,
                                listed_approval(s.tenant_id, wanted, cursor, s.now(c.now_ms)),
                                approval_of(),
                            ),
                            approval_order(),
                        ),
                        page_size(limit, 101),
                    ),
                ),
            ),
        }
    }

    /// Count the live pending approvals.
    pub open spec fn count_pending_approvals(self, c: ClockReadingView) -> (
        StoreView,
        Result<i64, StoreError>,
    ) {
        let (s, gate) = self.checkpoint_clock(c);
        match gate {
            Err(error) => (s, Err(error)),
            Ok(()) => (
                s,
                Ok(count(s.approvals, pending_of(s.tenant_id, s.now(c.now_ms))) as i64),
            ),
        }
    }

    /// Decide an approval, then read it back at a reading of its own.
    pub open spec fn decide_approval(
        self,
        c: ClockReadingView,
        follow_up: ClockReadingView,
        reference: Seq<char>,
        status: Seq<char>,
        decided_by: Seq<char>,
    ) -> (StoreView, Result<Option<ApprovalRecordView>, StoreError>) {
        let (s, gate) = self.checkpoint_clock(c);
        let now = s.now(c.now_ms);
        let hit = decidable(reference, s.tenant_id, now);
        match gate {
            Err(error) => (s, Err(error)),
            Ok(()) => if !is_decision(status) {
                (s, Err(StoreError::InvalidInput("approval status")))
            } else if !any(s.approvals, hit) {
                (s, Ok(None))
            } else {
                StoreView {
                    approvals: updated(
                        s.approvals,
                        hit,
                        approval_decided(status, now, decided_by),
                    ),
                    ..s
                }.get_approval(follow_up, reference)
            },
        }
    }

    /// The answer to a decision that was made before under the same key.
    pub open spec fn replayed_decision(
        self,
        row: IdempotencyRowView,
        request_hash: Seq<char>,
    ) -> Result<ApprovalDecisionOutcomeView, StoreError> {
        if row.request_hash != request_hash {
            Ok(ApprovalDecisionOutcomeView::Conflict)
        } else {
            match row.response {
                Some(record) => Ok(ApprovalDecisionOutcomeView::Replayed(record)),
                None => Err(StoreError::MissingState("approval idempotency response")),
            }
        }
    }

    /// The state after an approval is decided, its answer recorded under the
    /// key, and one audit event appended.
    pub open spec fn apply_decision(
        self,
        reference: Seq<char>,
        status: Seq<char>,
        actor_id: Seq<char>,
        key_hash: Seq<char>,
        request_hash: Seq<char>,
        metadata: Seq<char>,
        audit_id: Seq<char>,
        now_ms: i64,
    ) -> Result<(StoreView, ApprovalRecordView), StoreError> {
        let hit = decidable(reference, self.tenant_id, Some(now_ms));
        let decide = approval_decided(status, Some(now_ms), actor_id);
        let record = approval_of()(decide(first(self.approvals, hit)->0));
        match moment_after(Some(now_ms), IDEMPOTENCY_RETENTION_MS) {
            None => Err(StoreError::Database(DatabaseFault::OutOfRange)),
            Some(expires_at_ms) => if any(
                self.idempotency_keys,
                idempotency_key(self.tenant_id, actor_id, key_hash),
            ) || any(self.audit_events, crate::clock::audit_event_with(audit_id)) {
                Err(StoreError::Database(DatabaseFault::DuplicateKey))
            } else {
                Ok(
                    (
                        StoreView {
                            approvals: updated(self.approvals, hit, decide),
                            idempotency_keys: self.idempotency_keys.push(
                                IdempotencyRowView {
                                    tenant_id: self.tenant_id,
                                    actor_id,
                                    operation: "approval_decision"@,
                                    key_hash,
                                    request_hash,
                                    response: Some(record),
                                    created_at_ms: now_ms,
                                    expires_at_ms,
                                },
                            ),
                            ..self
                        }.audited(
                            AuditRowView {
                                id: audit_id,
                                tenant_id: self.tenant_id,
                                actor_type: "operator"@,
                                actor_id: Some(actor_id),
                                action: "approval_decided"@,
                                target_type: "approval"@,
                                target_id: Some(reference),
                                metadata_json: metadata,
                                created_at_ms: now_ms,
                            },
                        ),
                        record,
                    ),
                )
            },
        }
    }

    /// Decide an approval once per key: the same decision under the same key
    /// gets the first answer again. `digest` is the digest of the decision's
    /// text, absent where it could not be computed.
    pub open spec fn decide_approval_once(
        self,
        c: ClockReadingView,
        reference: Seq<char>,
        status: Seq<char>,
        actor_id: Seq<char>,
        key_hash: Seq<char>,
        digest: Option<Seq<u8>>,
        audit_id: Seq<char>,
    ) -> (StoreView, Result<ApprovalDecisionOutcomeView, StoreError>) {
        let (s, gate) = self.checkpoint_clock(c);
        let now = s.now(c.now_ms);
        match gate {
            Err(error) => (s, Err(error)),
            Ok(()) => if !is_decision(status) || key_hash.len() == 0 {
                (s, Err(StoreError::InvalidInput("approval decision")))
            } else {
                match digest {
                    None => (s, Err(StoreError::MissingState("approval request hash"))),
                    Some(bytes) => match first(
                        s.idempotency_keys,
                        replay_of(s.tenant_id, actor_id, key_hash, now),
                    ) {
                        Some(row) => (s, s.replayed_decision(row, hex(bytes))),
                        None => if !any(s.approvals, decidable(reference, s.tenant_id, now)) {
                            (s, Ok(ApprovalDecisionOutcomeView::NotFound))
                        } else {
                            match s.apply_decision(
                                reference,
                                status,
                                actor_id,
                                key_hash,
                                hex(bytes),
                                json_object(decision_metadata(status, key_hash)),
                                audit_id,
                                now->0,
                            ) {
                                Err(error) => (s, Err(error)),
                                Ok((after, record)) => (
                                    after,
                                    Ok(ApprovalDecisionOutcomeView::Applied(record)),
                                ),
                            }
                        },
                    },
                }
            },
        }
    }
}

fn read_strings(text: &str) -> (items: Vec<String>)
    ensures
        texts(items@) == stored_strings(text@),
{
    match parse_list(text) {
        Ok(items) => items,
        Err(_) => {
            let items: Vec<String> = Vec::new();
            proof {
                assert(texts(items@) =~= Seq::empty());
            }
            items
        },
    }
}

/// Read the approval of a row.
pub fn read_approval(row: &ApprovalRow) -> (record: ApprovalRecord)
    ensures
        record@ == approval_of()(row@),
{
    ApprovalRecord {
        approval_reference: row.reference.clone(),
        requester_id: row.requester_agent_id.clone(),
        workspace_id: row.tenant_id.clone(),
        secret_name: row.secret_name.clone(),
        purpose: row.purpose.clone(),
        fulfiller_hint: row.fulfiller_hint.clone(),
        rule_id: copy_optional(&row.rule_id),
        reason: row.reason.clone(),
        requester_ring: copy_optional(&row.requester_ring),
        fulfiller_ring: copy_optional(&row.fulfiller_ring),
        approver_ids: read_strings(&row.approver_ids_json),
        approver_rings: read_strings(&row.approver_rings_json),
        status: row.status.clone(),
        created_at_ms: row.created_at_ms,
        expires_at_ms: row.expires_at_ms,
        decided_at_ms: row.decided_at_ms,
        decided_by: copy_optional(&row.decided_by),
    }
}

fn is_decidable(row: &ApprovalRow, reference: &str, tenant_id: &str, now: Option<i64>) -> (yes:
    bool)
    ensures
        yes == decidable(reference@, tenant_id@, now)(row@),
{
    same(&row.reference, reference) && same(&row.tenant_id, tenant_id) && is_unexpired(
        row.expires_at_ms,
        now,
    ) && same(&row.status, "pending")
}

fn decide_row(row: &ApprovalRow, status: &str, at_ms: Option<i64>, decided_by: &str) -> (next:
    ApprovalRow)
    ensures
        next@ == approval_decided(status@, at_ms, decided_by@)(row@),
{
    let mut next = row.duplicate();
    next.status = status.to_owned();
    next.decided_at_ms = at_ms;
    next.decided_by = Some(decided_by.to_owned());
    next
}

/// The text whose digest identifies a decision on an approval.
pub fn approval_decision_text(reference: &str, status: &str) -> (text: String)
    ensures
        text@ == decision_text(reference@, status@),
{
    let mut text = reference.to_owned();
    text.append("\0");
    text.append(status);
    text
}

impl Store {
    /// Ask for an approval. One with the same reference stays as it is.
    pub fn create_approval(&mut self, reading: &ClockReading, approval: &ApprovalRecord) -> (reply:
        Result<(), StoreError>)
        requires
            i64::MIN <= approval.expires_at_ms - approval.created_at_ms <= i64::MAX,
        ensures
            (final(self)@, reply) == old(self)@.create_approval(reading@, approval@),
            reply is Ok && !any(
                old(self)@.approvals,
                approval_with(approval@.approval_reference),
            ) ==> any(final(self)@.approvals, approval_naming(approval@)),
    {
        if let Err(error) = self.checkpoint_clock(reading) {
            return Err(error);
        }
        let approver_ids_json = match list_text(&approval.approver_ids) {
            Ok(text) => text,
            Err(_) => {
                return Err(StoreError::InvalidInput("approver ids"));
            },
        };
        let approver_rings_json = match list_text(&approval.approver_rings) {
            Ok(text) => text,
            Err(_) => {
                return Err(StoreError::InvalidInput("approver rings"));
            },
        };
        let now = self.now(reading.now_ms);
        let created_at_ms: i64 = match now {
            Some(now_ms) => now_ms,
            None => {
                return Err(StoreError::Database(DatabaseFault::ClockBehind));
            },
        };
        let mut lifetime: i64 = approval.expires_at_ms - approval.created_at_ms;
        if lifetime < 1 {
            lifetime = 1;
        }
        let expires_at_ms: i64 = match deadline(now, lifetime) {
            Some(expires_at_ms) => expires_at_ms,
            None => {
                return Err(StoreError::Database(DatabaseFault::OutOfRange));
            },
        };
        let reference = &approval.approval_reference;
        let taken = any_row(
            &self.approvals,
            |row: &ApprovalRow| -> (b: bool)
                ensures b == approval_with(reference@)(row@)
                { same(&row.reference, reference) },
            Ghost(approval_with(reference@)),
        );
        if taken {
            return Ok(());
        }
        let row = ApprovalRow {
            reference: approval.approval_reference.clone(),
            requester_agent_id: approval.requester_id.clone(),
            tenant_id: self.tenant_id.clone(),
            secret_name: approval.secret_name.clone(),
            purpose: approval.purpose.clone(),
            fulfiller_hint: approval.fulfiller_hint.clone(),
            rule_id: copy_optional(&approval.rule_id),
            reason: approval.reason.clone(),
            requester_ring: copy_optional(&approval.requester_ring),
            fulfiller_ring: copy_optional(&approval.fulfiller_ring),
            approver_ids_json,
            approver_rings_json,
            status: "pending".to_owned(),
            created_at_ms,
            expires_at_ms,
            decided_at_ms: None,
            decided_by: None,
        };
        push_row(&mut self.approvals, row);
        proof {
            let rows = self@.approvals;
            assert(approval_naming(approval@)(rows[rows.len() - 1]));
        }
        Ok(())
    }

    /// Read a live approval.
    pub fn get_approval(&mut self, reading: &ClockReading, reference: &str) -> (reply: Result<
        Option<ApprovalRecord>,
        StoreError,
    >)
        ensures
            (final(self)@, answer_option(reply)) == old(self)@.get_approval(reading@, reference@),
    {
        if let Err(error) = self.checkpoint_clock(reading) {
            return Err(error);
        }
        let now = self.now(reading.now_ms);
        let tenant_id = &self.tenant_id;
        let found = find_row(
            &self.approvals,
            |row: &ApprovalRow| -> (b: bool)
                ensures b == live_approval(reference@, tenant_id@, now)(row@)
                {
                    same(&row.reference, reference) && same(&row.tenant_id, tenant_id)
                        && is_unexpired(row.expires_at_ms, now)
                },
            Ghost(live_approval(reference@, tenant_id@, now)),
        );
        match found {
            Some(at) => Ok(Some(read_approval(&self.approvals[at]))),
            None => Ok(None),
        }
    }

    /// List approvals by creation, of one status where one is given.
    pub fn list_approvals(
        &mut self,
        reading: &ClockReading,
        status: Option<&str>,
        cursor: Option<(i64, String)>,
        limit: u32,
    ) -> (reply: Result<Vec<ApprovalRecord>, StoreError>)
        ensures
            (final(self)@, answer_rows(reply)) == old(self)@.list_approvals(
                reading@,
                optional_str(status),
                cursor_view(cursor),
                limit,
            ),
    {
        if let Err(error) = self.checkpoint_clock(reading) {
            return Err(error);
        }
        let now = self.now(reading.now_ms);
        let size: usize = clamp_limit(limit, 101);
        let wanted: &str = match status {
            Some(status) => status,
            None => "",
        };
        proof {
            reveal_strlit("");
            assert(""@ =~= Seq::empty());
        }
        let tenant_id = &self.tenant_id;
        let ghost shown = listed_approval(tenant_id@, wanted@, cursor_view(cursor), now);
        let found = select_rows(
            &self.approvals,
            |row: &ApprovalRow| -> (b: bool)
                ensures b == shown(row@)
                {
                    same(&row.tenant_id, tenant_id) && (wanted.is_empty() || same(
                        &row.status,
                        wanted,
                    )) && is_behind(&cursor, row.created_at_ms, &row.reference) && (!same(
                        &row.status,
                        "pending",
                    ) || is_unexpired(row.expires_at_ms, now))
                },
            |row: &ApprovalRow| -> (record: ApprovalRecord)
                ensures record@ == approval_of()(row@)
                { read_approval(row) },
            Ghost(shown),
            Ghost(approval_of()),
        );
        let sorted = order_rows(
            found,
            |a: &ApprovalRecord, b: &ApprovalRecord| -> (less: bool)
                ensures less == approval_order()(a@, b@)
                {
                    is_before(
                        a.created_at_ms,
                        &a.approval_reference,
                        b.created_at_ms,
                        &b.approval_reference,
                    )
                },
            Ghost(approval_order()),
        );
        Ok(page_rows(sorted, size))
    }

    /// Count the live pending approvals.
    pub fn count_pending_approvals(&mut self, reading: &ClockReading) -> (reply: Result<
        i64,
        StoreError,
    >)
        ensures
            (final(self)@, reply) == old(self)@.count_pending_approvals(reading@),
    {
        if let Err(error) = self.checkpoint_clock(reading) {
            return Err(error);
        }
        let now = self.now(reading.now_ms);
        let tenant_id = &self.tenant_id;
        let total: usize = count_rows(
            &self.approvals,
            |row: &ApprovalRow| -> (b: bool)
                ensures b == pending_of(tenant_id@, now)(row@)
                {
                    same(&row.tenant_id, tenant_id) && same(&row.status, "pending")
                        && is_unexpired(row.expires_at_ms, now)
                },
            Ghost(pending_of(tenant_id@, now)),
        );
        Ok(total as i64)
    }

    fn approval_decidable(&self, reference: &str, now: Option<i64>) -> (found: Option<usize>)
        ensures
            match found {
                Some(at) => {
                    &&& at < self.approvals@.len()
                    &&& any(self@.approvals, decidable(reference@, self@.tenant_id, now))
                    &&& decidable(reference@, self@.tenant_id, now)(self.approvals@[at as int]@)
                    &&& first(self@.approvals, decidable(reference@, self@.tenant_id, now))
                        == Some(self.approvals@[at as int]@)
                },
                None => !any(self@.approvals, decidable(reference@, self@.tenant_id, now)),
            },
    {
        let tenant_id = &self.tenant_id;
        find_row(
            &self.approvals,
            |row: &ApprovalRow| -> (b: bool)
                ensures b == decidable(reference@, tenant_id@, now)(row@)
                { is_decidable(row, reference, tenant_id, now) },
            Ghost(decidable(reference@, tenant_id@, now)),
        )
    }

    fn decide_rows(
        &mut self,
        reference: &str,
        status: &str,
        decided_by: &str,
        now: Option<i64>,
    )
        ensures
            final(self)@ == (StoreView {
                approvals: updated(
                    old(self)@.approvals,
                    decidable(reference@, old(self)@.tenant_id, now),
                    approval_decided(status@, now, decided_by@),
                ),
                ..old(self)@
            }),
    {
        let tenant_id = &self.tenant_id;
        update_rows(
            &mut self.approvals,
            |row: &ApprovalRow| -> (b: bool)
                ensures b == decidable(reference@, tenant_id@, now)(row@)
                { is_decidable(row, reference, tenant_id, now) },
            |row: &ApprovalRow| -> (next: ApprovalRow)
                ensures next@ == approval_decided(status@, now, decided_by@)(row@)
                { decide_row(row, status, now, decided_by) },
            Ghost(decidable(reference@, tenant_id@, now)),
            Ghost(approval_decided(status@, now, decided_by@)),
        );
    }

    /// Decide a live pending approval and read it back.
    pub fn decide_approval(
        &mut self,
        reading: &ClockReading,
        follow_up: &ClockReading,
        reference: &str,
        status: &str,
        decided_by: &str,
    ) -> (reply: Result<Option<ApprovalRecord>, StoreError>)
        ensures
            (final(self)@, answer_option(reply)) == old(self)@.decide_approval(
                reading@,
                follow_up@,
                reference@,
                status@,
                decided_by@,
            ),
    {
        if let Err(error) = self.checkpoint_clock(reading) {
            return Err(error);
        }
        if !same(status, "approved") && !same(status, "rejected") {
            return Err(StoreError::InvalidInput("approval status"));
        }
        let now = self.now(reading.now_ms);
        if self.approval_decidable(reference, now).is_none() {
            return Ok(None);
        }
        self.decide_rows(reference, status, decided_by, now);
        self.get_approval(follow_up, reference)
    }

    fn apply_decision(
        &mut self,
        reference: &str,
        status: &str,
        actor_id: &str,
        key_hash: &str,
        request_hash: String,
        metadata_json: String,
        audit_id: &str,
        now_ms: i64,
        at: usize,
    ) -> (reply: Result<ApprovalRecord, StoreError>)
        requires
            at < old(self).approvals@.len(),
            first(
                old(self)@.approvals,
                decidable(reference@, old(self)@.tenant_id, Some(now_ms)),
            ) == Some(old(self).approvals@[at as int]@),
        ensures
            match old(self)@.apply_decision(
                reference@,
                status@,
                actor_id@,
                key_hash@,
                request_hash@,
                metadata_json@,
                audit_id@,
                now_ms,
            ) {
                Ok((after, record)) => reply is Ok && reply->Ok_0@ == record && final(self)@
                    == after,
                Err(error) => reply is Err && reply->Err_0 == error && final(self)@ == old(self)@,
            },
    {
        let expires_at_ms: i64 = match deadline(Some(now_ms), IDEMPOTENCY_RETENTION_MS) {
            Some(expires_at_ms) => expires_at_ms,
            None => {
                return Err(StoreError::Database(DatabaseFault::OutOfRange));
            },
        };
        let tenant_id = &self.tenant_id;
        let key_taken = any_row(
            &self.idempotency_keys,
            |row: &IdempotencyRow| -> (b: bool)
                ensures b == idempotency_key(tenant_id@, actor_id@, key_hash@)(row@)
                { is_key(row, tenant_id, actor_id, key_hash) },
            Ghost(idempotency_key(tenant_id@, actor_id@, key_hash@)),
        );
        if key_taken || self.audit_id_taken(audit_id) {
            return Err(StoreError::Database(DatabaseFault::DuplicateKey));
        }
        let record = read_approval(
            &decide_row(&self.approvals[at], status, Some(now_ms), actor_id),
        );
        self.decide_rows(reference, status, actor_id, Some(now_ms));
        let tenant = self.tenant_id.clone();
        push_row(
            &mut self.idempotency_keys,
            IdempotencyRow {
                tenant_id: tenant.clone(),
                actor_id: actor_id.to_owned(),
                operation: "approval_decision".to_owned(),
                key_hash: key_hash.to_owned(),
                request_hash,
                response: Some(record.duplicate()),
                created_at_ms: now_ms,
                expires_at_ms,
            },
        );
        push_row(
            &mut self.audit_events,
            AuditRow {
                id: audit_id.to_owned(),
                tenant_id: tenant,
                actor_type: "operator".to_owned(),
                actor_id: Some(actor_id.to_owned()),
                action: "approval_decided".to_owned(),
                target_type: "approval".to_owned(),
                target_id: Some(reference.to_owned()),
                metadata_json,
                created_at_ms: now_ms,
            },
        );
        Ok(record)
    }

    /// Decide an approval once per key, with the identifier of the audit event
    /// given. `digest` is the digest of the decision's text, absent where it
    /// could not be computed.
    pub fn decide_approval_once(
        &mut self,
        reading: &ClockReading,
        reference: &str,
        status: &str,
        actor_id: &str,
        idempotency_key_hash: &str,
        digest: Option<&Vec<u8>>,
        audit_id: &str,
    ) -> (reply: Result<ApprovalDecisionOutcome, StoreError>)
        ensures
            (final(self)@, answer(reply)) == old(self)@.decide_approval_once(
                reading@,
                reference@,
                status@,
                actor_id@,
                idempotency_key_hash@,
                optional_bytes(digest),
                audit_id@,
            ),
    {
        if let Err(error) = self.checkpoint_clock(reading) {
            return Err(error);
        }
        if (!same(status, "approved") && !same(status, "rejected"))
            || idempotency_key_hash.is_empty() {
            return Err(StoreError::InvalidInput("approval decision"));
        }
        let request_hash = match digest {
            Some(bytes) => hex_text(bytes),
            None => {
                return Err(StoreError::MissingState("approval request hash"));
            },
        };
        let mut fields: Vec<(String, JsonScalar)> = Vec::new();
        fields.push(("decision".to_owned(), JsonScalar::Text(status.to_owned())));
        fields.push(
            (
                "idempotency_key_hash".to_owned(),
                JsonScalar::Text(idempotency_key_hash.to_owned()),
            ),
        );
        proof {
            assert(json_fields(fields@) =~= decision_metadata(status@, idempotency_key_hash@));
        }
        let metadata_json = match object_text(&fields) {
            Ok(text) => text,
            Err(_) => {
                return Err(StoreError::InvalidInput("approval metadata"));
            },
        };
        let now = self.now(reading.now_ms);
        let tenant_id = &self.tenant_id;
        let ghost replay = replay_of(tenant_id@, actor_id@, idempotency_key_hash@, now);
        let existing = find_row(
            &self.idempotency_keys,
            |row: &IdempotencyRow| -> (b: bool)
                ensures b == replay(row@)
                {
                    is_key(row, tenant_id, actor_id, idempotency_key_hash) && is_unexpired(
                        row.expires_at_ms,
                        now,
                    )
                },
            Ghost(replay),
        );
        if let Some(at) = existing {
            if !same(&self.idempotency_keys[at].request_hash, &request_hash) {
                return Ok(ApprovalDecisionOutcome::Conflict);
            }
            return match &self.idempotency_keys[at].response {
                Some(record) => Ok(ApprovalDecisionOutcome::Replayed(record.duplicate())),
                None => Err(StoreError::MissingState("approval idempotency response")),
            };
        }
        let at: usize = match self.approval_decidable(reference, now) {
            Some(at) => at,
            None => {
                return Ok(ApprovalDecisionOutcome::NotFound);
            },
        };
        let now_ms: i64 = match now {
            Some(now_ms) => now_ms,
            None => {
                assert(false);
                0
            },
        };
        match self.apply_decision(
            reference,
            status,
            actor_id,
            idempotency_key_hash,
            request_hash,
            metadata_json,
            audit_id,
            now_ms,
            at,
        ) {
            Ok(record) => Ok(ApprovalDecisionOutcome::Applied(record)),
            Err(error) => Err(error),
        }
    }

    /// Decide an approval once per key. The same decision under the same key
    /// gets the first answer again, another one under that key is refused.
    pub fn decide_approval_idempotent(
        &mut self,
        reading: &ClockReading,
        reference: &str,
        status: &str,
        actor_id: &str,
        idempotency_key_hash: &str,
        digest: Option<&Vec<u8>>,
    ) -> (reply: Result<ApprovalDecisionOutcome, StoreError>)
        ensures
            exists|audit_id: Seq<char>| #[trigger] crate::ids::is_hex_id(audit_id) && (
                final(self)@,
                answer(reply),
            ) == old(self)@.decide_approval_once(
                reading@,
                reference@,
                status@,
                actor_id@,
                idempotency_key_hash@,
                optional_bytes(digest),
                audit_id,
            ),
    {
        let audit_id = new_hex_id();
        self.decide_approval_once(
            reading,
            reference,
            status,
            actor_id,
            idempotency_key_hash,
            digest,
            &audit_id,
        )
    }
}

fn is_key(row: &IdempotencyRow, tenant_id: &str, actor_id: &str, key_hash: &str) -> (yes: bool)
    ensures
        yes == idempotency_key(tenant_id@, actor_id@, key_hash@)(row@),
{
    same(&row.tenant_id, tenant_id) && same(&row.actor_id, actor_id) && same(
        &row.operation,
        "approval_decision",
    ) && same(&row.key_hash, key_hash)
}

} // verus!
