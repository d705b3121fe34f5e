//! Enrollment of nodes, and the nodes that are enrolled.

use crate::clock::{ClockReading, ClockReadingView};
use crate::error::{DatabaseFault, StoreError};
use crate::limits::{
    clamp_limit, exact_sum, is_unexpired, milliseconds, page_size, positive_milliseconds, unexpired,
};
use crate::node_authority::{key_with, node_with, queued_revocation, rotation_of};
use crate::paging::{ahead, cursor_view, is_ahead, is_before, place_before};
use crate::records::{EnrollmentRecord, EnrollmentRecordView, NodeRecord, NodeRecordView};
use crate::relation::{
    answer_option, answer_rows, any, any_row, attempt_rows, attempted, count, find_row, first,
    option_view, order_rows, ordered, page, page_rows, push_row, rows_view, select_rows, selected,
    Duplicate,
};
use crate::store::{stepped, Store, StoreView};
use crate::tables::{
    EnrollmentRow, EnrollmentRowView, NodeKeyRotationRow, NodeKeyRotationRowView, NodeKeyRow,
    NodeKeyRowView, NodeRevocationRow, NodeRevocationRowView, NodeRow, NodeRowView,
};
use crate::text::{is_text, same};
use vstd::prelude::*;

verus! {

/// The enrollment with an identifier, of any tenant.
pub open spec fn enrollment_taken(id: Seq<char>) -> spec_fn(EnrollmentRowView) -> bool {
    |row: EnrollmentRowView| row.record.id == id
}

/// The enrollment with an identifier whose deadline is ahead.
pub open spec fn open_enrollment(id: Seq<char>, now: Option<i64>) -> spec_fn(
    EnrollmentRowView,
) -> bool {
    |row: EnrollmentRowView| row.record.id == id && unexpired(row.record.expires_at_ms, now)
}

/// The enrollment with an identifier.
pub open spec fn enrollment_with(id: Seq<char>, tenant_id: Seq<char>) -> spec_fn(
    EnrollmentRowView,
) -> bool {
    |row: EnrollmentRowView| row.record.id == id && row.tenant_id == tenant_id
}

/// The enrollment that a token still opens.
pub open spec fn issued_enrollment(
    id: Seq<char>,
    tenant_id: Seq<char>,
    token_hash: Seq<char>,
    now: Option<i64>,
) -> spec_fn(EnrollmentRowView) -> bool {
    |row: EnrollmentRowView|
        row.record.id == id && row.tenant_id == tenant_id && row.token_hash == token_hash
            && row.record.status == "issued"@ && unexpired(row.record.expires_at_ms, now)
}

/// What a node submits with its enrollment token.
#[verifier::ext_equal]
pub struct Submission {
    pub signing_pub: Seq<char>,
    pub recipient_pub: Seq<char>,
    pub fingerprint: Seq<char>,
    pub protocol_version: Seq<char>,
    pub capabilities_json: Seq<char>,
    pub host_facts_json: Seq<char>,
}

/// The enrollment that a submission answers.
pub open spec fn submittable(
    id: Seq<char>,
    node_id: Seq<char>,
    tenant_id: Seq<char>,
    token_hash: Seq<char>,
    requested_name: Seq<char>,
    now: Option<i64>,
) -> spec_fn(EnrollmentRowView) -> bool {
    |row: EnrollmentRowView|
        issued_enrollment(id, tenant_id, token_hash, now)(row) && row.record.node_id == node_id
            && row.record.requested_name == requested_name
}

/// An enrollment with what was submitted for it, unless its version is
/// exhausted.
pub open spec fn enrollment_submitted(submission: Submission, now: Option<i64>) -> spec_fn(
    EnrollmentRowView,
) -> Option<EnrollmentRowView> {
    |row: EnrollmentRowView|
        if row.record.version == i64::MAX {
            None
        } else {
            Some(
                EnrollmentRowView {
                    record: EnrollmentRecordView {
                        status: "submitted"@,
                        used_at_ms: now,
                        signing_pub: Some(submission.signing_pub),
                        recipient_pub: Some(submission.recipient_pub),
                        fingerprint: Some(submission.fingerprint),
                        protocol_version: Some(submission.protocol_version),
                        capabilities_json: Some(submission.capabilities_json),
                        host_facts_json: Some(submission.host_facts_json),
                        version: (row.record.version + 1) as i64,
                        ..row.record
                    },
                    ..row
                },
            )
        }
}

/// The submitted enrollment with an identifier, a version and a fingerprint, while
/// its deadline is ahead.
pub open spec fn submitted_enrollment(
    id: Seq<char>,
    tenant_id: Seq<char>,
    version: i64,
    fingerprint: Seq<char>,
    now: Option<i64>,
) -> spec_fn(EnrollmentRowView) -> bool {
    |row: EnrollmentRowView|
        row.record.id == id && row.tenant_id == tenant_id && row.record.status == "submitted"@
            && row.record.version == version && row.record.fingerprint == Some(fingerprint)
            && unexpired(row.record.expires_at_ms, now)
}

/// An enrollment with another status, unless its version is exhausted.
pub open spec fn enrollment_restated(status: Seq<char>) -> spec_fn(EnrollmentRowView) -> Option<
    EnrollmentRowView,
> {
    |row: EnrollmentRowView|
        if row.record.version == i64::MAX {
            None
        } else {
            Some(
                EnrollmentRowView {
                    record: EnrollmentRecordView {
                        status,
                        version: (row.record.version + 1) as i64,
                        ..row.record
                    },
                    ..row
                },
            )
        }
}

/// The enrollments of a tenant behind a cursor.
pub open spec fn listed_enrollment(
    tenant_id: Seq<char>,
    cursor: Option<(i64, Seq<char>)>,
) -> spec_fn(EnrollmentRowView) -> bool {
    |row: EnrollmentRowView|
        row.tenant_id == tenant_id && ahead(cursor, row.record.created_at_ms, row.record.id)
}

/// The enrollment of a row.
pub open spec fn enrollment_of() -> spec_fn(EnrollmentRowView) -> EnrollmentRecordView {
    |row: EnrollmentRowView| row.record
}

/// Enrollments by creation and identifier, the newest first.
pub open spec fn newest_enrollment() -> spec_fn(EnrollmentRecordView, EnrollmentRecordView) -> bool {
    |a: EnrollmentRecordView, b: EnrollmentRecordView|
        place_before(b.created_at_ms, b.id, a.created_at_ms, a.id)
}

/// The node of a tenant with a name.
pub open spec fn node_named(name: Seq<char>, tenant_id: Seq<char>) -> spec_fn(NodeRowView) -> bool {
    |row: NodeRowView| row.tenant_id == tenant_id && row.name == name
}

/// The node with an identifier, of any tenant.
pub open spec fn node_taken(id: Seq<char>) -> spec_fn(NodeRowView) -> bool {
    |row: NodeRowView| row.id == id
}

/// The nodes of a tenant behind a cursor.
pub open spec fn listed_node(tenant_id: Seq<char>, cursor: Option<(i64, Seq<char>)>) -> spec_fn(
    NodeRowView,
) -> bool {
    |row: NodeRowView| row.tenant_id == tenant_id && ahead(cursor, row.created_at_ms, row.id)
}

/// Nodes by creation and identifier, the newest first.
pub open spec fn newest_node() -> spec_fn(NodeRecordView, NodeRecordView) -> bool {
    |a: NodeRecordView, b: NodeRecordView|
        place_before(b.created_at_ms, b.id, a.created_at_ms, a.id)
}

/// A node as it is shown, with what is pending for it.
pub open spec fn node_record(
    queue: Seq<NodeRevocationRowView>,
    rotations: Seq<NodeKeyRotationRowView>,
) -> spec_fn(NodeRowView) -> NodeRecordView {
    |row: NodeRowView|
        {
            let rotation = first(rotations, rotation_of(row.id));
            NodeRecordView {
                id: row.id,
                name: row.name,
                signing_pub: row.signing_pub,
                recipient_pub: row.recipient_pub,
                key_version: row.key_version,
                status: row.status,
                revocation_pending: any(queue, queued_revocation(row.id)),
                rotation_pending: any(rotations, rotation_of(row.id)),
                pending_key_version: match rotation {
                    Some(staged) => Some(staged.to_key_version),
                    None => None,
                },
                pending_rotation_id: match rotation {
                    Some(staged) => Some(staged.rotation_id),
                    None => None,
                },
                protocol_version: row.protocol_version,
                capabilities_json: row.capabilities_json,
                last_seen_at_ms: row.last_seen_at_ms,
                last_poll_at_ms: row.last_poll_at_ms,
                created_at_ms: row.created_at_ms,
                revoked_at_ms: row.revoked_at_ms,
                version: row.version,
            }
        }
}

/// A node as it enters the table.
pub open spec fn fresh_node(
    tenant_id: Seq<char>,
    enrollment: EnrollmentRecordView,
    now_ms: i64,
) -> Result<NodeRowView, StoreError> {
    match (
        enrollment.signing_pub,
        enrollment.recipient_pub,
        enrollment.protocol_version,
        enrollment.capabilities_json,
    ) {
        (None, _, _, _) => Err(StoreError::MissingState("enrollment signing key")),
        (Some(_), None, _, _) => Err(StoreError::MissingState("enrollment recipient key")),
        (Some(_), Some(_), None, _) => Err(
            StoreError::MissingState("enrollment protocol version"),
        ),
        (Some(_), Some(_), Some(_), None) => Err(
            StoreError::MissingState("enrollment capabilities"),
        ),
        (
            Some(signing_pub),
            Some(recipient_pub),
            Some(protocol_version),
            Some(capabilities_json),
        ) => Ok(
            NodeRowView {
                tenant_id,
                id: enrollment.node_id,
                name: enrollment.requested_name,
                signing_pub,
                recipient_pub,
                key_version: 1,
                status: "active"@,
                protocol_version,
                capabilities_json,
                last_seen_at_ms: None,
                last_poll_at_ms: None,
                created_at_ms: now_ms,
                revoked_at_ms: None,
                version: 1,
            },
        ),
    }
}

/// The first key of a node.
pub open spec fn first_key(node: NodeRowView) -> NodeKeyRowView {
    NodeKeyRowView {
        node_id: node.id,
        key_version: 1,
        signing_pub: node.signing_pub,
        recipient_pub: node.recipient_pub,
        created_at_ms: node.created_at_ms,
        retired_at_ms: None,
    }
}

impl StoreView {
    /// The state with a new enrollment.
    pub open spec fn insert_enrollment(
        self,
        id: Seq<char>,
        node_id: Seq<char>,
        requested_name: Seq<char>,
        token_hash: Seq<char>,
        created_by: Seq<char>,
        ttl_ms: i64,
        now: Option<i64>,
    ) -> Result<StoreView, StoreError> {
        match now {
            None => Err(StoreError::Database(DatabaseFault::ClockBehind)),
            Some(now_ms) => match exact_sum(now_ms, ttl_ms) {
                None => Err(StoreError::Database(DatabaseFault::OutOfRange)),
                Some(expires_at_ms) => if any(self.enrollment_requests, enrollment_taken(id)) {
                    Err(StoreError::Database(DatabaseFault::DuplicateKey))
                } else {
                    Ok(
                        StoreView {
                            enrollment_requests: self.enrollment_requests.push(
                                EnrollmentRowView {
                                    tenant_id: self.tenant_id,
                                    token_hash,
                                    record: EnrollmentRecordView {
                                        id,
                                        node_id,
                                        requested_name,
                                        created_by,
                                        status: "issued"@,
                                        fingerprint: None,
                                        signing_pub: None,
                                        recipient_pub: None,
                                        protocol_version: None,
                                        capabilities_json: None,
                                        host_facts_json: None,
                                        created_at_ms: now_ms,
                                        expires_at_ms,
                                        used_at_ms: None,
                                        version: 1,
                                    },
                                },
                            ),
                            ..self
                        },
                    )
                },
            },
        }
    }

    /// Issue an enrollment and read back when it ends.
    pub open spec fn create_enrollment(
        self,
        c: ClockReadingView,
        id: Seq<char>,
        node_id: Seq<char>,
        requested_name: Seq<char>,
        token_hash: Seq<char>,
        created_by: Seq<char>,
        ttl_seconds: u64,
    ) -> (StoreView, Result<i64, StoreError>) {
        let (s, gate) = self.checkpoint_clock(c);
        match (gate, milliseconds(ttl_seconds)) {
            (Err(error), _) => (s, Err(error)),
            (Ok(()), None) => (s, Err(StoreError::InvalidInput("enrollment TTL"))),
            (Ok(()), Some(ttl_ms)) => match s.insert_enrollment(
                id,
                node_id,
                requested_name,
                token_hash,
                created_by,
                ttl_ms,
                s.now(c.now_ms),
            ) {
                Err(error) => (s, Err(error)),
                Ok(after) => (
                    after,
                    match first(
                        after.enrollment_requests,
                        open_enrollment(id, after.now(c.later_ms)),
                    ) {
                        Some(row) => Ok(row.record.expires_at_ms),
                        None => Err(StoreError::Database(DatabaseFault::RowNotFound)),
                    },
                ),
            },
        }
    }

    /// Read the enrollment that a token still opens.
    pub open spec fn issued_enrollment_by_token_hash(
        self,
        c: ClockReadingView,
        id: Seq<char>,
        token_hash: Seq<char>,
    ) -> (StoreView, Result<Option<EnrollmentRecordView>, StoreError>) {
        let (s, gate) = self.checkpoint_clock(c);
        match gate {
            Err(error) => (s, Err(error)),
            Ok(()) => (
                s,
                Ok(
                    match first(
                        s.enrollment_requests,
                        issued_enrollment(id, s.tenant_id, token_hash, s.now(c.now_ms)),
                    ) {
                        Some(row) => Some(row.record),
                        None => None,
                    },
                ),
            ),
        }
    }

    /// Submit what a node sends with its token, once.
    pub open spec fn submit_enrollment(
        self,
        c: ClockReadingView,
        id: Seq<char>,
        node_id: Seq<char>,
        token_hash: Seq<char>,
        requested_name: Seq<char>,
        submission: Submission,
    ) -> (StoreView, Result<bool, StoreError>) {
        let (s, gate) = self.checkpoint_clock(c);
        let now = s.now(c.now_ms);
        let hit = submittable(id, node_id, s.tenant_id, token_hash, requested_name, now);
        match gate {
            Err(error) => (s, Err(error)),
            Ok(()) => match attempted(
                s.enrollment_requests,
                hit,
                enrollment_submitted(submission, now),
            ) {
                None => (s, Err(StoreError::Database(DatabaseFault::OutOfRange))),
                Some(enrollment_requests) => (
                    StoreView { enrollment_requests, ..s },
                    Ok(count(s.enrollment_requests, hit) == 1),
                ),
            },
        }
    }

    /// Read an enrollment.
    pub open spec fn enrollment_by_id(self, c: ClockReadingView, id: Seq<char>) -> (
        StoreView,
        Result<Option<EnrollmentRecordView>, StoreError>,
    ) {
        let (s, gate) = self.checkpoint_clock(c);
        match gate {
            Err(error) => (s, Err(error)),
            Ok(()) => (
                s,
                Ok(
                    match first(s.enrollment_requests, enrollment_with(id, s.tenant_id)) {
                        Some(row) => Some(row.record),
                        None => None,
                    },
                ),
            ),
        }
    }

    /// List enrollments, the newest first.
    pub open spec fn list_enrollments(
        self,
        c: ClockReadingView,
        limit: u32,
        cursor: Option<(i64, Seq<char>)>,
    ) -> (StoreView, Result<Seq<EnrollmentRecordView>, StoreError>) {
        let (s, gate) = self.checkpoint_clock(c);
        match gate {
            Err(error) => (s, Err(error)),
            Ok(()) => (
                s,
                Ok(
                    page(
                        ordered(
                            selected(
                                s.enrollment_requests,
                                listed_enrollment(s.tenant_id, cursor),
                                enrollment_of(),
                            ),
                            newest_enrollment(),
                        ),
                        page_size(limit, 100),
                    ),
                ),
            ),
        }
    }

    /// The state with the node of an enrollment, its first key and the
    /// enrollment approved.
    pub open spec fn insert_approved_node(
        self,
        enrollment: EnrollmentRecordView,
        fingerprint: Seq<char>,
        now: Option<i64>,
    ) -> Result<StoreView, StoreError> {
        match fresh_node(
            self.tenant_id,
            enrollment,
            match now {
                Some(now_ms) => now_ms,
                None => 0,
            },
        ) {
            Err(error) => Err(error),
            Ok(node) => if now is None {
                Err(StoreError::Database(DatabaseFault::ClockBehind))
            } else if any(self.nodes, node_taken(node.id)) || any(
                self.node_key_history,
                key_with(node.id, 1),
            ) {
                Err(StoreError::Database(DatabaseFault::DuplicateKey))
            } else {
                let hit = submitted_enrollment(
                    enrollment.id,
                    self.tenant_id,
                    enrollment.version,
                    fingerprint,
                    now,
                );
                match attempted(
                    self.enrollment_requests,
                    hit,
                    enrollment_restated("approved"@),
                ) {
                    None => Err(StoreError::Database(DatabaseFault::OutOfRange)),
                    Some(enrollment_requests) => if count(self.enrollment_requests, hit) != 1 {
                        Err(StoreError::InvalidInput("enrollment approval changed"))
                    } else {
                        Ok(
                            StoreView {
                                nodes: self.nodes.push(node),
                                node_key_history: self.node_key_history.push(first_key(node)),
                                enrollment_requests,
                                ..self
                            },
                        )
                    },
                }
            },
        }
    }

    /// The node with an identifier as it is shown.
    pub open spec fn shown_node(self, id: Seq<char>) -> Option<NodeRecordView> {
        match first(self.nodes, node_with(id, self.tenant_id)) {
            Some(row) => Some(node_record(self.node_revocation_queue, self.node_key_rotations)(row)),
            None => None,
        }
    }

    /// Approve a submitted enrollment whose version and fingerprint were shown and
    /// whose deadline is ahead, unless its name is in use.
    pub open spec fn approve_enrollment(
        self,
        c: ClockReadingView,
        id: Seq<char>,
        expected_version: i64,
        expected_fingerprint: Seq<char>,
    ) -> (StoreView, Result<Option<NodeRecordView>, StoreError>) {
        let (s, gate) = self.checkpoint_clock(c);
        match gate {
            Err(error) => (s, Err(error)),
            Ok(()) => match first(
                s.enrollment_requests,
                submitted_enrollment(
                    id,
                    s.tenant_id,
                    expected_version,
                    expected_fingerprint,
                    s.now(c.now_ms),
                ),
            ) {
                None => (s, Ok(None)),
                Some(row) => if any(s.nodes, node_named(row.record.requested_name, s.tenant_id)) {
                    (s, Ok(None))
                } else {
                    match s.insert_approved_node(
                        row.record,
                        expected_fingerprint,
                        s.now(c.now_ms),
                    ) {
                        Err(error) => (s, Err(error)),
                        Ok(after) => match after.shown_node(row.record.node_id) {
                            None => (s, Err(StoreError::Database(DatabaseFault::RowNotFound))),
                            Some(node) => (after, Ok(Some(node))),
                        },
                    }
                },
            },
        }
    }

    /// Reject a submitted enrollment whose version and fingerprint were shown and
    /// whose deadline is ahead.
    pub open spec fn reject_enrollment(
        self,
        c: ClockReadingView,
        id: Seq<char>,
        expected_version: i64,
        expected_fingerprint: Seq<char>,
    ) -> (StoreView, Result<bool, StoreError>) {
        let (s, gate) = self.checkpoint_clock(c);
        let hit = submitted_enrollment(
            id,
            s.tenant_id,
            expected_version,
            expected_fingerprint,
            s.now(c.now_ms),
        );
        match gate {
            Err(error) => (s, Err(error)),
            Ok(()) => match attempted(
                s.enrollment_requests,
                hit,
                enrollment_restated("rejected"@),
            ) {
                None => (s, Err(StoreError::Database(DatabaseFault::OutOfRange))),
                Some(enrollment_requests) => (
                    StoreView { enrollment_requests, ..s },
                    Ok(count(s.enrollment_requests, hit) == 1),
                ),
            },
        }
    }

    /// Read a node.
    pub open spec fn node_by_id(self, c: ClockReadingView, id: Seq<char>) -> (
        StoreView,
        Result<Option<NodeRecordView>, StoreError>,
    ) {
        let (s, gate) = self.checkpoint_clock(c);
        match gate {
            Err(error) => (s, Err(error)),
            Ok(()) => (s, Ok(s.shown_node(id))),
        }
    }

    /// List nodes, the newest first.
    pub open spec fn list_nodes(
        self,
        c: ClockReadingView,
        limit: u32,
        cursor: Option<(i64, Seq<char>)>,
    ) -> (StoreView, Result<Seq<NodeRecordView>, StoreError>) {
        let (s, gate) = self.checkpoint_clock(c);
        match gate {
            Err(error) => (s, Err(error)),
            Ok(()) => (
                s,
                Ok(
                    page(
                        ordered(
                            selected(
                                s.nodes,
                                listed_node(s.tenant_id, cursor),
                                node_record(s.node_revocation_queue, s.node_key_rotations),
                            ),
                            newest_node(),
                        ),
                        page_size(limit, 100),
                    ),
                ),
            ),
        }
    }
}

fn is_submitted(
    row: &EnrollmentRow,
    id: &str,
    tenant_id: &str,
    version: i64,
    fingerprint: &str,
    now: Option<i64>,
) -> (yes: bool)
    ensures
        yes == submitted_enrollment(id@, tenant_id@, version, fingerprint@, now)(row@),
{
    same(&row.record.id, id) && same(&row.tenant_id, tenant_id) && same(
        &row.record.status,
        "submitted",
    ) && row.record.version == version && is_text(&row.record.fingerprint, fingerprint)
        && is_unexpired(row.record.expires_at_ms, now)
}

fn restate_enrollment(row: &EnrollmentRow, status: &str) -> (next: Option<EnrollmentRow>)
    ensures
        option_view(next) == enrollment_restated(status@)(row@),
{
    if row.record.version == i64::MAX {
        return None;
    }
    let mut next = row.duplicate();
    next.record.status = status.to_owned();
    next.record.version = row.record.version + 1;
    Some(next)
}

fn show_node(
    row: &NodeRow,
    queue: &Vec<NodeRevocationRow>,
    rotations: &Vec<NodeKeyRotationRow>,
) -> (record: NodeRecord)
    ensures
        record@ == node_record(rows_view(queue@), rows_view(rotations@))(row@),
{
    let id = &row.id;
    let revocation_pending = any_row(
        queue,
        |entry: &NodeRevocationRow| -> (b: bool)
            ensures b == queued_revocation(id@)(entry@)
            { same(&entry.node_id, id) },
        Ghost(queued_revocation(id@)),
    );
    let staged = find_row(
        rotations,
        |rotation: &NodeKeyRotationRow| -> (b: bool)
            ensures b == rotation_of(id@)(rotation@)
            { same(&rotation.node_id, id) },
        Ghost(rotation_of(id@)),
    );
    let (rotation_pending, pending_key_version, pending_rotation_id): (
        bool,
        Option<i64>,
        Option<String>,
    ) = match staged {
        Some(at) => (
            true,
            Some(rotations[at].to_key_version),
            Some(rotations[at].rotation_id.clone()),
        ),
        None => (false, None, None),
    };
    NodeRecord {
        id: row.id.clone(),
        name: row.name.clone(),
        signing_pub: row.signing_pub.clone(),
        recipient_pub: row.recipient_pub.clone(),
        key_version: row.key_version,
        status: row.status.clone(),
        revocation_pending,
        rotation_pending,
        pending_key_version,
        pending_rotation_id,
        protocol_version: row.protocol_version.clone(),
        capabilities_json: row.capabilities_json.clone(),
        last_seen_at_ms: row.last_seen_at_ms,
        last_poll_at_ms: row.last_poll_at_ms,
        created_at_ms: row.created_at_ms,
        revoked_at_ms: row.revoked_at_ms,
        version: row.version,
    }
}

impl Store {
    fn insert_enrollment(
        &mut self,
        id: &str,
        node_id: &str,
        requested_name: &str,
        token_hash: &str,
        created_by: &str,
        ttl_ms: i64,
        now: Option<i64>,
    ) -> (reply: Result<(), StoreError>)
        ensures
            match old(self)@.insert_enrollment(
                id@,
                node_id@,
                requested_name@,
                token_hash@,
                created_by@,
                ttl_ms,
                now,
            ) {
                Ok(after) => reply is Ok && final(self)@ == after,
                Err(error) => reply == Err::<(), StoreError>(error) && final(self)@ == old(self)@,
            },
    {
        let now_ms: i64 = match now {
            Some(now_ms) => now_ms,
            None => {
                return Err(StoreError::Database(DatabaseFault::ClockBehind));
            },
        };
        let expires_at_ms: i64 = match now_ms.checked_add(ttl_ms) {
            Some(at_ms) => at_ms,
            None => {
                return Err(StoreError::Database(DatabaseFault::OutOfRange));
            },
        };
        let taken = any_row(
            &self.enrollment_requests,
            |row: &EnrollmentRow| -> (b: bool)
                ensures b == enrollment_taken(id@)(row@)
                { same(&row.record.id, id) },
            Ghost(enrollment_taken(id@)),
        );
        if taken {
            return Err(StoreError::Database(DatabaseFault::DuplicateKey));
        }
        let row = EnrollmentRow {
            tenant_id: self.tenant_id.clone(),
            token_hash: token_hash.to_owned(),
            record: EnrollmentRecord {
                id: id.to_owned(),
                node_id: node_id.to_owned(),
                requested_name: requested_name.to_owned(),
                created_by: created_by.to_owned(),
                status: "issued".to_owned(),
                fingerprint: None,
                signing_pub: None,
                recipient_pub: None,
                protocol_version: None,
                capabilities_json: None,
                host_facts_json: None,
                created_at_ms: now_ms,
                expires_at_ms,
                used_at_ms: None,
                version: 1,
            },
        };
        push_row(&mut self.enrollment_requests, row);
        Ok(())
    }

    /// Issue an enrollment under the hash of its one-use token. Returns when the
    /// enrollment ends.
    pub fn create_enrollment(
        &mut self,
        reading: &ClockReading,
        id: &str,
        node_id: &str,
        requested_name: &str,
        token_hash: &str,
        created_by: &str,
        ttl_seconds: u64,
    ) -> (reply: Result<i64, StoreError>)
        ensures
            (final(self)@, reply) == old(self)@.create_enrollment(
                reading@,
                id@,
                node_id@,
                requested_name@,
                token_hash@,
                created_by@,
                ttl_seconds,
            ),
    {
        if let Err(error) = self.checkpoint_clock(reading) {
            return Err(error);
        }
        let ttl_ms: i64 = match positive_milliseconds(ttl_seconds, "enrollment TTL") {
            Ok(ttl_ms) => ttl_ms,
            Err(error) => {
                return Err(error);
            },
        };
        let now = self.now(reading.now_ms);
        if let Err(error) = self.insert_enrollment(
            id,
            node_id,
            requested_name,
            token_hash,
            created_by,
            ttl_ms,
            now,
        ) {
            return Err(error);
        }
        let later = self.now(reading.later_ms);
        let found = find_row(
            &self.enrollment_requests,
            |row: &EnrollmentRow| -> (b: bool)
                ensures b == open_enrollment(id@, later)(row@)
                { same(&row.record.id, id) && is_unexpired(row.record.expires_at_ms, later) },
            Ghost(open_enrollment(id@, later)),
        );
        match found {
            Some(at) => Ok(self.enrollment_requests[at].record.expires_at_ms),
            None => Err(StoreError::Database(DatabaseFault::RowNotFound)),
        }
    }

    /// Read the enrollment that a token still opens.
    pub fn issued_enrollment_by_token_hash(
        &mut self,
        reading: &ClockReading,
        id: &str,
        token_hash: &str,
    ) -> (reply: Result<Option<EnrollmentRecord>, StoreError>)
        ensures
            (final(self)@, answer_option(reply)) == old(self)@.issued_enrollment_by_token_hash(
                reading@,
                id@,
                token_hash@,
            ),
    {
        if let Err(error) = self.checkpoint_clock(reading) {
            return Err(error);
        }
        let now = self.now(reading.now_ms);
        let tenant_id = &self.tenant_id;
        let found = find_row(
            &self.enrollment_requests,
            |row: &EnrollmentRow| -> (b: bool)
                ensures b == issued_enrollment(id@, tenant_id@, token_hash@, now)(row@)
                {
                    same(&row.record.id, id) && same(&row.tenant_id, tenant_id) && same(
                        &row.token_hash,
                        token_hash,
                    ) && same(&row.record.status, "issued") && is_unexpired(
                        row.record.expires_at_ms,
                        now,
                    )
                },
            Ghost(issued_enrollment(id@, tenant_id@, token_hash@, now)),
        );
        match found {
            Some(at) => Ok(Some(self.enrollment_requests[at].record.duplicate())),
            None => Ok(None),
        }
    }

    /// Store what a node submits with its token. The token works once, for the
    /// node and the name that it was issued for.
    pub fn submit_enrollment(
        &mut self,
        reading: &ClockReading,
        id: &str,
        node_id: &str,
        token_hash: &str,
        requested_name: &str,
        signing_pub: &str,
        recipient_pub: &str,
        fingerprint: &str,
        protocol_version: &str,
        capabilities_json: &str,
        host_facts_json: &str,
    ) -> (reply: Result<bool, StoreError>)
        ensures
            (final(self)@, reply) == old(self)@.submit_enrollment(
                reading@,
                id@,
                node_id@,
                token_hash@,
                requested_name@,
                (Submission {
                    signing_pub: signing_pub@,
                    recipient_pub: recipient_pub@,
                    fingerprint: fingerprint@,
                    protocol_version: protocol_version@,
                    capabilities_json: capabilities_json@,
                    host_facts_json: host_facts_json@,
                }),
            ),
    {
        if let Err(error) = self.checkpoint_clock(reading) {
            return Err(error);
        }
        let now = self.now(reading.now_ms);
        let tenant_id = &self.tenant_id;
        let ghost hit = submittable(
            id@,
            node_id@,
            tenant_id@,
            token_hash@,
            requested_name@,
            now,
        );
        let ghost change = enrollment_submitted(
            Submission {
                signing_pub: signing_pub@,
                recipient_pub: recipient_pub@,
                fingerprint: fingerprint@,
                protocol_version: protocol_version@,
                capabilities_json: capabilities_json@,
                host_facts_json: host_facts_json@,
            },
            now,
        );
        let submitted = attempt_rows(
            &mut self.enrollment_requests,
            |row: &EnrollmentRow| -> (b: bool)
                ensures b == hit(row@)
                {
                    same(&row.record.id, id) && same(&row.record.node_id, node_id) && same(
                        &row.tenant_id,
                        tenant_id,
                    ) && same(&row.token_hash, token_hash) && same(
                        &row.record.requested_name,
                        requested_name,
                    ) && same(&row.record.status, "issued") && is_unexpired(
                        row.record.expires_at_ms,
                        now,
                    )
                },
            |row: &EnrollmentRow| -> (next: Option<EnrollmentRow>)
                ensures option_view(next) == change(row@)
                {
                    if row.record.version == i64::MAX {
                        return None;
                    }
                    let mut next = row.duplicate();
                    next.record.status = "submitted".to_owned();
                    next.record.used_at_ms = now;
                    next.record.signing_pub = Some(signing_pub.to_owned());
                    next.record.recipient_pub = Some(recipient_pub.to_owned());
                    next.record.fingerprint = Some(fingerprint.to_owned());
                    next.record.protocol_version = Some(protocol_version.to_owned());
                    next.record.capabilities_json = Some(capabilities_json.to_owned());
                    next.record.host_facts_json = Some(host_facts_json.to_owned());
                    next.record.version = row.record.version + 1;
                    Some(next)
                },
            Ghost(hit),
            Ghost(change),
        );
        match submitted {
            Some(rows) => Ok(rows == 1),
            None => Err(StoreError::Database(DatabaseFault::OutOfRange)),
        }
    }

    /// Read an enrollment.
    pub fn enrollment_by_id(&mut self, reading: &ClockReading, id: &str) -> (reply: Result<
        Option<EnrollmentRecord>,
        StoreError,
    >)
        ensures
            (final(self)@, answer_option(reply)) == old(self)@.enrollment_by_id(reading@, id@),
    {
        if let Err(error) = self.checkpoint_clock(reading) {
            return Err(error);
        }
        let tenant_id = &self.tenant_id;
        let found = find_row(
            &self.enrollment_requests,
            |row: &EnrollmentRow| -> (b: bool)
                ensures b == enrollment_with(id@, tenant_id@)(row@)
                { same(&row.record.id, id) && same(&row.tenant_id, tenant_id) },
            Ghost(enrollment_with(id@, tenant_id@)),
        );
        match found {
            Some(at) => Ok(Some(self.enrollment_requests[at].record.duplicate())),
            None => Ok(None),
        }
    }

    /// List enrollments, the newest first.
    pub fn list_enrollments(
        &mut self,
        reading: &ClockReading,
        limit: u32,
        cursor: Option<(i64, String)>,
    ) -> (reply: Result<Vec<EnrollmentRecord>, StoreError>)
        ensures
            (final(self)@, answer_rows(reply)) == old(self)@.list_enrollments(
                reading@,
                limit,
                cursor_view(cursor),
            ),
    {
        if let Err(error) = self.checkpoint_clock(reading) {
            return Err(error);
        }
        let size: usize = clamp_limit(limit, 100);
        let tenant_id = &self.tenant_id;
        let ghost shown = listed_enrollment(tenant_id@, cursor_view(cursor));
        let found = select_rows(
            &self.enrollment_requests,
            |row: &EnrollmentRow| -> (b: bool)
                ensures b == shown(row@)
                {
                    same(&row.tenant_id, tenant_id) && is_ahead(
                        &cursor,
                        row.record.created_at_ms,
                        &row.record.id,
                    )
                },
            |row: &EnrollmentRow| -> (record: EnrollmentRecord)
                ensures record@ == enrollment_of()(row@)
                { row.record.duplicate() },
            Ghost(shown),
            Ghost(enrollment_of()),
        );
        let sorted = order_rows(
            found,
            |a: &EnrollmentRecord, b: &EnrollmentRecord| -> (less: bool)
                ensures less == newest_enrollment()(a@, b@)
                { is_before(b.created_at_ms, &b.id, a.created_at_ms, &a.id) },
            Ghost(newest_enrollment()),
        );
        Ok(page_rows(sorted, size))
    }

    fn insert_approved_node(
        &mut self,
        enrollment: &EnrollmentRecord,
        fingerprint: &str,
        now: Option<i64>,
    ) -> (reply: Result<(), StoreError>)
        ensures
            stepped(
                old(self)@.insert_approved_node(enrollment@, fingerprint@, now),
                final(self)@,
                reply,
            ),
    {
        let signing_pub = match &enrollment.signing_pub {
            Some(key) => key.clone(),
            None => {
                return Err(StoreError::MissingState("enrollment signing key"));
            },
        };
        let recipient_pub = match &enrollment.recipient_pub {
            Some(key) => key.clone(),
            None => {
                return Err(StoreError::MissingState("enrollment recipient key"));
            },
        };
        let protocol_version = match &enrollment.protocol_version {
            Some(version) => version.clone(),
            None => {
                return Err(StoreError::MissingState("enrollment protocol version"));
            },
        };
        let capabilities_json = match &enrollment.capabilities_json {
            Some(json) => json.clone(),
            None => {
                return Err(StoreError::MissingState("enrollment capabilities"));
            },
        };
        let now_ms: i64 = match now {
            Some(now_ms) => now_ms,
            None => {
                return Err(StoreError::Database(DatabaseFault::ClockBehind));
            },
        };
        let node_id = &enrollment.node_id;
        let taken = any_row(
            &self.nodes,
            |row: &NodeRow| -> (b: bool)
                ensures b == node_taken(node_id@)(row@)
                { same(&row.id, node_id) },
            Ghost(node_taken(node_id@)),
        );
        let keyed = any_row(
            &self.node_key_history,
            |row: &NodeKeyRow| -> (b: bool)
                ensures b == key_with(node_id@, 1)(row@)
                { same(&row.node_id, node_id) && row.key_version == 1 },
            Ghost(key_with(node_id@, 1)),
        );
        if taken || keyed {
            return Err(StoreError::Database(DatabaseFault::DuplicateKey));
        }
        let key = NodeKeyRow {
            node_id: node_id.clone(),
            key_version: 1,
            signing_pub: signing_pub.clone(),
            recipient_pub: recipient_pub.clone(),
            created_at_ms: now_ms,
            retired_at_ms: None,
        };
        let node = NodeRow {
            tenant_id: self.tenant_id.clone(),
            id: node_id.clone(),
            name: enrollment.requested_name.clone(),
            signing_pub,
            recipient_pub,
            key_version: 1,
            status: "active".to_owned(),
            protocol_version,
            capabilities_json,
            last_seen_at_ms: None,
            last_poll_at_ms: None,
            created_at_ms: now_ms,
            revoked_at_ms: None,
            version: 1,
        };
        push_row(&mut self.nodes, node);
        push_row(&mut self.node_key_history, key);
        let tenant_id = &self.tenant_id;
        let id = &enrollment.id;
        let version: i64 = enrollment.version;
        let approved = attempt_rows(
            &mut self.enrollment_requests,
            |row: &EnrollmentRow| -> (b: bool)
                ensures b == submitted_enrollment(id@, tenant_id@, version, fingerprint@, now)(row@)
                { is_submitted(row, id, tenant_id, version, fingerprint, now) },
            |row: &EnrollmentRow| -> (next: Option<EnrollmentRow>)
                ensures option_view(next) == enrollment_restated("approved"@)(row@)
                { restate_enrollment(row, "approved") },
            Ghost(submitted_enrollment(id@, tenant_id@, version, fingerprint@, now)),
            Ghost(enrollment_restated("approved"@)),
        );
        match approved {
            None => Err(StoreError::Database(DatabaseFault::OutOfRange)),
            Some(rows) => {
                if rows != 1 {
                    Err(StoreError::InvalidInput("enrollment approval changed"))
                } else {
                    Ok(())
                }
            },
        }
    }

    fn shown_node(&self, id: &str) -> (record: Option<NodeRecord>)
        ensures
            option_view(record) == self@.shown_node(id@),
    {
        match self.find_node(id) {
            Some(at) => Some(
                show_node(&self.nodes[at], &self.node_revocation_queue, &self.node_key_rotations),
            ),
            None => None,
        }
    }

    /// Approve a submitted enrollment whose version and fingerprint were shown.
    /// Nothing happens where its deadline has passed or its name is in use.
    pub fn approve_enrollment(
        &mut self,
        reading: &ClockReading,
        id: &str,
        expected_version: i64,
        expected_fingerprint: &str,
    ) -> (reply: Result<Option<NodeRecord>, StoreError>)
        ensures
            (final(self)@, answer_option(reply)) == old(self)@.approve_enrollment(
                reading@,
                id@,
                expected_version,
                expected_fingerprint@,
            ),
    {
        if let Err(error) = self.checkpoint_clock(reading) {
            return Err(error);
        }
        let now = self.now(reading.now_ms);
        let tenant_id = &self.tenant_id;
        let ghost hit = submitted_enrollment(
            id@,
            tenant_id@,
            expected_version,
            expected_fingerprint@,
            now,
        );
        let found = find_row(
            &self.enrollment_requests,
            |row: &EnrollmentRow| -> (b: bool)
                ensures b == hit(row@)
                { is_submitted(row, id, tenant_id, expected_version, expected_fingerprint, now) },
            Ghost(hit),
        );
        let enrollment = match found {
            Some(at) => self.enrollment_requests[at].record.duplicate(),
            None => {
                return Ok(None);
            },
        };
        let name = &enrollment.requested_name;
        let named = any_row(
            &self.nodes,
            |row: &NodeRow| -> (b: bool)
                ensures b == node_named(name@, tenant_id@)(row@)
                { same(&row.tenant_id, tenant_id) && same(&row.name, name) },
            Ghost(node_named(name@, tenant_id@)),
        );
        if named {
            return Ok(None);
        }
        let mut transaction = self.duplicate();
        if let Err(error) = transaction.insert_approved_node(
            &enrollment,
            expected_fingerprint,
            now,
        ) {
            return Err(error);
        }
        match transaction.shown_node(&enrollment.node_id) {
            Some(node) => {
                *self = transaction;
                Ok(Some(node))
            },
            None => Err(StoreError::Database(DatabaseFault::RowNotFound)),
        }
    }

    /// Reject a submitted enrollment whose version and fingerprint were shown.
    /// Nothing happens where its deadline has passed.
    pub fn reject_enrollment(
        &mut self,
        reading: &ClockReading,
        id: &str,
        expected_version: i64,
        expected_fingerprint: &str,
    ) -> (reply: Result<bool, StoreError>)
        ensures
            (final(self)@, reply) == old(self)@.reject_enrollment(
                reading@,
                id@,
                expected_version,
                expected_fingerprint@,
            ),
    {
        if let Err(error) = self.checkpoint_clock(reading) {
            return Err(error);
        }
        let now = self.now(reading.now_ms);
        let tenant_id = &self.tenant_id;
        let ghost hit = submitted_enrollment(
            id@,
            tenant_id@,
            expected_version,
            expected_fingerprint@,
            now,
        );
        let rejected = attempt_rows(
            &mut self.enrollment_requests,
            |row: &EnrollmentRow| -> (b: bool)
                ensures b == hit(row@)
                { is_submitted(row, id, tenant_id, expected_version, expected_fingerprint, now) },
            |row: &EnrollmentRow| -> (next: Option<EnrollmentRow>)
                ensures option_view(next) == enrollment_restated("rejected"@)(row@)
                { restate_enrollment(row, "rejected") },
            Ghost(hit),
            Ghost(enrollment_restated("rejected"@)),
        );
        match rejected {
            Some(rows) => Ok(rows == 1),
            None => Err(StoreError::Database(DatabaseFault::OutOfRange)),
        }
    }

    /// Read a node.
    pub fn node_by_id(&mut self, reading: &ClockReading, id: &str) -> (reply: Result<
        Option<NodeRecord>,
        StoreError,
    >)
        ensures
            (final(self)@, answer_option(reply)) == old(self)@.node_by_id(reading@, id@),
    {
        if let Err(error) = self.checkpoint_clock(reading) {
            return Err(error);
        }
        Ok(self.shown_node(id))
    }

    /// List nodes, the newest first.
    pub fn list_nodes(
        &mut self,
        reading: &ClockReading,
        limit: u32,
        cursor: Option<(i64, String)>,
    ) -> (reply: Result<Vec<NodeRecord>, StoreError>)
        ensures
            (final(self)@, answer_rows(reply)) == old(self)@.list_nodes(
                reading@,
                limit,
                cursor_view(cursor),
            ),
    {
        if let Err(error) = self.checkpoint_clock(reading) {
            return Err(error);
        }
        let size: usize = clamp_limit(limit, 100);
        let tenant_id = &self.tenant_id;
        let queue = &self.node_revocation_queue;
        let rotations = &self.node_key_rotations;
        let ghost shown = listed_node(tenant_id@, cursor_view(cursor));
        let ghost as_shown = node_record(rows_view(queue@), rows_view(rotations@));
        let found = select_rows(
            &self.nodes,
            |row: &NodeRow| -> (b: bool)
                ensures b == shown(row@)
                { same(&row.tenant_id, tenant_id) && is_ahead(&cursor, row.created_at_ms, &row.id) },
            |row: &NodeRow| -> (record: NodeRecord)
                ensures record@ == as_shown(row@)
                { show_node(row, queue, rotations) },
            Ghost(shown),
            Ghost(as_shown),
        );
        let sorted = order_rows(
            found,
            |a: &NodeRecord, b: &NodeRecord| -> (less: bool)
                ensures less == newest_node()(a@, b@)
                { is_before(b.created_at_ms, &b.id, a.created_at_ms, &a.id) },
            Ghost(newest_node()),
        );
        Ok(page_rows(sorted, size))
    }
}

} // verus!
