//! The channel to nodes: handshakes, sessions, the inbox that a node polls and
//! the events that it reports.

use crate::clock::{ClockReading, ClockReadingView};
use crate::error::{DatabaseFault, StoreError};
use crate::ids::{is_uuid, new_uuid};
use crate::limits::{
    clamped, exact_sum, is_unexpired, saturated_difference, unexpired,
};
use crate::records::{
    InboxDocument, InboxDocumentView, NodeChallenge, NodeChallengeView, NodeEventInsert,
};
use crate::relation::{
    answer_option, answer_rows, any, any_row, count, find_row, first, order_rows, ordered, page,
    page_rows, push_row, remove_rows, rows_view, select_rows, selected, update_rows, updated,
    without, Duplicate,
};
use crate::store::{Store, StoreView};
use crate::tables::{
    ChallengeRow, ChallengeRowView, InboxRow, InboxRowView, NodeEventRow, NodeEventRowView, NodeRow,
    NodeRowView, NodeSessionRow, NodeSessionRowView,
};
use crate::text::same;
use vstd::prelude::*;

verus! {

/// How long a challenge can be answered.
pub const NODE_CHALLENGE_TTL_MS: i64 = 60_000;

/// How long a node session lasts.
pub const NODE_SESSION_TTL_MS: i64 = 900_000;

/// The longest time from a challenge to the end of its session.
pub const LONGEST_SESSION_MS: i64 = 960_000;

/// The most documents that one poll delivers.
pub const INBOX_PAGE: usize = 50;

/// The identifier of a challenge.
pub open spec fn challenge_id(uuid: Seq<char>) -> Seq<char> {
    "ch_"@ + uuid
}

/// The challenges that a new one of a node clears away: what lapsed, what was
/// consumed, and every other one of the node.
pub open spec fn outdated_challenge(
    tenant_id: Seq<char>,
    node_id: Seq<char>,
    now: Option<i64>,
) -> spec_fn(ChallengeRowView) -> bool {
    |row: ChallengeRowView|
        (now is Some && row.challenge.expires_at_ms <= now->0) || row.consumed_at_ms is Some || (
        row.challenge.tenant_id == tenant_id && row.challenge.node_id == node_id)
}

/// The active node whose stored protocol and capabilities are those of a
/// handshake.
pub open spec fn greeted_node(
    id: Seq<char>,
    tenant_id: Seq<char>,
    protocol_version: Seq<char>,
    capabilities_json: Seq<char>,
) -> spec_fn(NodeRowView) -> bool {
    |row: NodeRowView|
        row.id == id && row.tenant_id == tenant_id && row.status == "active"@
            && row.protocol_version == protocol_version && row.capabilities_json
            == capabilities_json
}

/// The challenge with an identifier.
pub open spec fn challenge_taken(id: Seq<char>) -> spec_fn(ChallengeRowView) -> bool {
    |row: ChallengeRowView| row.challenge.id == id
}

/// The challenge with an identifier whose deadline is ahead.
pub open spec fn open_challenge(id: Seq<char>, now: Option<i64>) -> spec_fn(
    ChallengeRowView,
) -> bool {
    |row: ChallengeRowView| row.challenge.id == id && unexpired(row.challenge.expires_at_ms, now)
}

/// The challenge of a node that can still be answered under a nonce.
pub open spec fn answerable_challenge(
    tenant_id: Seq<char>,
    node_id: Seq<char>,
    nonce_hash: Seq<char>,
    now: Option<i64>,
) -> spec_fn(ChallengeRowView) -> bool {
    |row: ChallengeRowView|
        row.challenge.tenant_id == tenant_id && row.challenge.node_id == node_id && row.nonce_hash
            == nonce_hash && row.consumed_at_ms is None && unexpired(
            row.challenge.expires_at_ms,
            now,
        )
}

/// The stored challenge that an answer was signed for.
pub open spec fn answered_challenge(
    challenge: NodeChallengeView,
    nonce_hash: Seq<char>,
    now: Option<i64>,
) -> spec_fn(ChallengeRowView) -> bool {
    |row: ChallengeRowView|
        row.challenge.id == challenge.id && row.challenge.tenant_id == challenge.tenant_id
            && row.challenge.node_id == challenge.node_id && row.nonce_hash == nonce_hash
            && row.challenge.key_version == challenge.key_version && row.challenge.issuer_epoch
            == challenge.issuer_epoch && row.challenge.protocol_version
            == challenge.protocol_version && row.challenge.capabilities_json
            == challenge.capabilities_json && row.challenge.capabilities_hash
            == challenge.capabilities_hash && row.consumed_at_ms is None && unexpired(
            row.challenge.expires_at_ms,
            now,
        )
}

/// The active node that a challenge was made for, as it was then.
pub open spec fn challenged_node(challenge: NodeChallengeView, tenant_id: Seq<char>) -> spec_fn(
    NodeRowView,
) -> bool {
    |row: NodeRowView|
        greeted_node(
            challenge.node_id,
            tenant_id,
            challenge.protocol_version,
            challenge.capabilities_json,
        )(row) && row.key_version == challenge.key_version
}

/// A challenge that was consumed.
pub open spec fn challenge_consumed(now: Option<i64>) -> spec_fn(
    ChallengeRowView,
) -> ChallengeRowView {
    |row: ChallengeRowView| ChallengeRowView { consumed_at_ms: now, ..row }
}

/// The session with an identifier.
pub open spec fn node_session_taken(id: Seq<char>) -> spec_fn(NodeSessionRowView) -> bool {
    |row: NodeSessionRowView| row.id == id
}

/// The session of a node that a bearer token opens.
pub open spec fn bearer_session(
    id: Seq<char>,
    node_id: Seq<char>,
    token_hash: Seq<char>,
    now: Option<i64>,
) -> spec_fn(NodeSessionRowView) -> bool {
    |row: NodeSessionRowView|
        row.id == id && row.node_id == node_id && row.token_hash == token_hash && row.revoked_at_ms
            is None && unexpired(row.expires_at_ms, now)
}

/// The active node that a session belongs to.
pub open spec fn bearer_node(
    sessions: Seq<NodeSessionRowView>,
    epoch_current: bool,
    session_id: Seq<char>,
    node_id: Seq<char>,
    tenant_id: Seq<char>,
    token_hash: Seq<char>,
    key_version: i64,
    protocol_version: Seq<char>,
    now: Option<i64>,
) -> spec_fn(NodeRowView) -> bool {
    |row: NodeRowView|
        row.id == node_id && row.tenant_id == tenant_id && row.status == "active"@
            && row.key_version == key_version && row.protocol_version == protocol_version
            && epoch_current && any(sessions, bearer_session(session_id, row.id, token_hash, now))
}

/// A node that was seen, and polled where `poll` says so.
pub open spec fn node_seen(poll: bool, now: Option<i64>) -> spec_fn(NodeRowView) -> NodeRowView {
    |row: NodeRowView|
        NodeRowView {
            last_seen_at_ms: now,
            last_poll_at_ms: if poll {
                now
            } else {
                row.last_poll_at_ms
            },
            ..row
        }
}

/// The delivered documents of a node that an acknowledgement covers.
pub open spec fn acknowledged(node_id: Seq<char>, ack_seq: i64) -> spec_fn(InboxRowView) -> bool {
    |row: InboxRowView|
        row.node_id == node_id && row.seq <= ack_seq && row.delivered_at_ms is Some
            && row.acked_at_ms is None
}

/// A document that was acknowledged.
pub open spec fn document_acked(now: Option<i64>) -> spec_fn(InboxRowView) -> InboxRowView {
    |row: InboxRowView| InboxRowView { acked_at_ms: now, ..row }
}

/// The documents of a node that wait for an acknowledgement.
pub open spec fn outstanding(node_id: Seq<char>) -> spec_fn(InboxRowView) -> bool {
    |row: InboxRowView| row.node_id == node_id && row.acked_at_ms is None
}

/// The document of a row.
pub open spec fn inbox_document() -> spec_fn(InboxRowView) -> InboxDocumentView {
    |row: InboxRowView| InboxDocumentView { seq: row.seq, envelope_json: row.envelope_json }
}

/// Documents by sequence number.
pub open spec fn sequence_order() -> spec_fn(InboxDocumentView, InboxDocumentView) -> bool {
    |a: InboxDocumentView, b: InboxDocumentView| a.seq < b.seq
}

/// The first outstanding documents of a node.
pub open spec fn inbox_page(rows: Seq<InboxRowView>, node_id: Seq<char>) -> Seq<InboxDocumentView> {
    page(
        ordered(selected(rows, outstanding(node_id), inbox_document()), sequence_order()),
        INBOX_PAGE as int,
    )
}

/// The outstanding documents of a node that a page holds.
pub open spec fn paged(documents: Seq<InboxDocumentView>, node_id: Seq<char>) -> spec_fn(
    InboxRowView,
) -> bool {
    |row: InboxRowView|
        outstanding(node_id)(row) && any(
            documents,
            |document: InboxDocumentView| document.seq == row.seq,
        )
}

/// A document that was delivered; the first delivery counts.
pub open spec fn document_delivered(now: Option<i64>) -> spec_fn(InboxRowView) -> InboxRowView {
    |row: InboxRowView|
        InboxRowView {
            delivered_at_ms: match row.delivered_at_ms {
                Some(at_ms) => Some(at_ms),
                None => now,
            },
            ..row
        }
}

/// The event of a node under a key.
pub open spec fn event_under(node_id: Seq<char>, idempotency_key: Seq<char>) -> spec_fn(
    NodeEventRowView,
) -> bool {
    |row: NodeEventRowView| row.node_id == node_id && row.idempotency_key == idempotency_key
}

/// The event with an identifier.
pub open spec fn event_taken(id: Seq<char>) -> spec_fn(NodeEventRowView) -> bool {
    |row: NodeEventRowView| row.id == id
}

impl StoreView {
    /// The challenge that a node gets, as it enters the table.
    pub open spec fn fresh_challenge(
        self,
        id: Seq<char>,
        node: NodeRowView,
        nonce_hash: Seq<char>,
        capabilities_hash: Seq<char>,
        now_ms: i64,
        expires_at_ms: i64,
    ) -> ChallengeRowView {
        ChallengeRowView {
            nonce_hash,
            consumed_at_ms: None,
            challenge: NodeChallengeView {
                id,
                tenant_id: node.tenant_id,
                node_id: node.id,
                key_version: node.key_version,
                issuer_epoch: self.meta.issuer_epoch,
                protocol_version: node.protocol_version,
                capabilities_json: node.capabilities_json,
                capabilities_hash,
                created_at_ms: now_ms,
                expires_at_ms,
            },
        }
    }

    /// Clear outdated challenges away and make a new one under an identifier,
    /// for an active node that greets as it is stored.
    pub open spec fn issue_node_challenge(
        self,
        c: ClockReadingView,
        id: Seq<char>,
        node_id: Seq<char>,
        nonce_hash: Seq<char>,
        protocol_version: Seq<char>,
        capabilities_json: Seq<char>,
        capabilities_hash: Seq<char>,
    ) -> (StoreView, Result<Option<NodeChallengeView>, StoreError>) {
        let (s, gate) = self.checkpoint_clock(c);
        let now = s.now(c.now_ms);
        let cleared = StoreView {
            node_challenges: without(
                s.node_challenges,
                outdated_challenge(s.tenant_id, node_id, now),
            ),
            ..s
        };
        match gate {
            Err(error) => (s, Err(error)),
            Ok(()) => match first(
                cleared.nodes,
                greeted_node(node_id, s.tenant_id, protocol_version, capabilities_json),
            ) {
                None => (cleared, Ok(None)),
                Some(node) => match now {
                    None => (cleared, Err(StoreError::Database(DatabaseFault::ClockBehind))),
                    Some(now_ms) => match exact_sum(now_ms, NODE_CHALLENGE_TTL_MS) {
                        None => (cleared, Err(StoreError::Database(DatabaseFault::OutOfRange))),
                        Some(expires_at_ms) => if any(
                            cleared.node_challenges,
                            challenge_taken(id),
                        ) {
                            (cleared, Err(StoreError::Database(DatabaseFault::DuplicateKey)))
                        } else {
                            let after = StoreView {
                                node_challenges: cleared.node_challenges.push(
                                    cleared.fresh_challenge(
                                        id,
                                        node,
                                        nonce_hash,
                                        capabilities_hash,
                                        now_ms,
                                        expires_at_ms,
                                    ),
                                ),
                                ..cleared
                            };
                            (
                                after,
                                Ok(
                                    match first(
                                        after.node_challenges,
                                        open_challenge(id, after.now(c.later_ms)),
                                    ) {
                                        Some(row) => Some(row.challenge),
                                        None => None,
                                    },
                                ),
                            )
                        },
                    },
                },
            },
        }
    }

    /// Read the challenge of a node that can still be answered.
    pub open spec fn node_challenge(
        self,
        c: ClockReadingView,
        node_id: Seq<char>,
        nonce_hash: Seq<char>,
    ) -> (StoreView, Result<Option<NodeChallengeView>, StoreError>) {
        let (s, gate) = self.checkpoint_clock(c);
        match gate {
            Err(error) => (s, Err(error)),
            Ok(()) => (
                s,
                Ok(
                    match first(
                        s.node_challenges,
                        answerable_challenge(s.tenant_id, node_id, nonce_hash, s.now(c.now_ms)),
                    ) {
                        Some(row) => Some(row.challenge),
                        None => None,
                    },
                ),
            ),
        }
    }

    /// Consume a challenge and open the session that it was answered for, where
    /// the challenge, the node and the epoch are as they were.
    pub open spec fn consume_node_challenge(
        self,
        c: ClockReadingView,
        challenge: NodeChallengeView,
        nonce_hash: Seq<char>,
        session_id: Seq<char>,
        token_hash: Seq<char>,
        expires_at_ms: i64,
    ) -> (StoreView, Result<bool, StoreError>) {
        let (s, gate) = self.checkpoint_clock(c);
        let now = s.now(c.now_ms);
        let hit = answered_challenge(challenge, nonce_hash, now);
        match gate {
            Err(error) => (s, Err(error)),
            Ok(()) => if expires_at_ms <= challenge.created_at_ms || clamped(
                expires_at_ms - challenge.created_at_ms,
            ) > LONGEST_SESSION_MS {
                (s, Err(StoreError::InvalidInput("node session expiry")))
            } else if now is None || s.meta.issuer_epoch != challenge.issuer_epoch || !any(
                s.nodes,
                challenged_node(challenge, s.tenant_id),
            ) || count(s.node_challenges, hit) != 1 {
                (s, Ok(false))
            } else if any(s.node_sessions, node_session_taken(session_id)) {
                (s, Err(StoreError::Database(DatabaseFault::DuplicateKey)))
            } else {
                (
                    StoreView {
                        node_challenges: updated(s.node_challenges, hit, challenge_consumed(now)),
                        node_sessions: s.node_sessions.push(
                            NodeSessionRowView {
                                id: session_id,
                                node_id: challenge.node_id,
                                nonce_hash,
                                token_hash,
                                created_at_ms: now->0,
                                expires_at_ms,
                                revoked_at_ms: None,
                            },
                        ),
                        ..s
                    },
                    Ok(true),
                )
            },
        }
    }

    /// Let a node in by its session, and note that it was seen.
    pub open spec fn authenticate_node_session(
        self,
        c: ClockReadingView,
        session_id: Seq<char>,
        node_id: Seq<char>,
        token_hash: Seq<char>,
        key_version: i64,
        issuer_epoch: i64,
        protocol_version: Seq<char>,
        poll: bool,
    ) -> (StoreView, Result<bool, StoreError>) {
        let (s, gate) = self.checkpoint_clock(c);
        let now = s.now(c.now_ms);
        let hit = bearer_node(
            s.node_sessions,
            s.meta.issuer_epoch == issuer_epoch,
            session_id,
            node_id,
            s.tenant_id,
            token_hash,
            key_version,
            protocol_version,
            now,
        );
        match gate {
            Err(error) => (s, Err(error)),
            Ok(()) => (
                StoreView { nodes: updated(s.nodes, hit, node_seen(poll, now)), ..s },
                Ok(count(s.nodes, hit) == 1),
            ),
        }
    }

    /// Acknowledge delivered documents of a node, then deliver the first ones
    /// that are outstanding.
    pub open spec fn poll_node_inbox(
        self,
        c: ClockReadingView,
        node_id: Seq<char>,
        ack_seq: Option<i64>,
    ) -> (StoreView, Result<Seq<InboxDocumentView>, StoreError>) {
        let (s, gate) = self.checkpoint_clock(c);
        let now = s.now(c.now_ms);
        let acked = match ack_seq {
            Some(seq) => updated(s.node_inbox, acknowledged(node_id, seq), document_acked(now)),
            None => s.node_inbox,
        };
        let documents = inbox_page(acked, node_id);
        match gate {
            Err(error) => (s, Err(error)),
            Ok(()) => (
                StoreView {
                    node_inbox: updated(acked, paged(documents, node_id), document_delivered(now)),
                    ..s
                },
                Ok(documents),
            ),
        }
    }

    /// Record an event of a node, once per key. The same body again is a
    /// duplicate, another one a conflict.
    pub open spec fn record_node_event(
        self,
        c: ClockReadingView,
        id: Seq<char>,
        node_id: Seq<char>,
        idempotency_key: Seq<char>,
        kind: Seq<char>,
        body_json: Seq<char>,
        body_hash: Seq<char>,
    ) -> (StoreView, Result<NodeEventInsert, StoreError>) {
        let (s, gate) = self.checkpoint_clock(c);
        match (gate, s.now(c.now_ms)) {
            (Err(error), _) => (s, Err(error)),
            (Ok(()), None) => (s, Err(StoreError::Database(DatabaseFault::ClockBehind))),
            (Ok(()), Some(now_ms)) => match first(
                s.node_events,
                event_under(node_id, idempotency_key),
            ) {
                Some(row) => (
                    s,
                    Ok(
                        if row.body_hash == body_hash {
                            NodeEventInsert::Duplicate
                        } else {
                            NodeEventInsert::Conflict
                        },
                    ),
                ),
                None => if any(s.node_events, event_taken(id)) {
                    (s, Err(StoreError::Database(DatabaseFault::DuplicateKey)))
                } else {
                    (
                        StoreView {
                            node_events: s.node_events.push(
                                NodeEventRowView {
                                    id,
                                    node_id,
                                    idempotency_key,
                                    kind,
                                    body_json,
                                    body_hash,
                                    received_at_ms: now_ms,
                                },
                            ),
                            ..s
                        },
                        Ok(NodeEventInsert::Inserted),
                    )
                },
            },
        }
    }
}

fn is_greeted(
    row: &NodeRow,
    id: &str,
    tenant_id: &str,
    protocol_version: &str,
    capabilities_json: &str,
) -> (yes: bool)
    ensures
        yes == greeted_node(id@, tenant_id@, protocol_version@, capabilities_json@)(row@),
{
    same(&row.id, id) && same(&row.tenant_id, tenant_id) && same(&row.status, "active") && same(
        &row.protocol_version,
        protocol_version,
    ) && same(&row.capabilities_json, capabilities_json)
}

fn is_answered(row: &ChallengeRow, challenge: &NodeChallenge, nonce_hash: &str, now: Option<i64>) -> (
    yes: bool)
    ensures
        yes == answered_challenge(challenge@, nonce_hash@, now)(row@),
{
    same(&row.challenge.id, &challenge.id) && same(&row.challenge.tenant_id, &challenge.tenant_id)
        && same(&row.challenge.node_id, &challenge.node_id) && same(&row.nonce_hash, nonce_hash)
        && row.challenge.key_version == challenge.key_version && row.challenge.issuer_epoch
        == challenge.issuer_epoch && same(
        &row.challenge.protocol_version,
        &challenge.protocol_version,
    ) && same(&row.challenge.capabilities_json, &challenge.capabilities_json) && same(
        &row.challenge.capabilities_hash,
        &challenge.capabilities_hash,
    ) && row.consumed_at_ms.is_none() && is_unexpired(row.challenge.expires_at_ms, now)
}

impl Store {
    /// Make a challenge under an identifier for an active node whose stored
    /// protocol and capabilities are exactly those of the handshake.
    pub fn issue_node_challenge(
        &mut self,
        reading: &ClockReading,
        id: &str,
        node_id: &str,
        nonce_hash: &str,
        protocol_version: &str,
        capabilities_json: &str,
        capabilities_hash: &str,
    ) -> (reply: Result<Option<NodeChallenge>, StoreError>)
        ensures
            (final(self)@, answer_option(reply)) == old(self)@.issue_node_challenge(
                reading@,
                id@,
                node_id@,
                nonce_hash@,
                protocol_version@,
                capabilities_json@,
                capabilities_hash@,
            ),
    {
        if let Err(error) = self.checkpoint_clock(reading) {
            return Err(error);
        }
        let now = self.now(reading.now_ms);
        let tenant_id = &self.tenant_id;
        remove_rows(
            &mut self.node_challenges,
            |row: &ChallengeRow| -> (b: bool)
                ensures b == outdated_challenge(tenant_id@, node_id@, now)(row@)
                {
                    let lapsed = match now {
                        Some(now_ms) => row.challenge.expires_at_ms <= now_ms,
                        None => false,
                    };
                    lapsed || row.consumed_at_ms.is_some() || (same(
                        &row.challenge.tenant_id,
                        tenant_id,
                    ) && same(&row.challenge.node_id, node_id))
                },
            Ghost(outdated_challenge(tenant_id@, node_id@, now)),
        );
        let ghost hit = greeted_node(
            node_id@,
            tenant_id@,
            protocol_version@,
            capabilities_json@,
        );
        let found = find_row(
            &self.nodes,
            |row: &NodeRow| -> (b: bool)
                ensures b == hit(row@)
                { is_greeted(row, node_id, tenant_id, protocol_version, capabilities_json) },
            Ghost(hit),
        );
        let at: usize = match found {
            Some(at) => at,
            None => {
                return Ok(None);
            },
        };
        let now_ms: i64 = match now {
            Some(now_ms) => now_ms,
            None => {
                return Err(StoreError::Database(DatabaseFault::ClockBehind));
            },
        };
        let expires_at_ms: i64 = match now_ms.checked_add(NODE_CHALLENGE_TTL_MS) {
            Some(at_ms) => at_ms,
            None => {
                return Err(StoreError::Database(DatabaseFault::OutOfRange));
            },
        };
        let taken = any_row(
            &self.node_challenges,
            |row: &ChallengeRow| -> (b: bool)
                ensures b == challenge_taken(id@)(row@)
                { same(&row.challenge.id, id) },
            Ghost(challenge_taken(id@)),
        );
        if taken {
            return Err(StoreError::Database(DatabaseFault::DuplicateKey));
        }
        let node = &self.nodes[at];
        let row = ChallengeRow {
            nonce_hash: nonce_hash.to_owned(),
            consumed_at_ms: None,
            challenge: NodeChallenge {
                id: id.to_owned(),
                tenant_id: node.tenant_id.clone(),
                node_id: node.id.clone(),
                key_version: node.key_version,
                issuer_epoch: self.meta.issuer_epoch,
                protocol_version: node.protocol_version.clone(),
                capabilities_json: node.capabilities_json.clone(),
                capabilities_hash: capabilities_hash.to_owned(),
                created_at_ms: now_ms,
                expires_at_ms,
            },
        };
        push_row(&mut self.node_challenges, row);
        let later = self.now(reading.later_ms);
        let made = find_row(
            &self.node_challenges,
            |row: &ChallengeRow| -> (b: bool)
                ensures b == open_challenge(id@, later)(row@)
                {
                    same(&row.challenge.id, id) && is_unexpired(
                        row.challenge.expires_at_ms,
                        later,
                    )
                },
            Ghost(open_challenge(id@, later)),
        );
        match made {
            Some(at) => Ok(Some(self.node_challenges[at].challenge.duplicate())),
            None => Ok(None),
        }
    }

    /// Make a challenge under a fresh identifier for an active node whose stored
    /// protocol and capabilities are exactly those of the handshake.
    pub fn create_node_challenge(
        &mut self,
        reading: &ClockReading,
        node_id: &str,
        nonce_hash: &str,
        protocol_version: &str,
        capabilities_json: &str,
        capabilities_hash: &str,
    ) -> (reply: Result<Option<NodeChallenge>, StoreError>)
        ensures
            exists|uuid: Seq<char>| #[trigger] is_uuid(uuid) && (final(self)@, answer_option(reply))
                == old(self)@.issue_node_challenge(
                reading@,
                challenge_id(uuid),
                node_id@,
                nonce_hash@,
                protocol_version@,
                capabilities_json@,
                capabilities_hash@,
            ),
    {
        let uuid = new_uuid();
        let mut id = "ch_".to_owned();
        id.append(&uuid);
        self.issue_node_challenge(
            reading,
            &id,
            node_id,
            nonce_hash,
            protocol_version,
            capabilities_json,
            capabilities_hash,
        )
    }

    /// Read the challenge of a node that can still be answered.
    pub fn node_challenge(&mut self, reading: &ClockReading, node_id: &str, nonce_hash: &str) -> (
        reply: Result<Option<NodeChallenge>, StoreError>)
        ensures
            (final(self)@, answer_option(reply)) == old(self)@.node_challenge(
                reading@,
                node_id@,
                nonce_hash@,
            ),
    {
        if let Err(error) = self.checkpoint_clock(reading) {
            return Err(error);
        }
        let now = self.now(reading.now_ms);
        let tenant_id = &self.tenant_id;
        let found = find_row(
            &self.node_challenges,
            |row: &ChallengeRow| -> (b: bool)
                ensures b == answerable_challenge(tenant_id@, node_id@, nonce_hash@, now)(row@)
                {
                    same(&row.challenge.tenant_id, tenant_id) && same(
                        &row.challenge.node_id,
                        node_id,
                    ) && same(&row.nonce_hash, nonce_hash) && row.consumed_at_ms.is_none()
                        && is_unexpired(row.challenge.expires_at_ms, now)
                },
            Ghost(answerable_challenge(tenant_id@, node_id@, nonce_hash@, now)),
        );
        match found {
            Some(at) => Ok(Some(self.node_challenges[at].challenge.duplicate())),
            None => Ok(None),
        }
    }

    /// Consume an answered challenge and open its session together. A second
    /// answer finds nothing and opens none.
    pub fn consume_node_challenge(
        &mut self,
        reading: &ClockReading,
        challenge: &NodeChallenge,
        nonce_hash: &str,
        session_id: &str,
        token_hash: &str,
        expires_at_ms: i64,
    ) -> (reply: Result<bool, StoreError>)
        ensures
            (final(self)@, reply) == old(self)@.consume_node_challenge(
                reading@,
                challenge@,
                nonce_hash@,
                session_id@,
                token_hash@,
                expires_at_ms,
            ),
    {
        if let Err(error) = self.checkpoint_clock(reading) {
            return Err(error);
        }
        if expires_at_ms <= challenge.created_at_ms || saturated_difference(
            expires_at_ms,
            challenge.created_at_ms,
        ) > LONGEST_SESSION_MS {
            return Err(StoreError::InvalidInput("node session expiry"));
        }
        let now = self.now(reading.now_ms);
        let now_ms: i64 = match now {
            Some(now_ms) => now_ms,
            None => {
                return Ok(false);
            },
        };
        let tenant_id = &self.tenant_id;
        let active = any_row(
            &self.nodes,
            |row: &NodeRow| -> (b: bool)
                ensures b == challenged_node(challenge@, tenant_id@)(row@)
                {
                    is_greeted(
                        row,
                        &challenge.node_id,
                        tenant_id,
                        &challenge.protocol_version,
                        &challenge.capabilities_json,
                    ) && row.key_version == challenge.key_version
                },
            Ghost(challenged_node(challenge@, tenant_id@)),
        );
        if self.meta.issuer_epoch != challenge.issuer_epoch || !active {
            return Ok(false);
        }
        let mut transaction = self.duplicate();
        let consumed: usize = update_rows(
            &mut transaction.node_challenges,
            |row: &ChallengeRow| -> (b: bool)
                ensures b == answered_challenge(challenge@, nonce_hash@, now)(row@)
                { is_answered(row, challenge, nonce_hash, now) },
            |row: &ChallengeRow| -> (next: ChallengeRow)
                ensures next@ == challenge_consumed(now)(row@)
                {
                    let mut next = row.duplicate();
                    next.consumed_at_ms = now;
                    next
                },
            Ghost(answered_challenge(challenge@, nonce_hash@, now)),
            Ghost(challenge_consumed(now)),
        );
        if consumed != 1 {
            return Ok(false);
        }
        let taken = any_row(
            &transaction.node_sessions,
            |row: &NodeSessionRow| -> (b: bool)
                ensures b == node_session_taken(session_id@)(row@)
                { same(&row.id, session_id) },
            Ghost(node_session_taken(session_id@)),
        );
        if taken {
            return Err(StoreError::Database(DatabaseFault::DuplicateKey));
        }
        let session = NodeSessionRow {
            id: session_id.to_owned(),
            node_id: challenge.node_id.clone(),
            nonce_hash: nonce_hash.to_owned(),
            token_hash: token_hash.to_owned(),
            created_at_ms: now_ms,
            expires_at_ms,
            revoked_at_ms: None,
        };
        push_row(&mut transaction.node_sessions, session);
        *self = transaction;
        Ok(true)
    }

    /// Let a node in by its session and its token, and note that it was seen.
    pub fn authenticate_node_session(
        &mut self,
        reading: &ClockReading,
        session_id: &str,
        node_id: &str,
        token_hash: &str,
        key_version: i64,
        issuer_epoch: i64,
        protocol_version: &str,
        poll: bool,
    ) -> (reply: Result<bool, StoreError>)
        ensures
            (final(self)@, reply) == old(self)@.authenticate_node_session(
                reading@,
                session_id@,
                node_id@,
                token_hash@,
                key_version,
                issuer_epoch,
                protocol_version@,
                poll,
            ),
    {
        if let Err(error) = self.checkpoint_clock(reading) {
            return Err(error);
        }
        let now = self.now(reading.now_ms);
        let epoch_current = self.meta.issuer_epoch == issuer_epoch;
        let tenant_id = &self.tenant_id;
        let sessions = &self.node_sessions;
        let ghost hit = bearer_node(
            rows_view(sessions@),
            epoch_current,
            session_id@,
            node_id@,
            tenant_id@,
            token_hash@,
            key_version,
            protocol_version@,
            now,
        );
        let seen: usize = update_rows(
            &mut self.nodes,
            |row: &NodeRow| -> (b: bool)
                ensures b == hit(row@)
                {
                    let id = &row.id;
                    same(&row.id, node_id) && same(&row.tenant_id, tenant_id) && same(
                        &row.status,
                        "active",
                    ) && row.key_version == key_version && same(
                        &row.protocol_version,
                        protocol_version,
                    ) && epoch_current && any_row(
                        sessions,
                        |session: &NodeSessionRow| -> (open: bool)
                            ensures open == bearer_session(session_id@, id@, token_hash@, now)(session@)
                            {
                                same(&session.id, session_id) && same(&session.node_id, id) && same(
                                    &session.token_hash,
                                    token_hash,
                                ) && session.revoked_at_ms.is_none() && is_unexpired(
                                    session.expires_at_ms,
                                    now,
                                )
                            },
                        Ghost(bearer_session(session_id@, id@, token_hash@, now)),
                    )
                },
            |row: &NodeRow| -> (next: NodeRow)
                ensures next@ == node_seen(poll, now)(row@)
                {
                    let mut next = row.duplicate();
                    next.last_seen_at_ms = now;
                    if poll {
                        next.last_poll_at_ms = now;
                    }
                    next
                },
            Ghost(hit),
            Ghost(node_seen(poll, now)),
        );
        Ok(seen == 1)
    }

    fn outstanding_page(&self, node_id: &str) -> (documents: Vec<InboxDocument>)
        ensures
            rows_view(documents@) == inbox_page(self@.node_inbox, node_id@),
    {
        let found = select_rows(
            &self.node_inbox,
            |row: &InboxRow| -> (b: bool)
                ensures b == outstanding(node_id@)(row@)
                { same(&row.node_id, node_id) && row.acked_at_ms.is_none() },
            |row: &InboxRow| -> (document: InboxDocument)
                ensures document@ == inbox_document()(row@)
                { InboxDocument { seq: row.seq, envelope_json: row.envelope_json.clone() } },
            Ghost(outstanding(node_id@)),
            Ghost(inbox_document()),
        );
        let sorted = order_rows(
            found,
            |a: &InboxDocument, b: &InboxDocument| -> (less: bool)
                ensures less == sequence_order()(a@, b@)
                { a.seq < b.seq },
            Ghost(sequence_order()),
        );
        page_rows(sorted, INBOX_PAGE)
    }

    /// Acknowledge documents that were delivered before, then deliver at most
    /// fifty outstanding ones in their order.
    pub fn poll_node_inbox(&mut self, reading: &ClockReading, node_id: &str, ack_seq: Option<i64>) -> (
        reply: Result<Vec<InboxDocument>, StoreError>)
        ensures
            (final(self)@, answer_rows(reply)) == old(self)@.poll_node_inbox(
                reading@,
                node_id@,
                ack_seq,
            ),
    {
        if let Err(error) = self.checkpoint_clock(reading) {
            return Err(error);
        }
        let now = self.now(reading.now_ms);
        if let Some(seq) = ack_seq {
            update_rows(
                &mut self.node_inbox,
                |row: &InboxRow| -> (b: bool)
                    ensures b == acknowledged(node_id@, seq)(row@)
                    {
                        same(&row.node_id, node_id) && row.seq <= seq
                            && row.delivered_at_ms.is_some() && row.acked_at_ms.is_none()
                    },
                |row: &InboxRow| -> (next: InboxRow)
                    ensures next@ == document_acked(now)(row@)
                    {
                        let mut next = row.duplicate();
                        next.acked_at_ms = now;
                        next
                    },
                Ghost(acknowledged(node_id@, seq)),
                Ghost(document_acked(now)),
            );
        }
        let documents = self.outstanding_page(node_id);
        let ghost dv = rows_view(documents@);
        update_rows(
            &mut self.node_inbox,
            |row: &InboxRow| -> (b: bool)
                ensures b == paged(dv, node_id@)(row@)
                {
                    let seq: i64 = row.seq;
                    let ghost with_seq = |document: InboxDocumentView| document.seq == seq;
                    same(&row.node_id, node_id) && row.acked_at_ms.is_none() && any_row(
                        &documents,
                        |document: &InboxDocument| -> (b: bool)
                            ensures b == with_seq(document@)
                            { document.seq == seq },
                        Ghost(with_seq),
                    )
                },
            |row: &InboxRow| -> (next: InboxRow)
                ensures next@ == document_delivered(now)(row@)
                {
                    let mut next = row.duplicate();
                    if next.delivered_at_ms.is_none() {
                        next.delivered_at_ms = now;
                    }
                    next
                },
            Ghost(paged(dv, node_id@)),
            Ghost(document_delivered(now)),
        );
        Ok(documents)
    }

    /// Record an event of a node, once per key.
    pub fn record_node_event(
        &mut self,
        reading: &ClockReading,
        id: &str,
        node_id: &str,
        idempotency_key: &str,
        kind: &str,
        body_json: &str,
        body_hash: &str,
    ) -> (reply: Result<NodeEventInsert, StoreError>)
        ensures
            (final(self)@, reply) == old(self)@.record_node_event(
                reading@,
                id@,
                node_id@,
                idempotency_key@,
                kind@,
                body_json@,
                body_hash@,
            ),
    {
        if let Err(error) = self.checkpoint_clock(reading) {
            return Err(error);
        }
        let now_ms: i64 = match self.now(reading.now_ms) {
            Some(now_ms) => now_ms,
            None => {
                return Err(StoreError::Database(DatabaseFault::ClockBehind));
            },
        };
        let known = find_row(
            &self.node_events,
            |row: &NodeEventRow| -> (b: bool)
                ensures b == event_under(node_id@, idempotency_key@)(row@)
                { same(&row.node_id, node_id) && same(&row.idempotency_key, idempotency_key) },
            Ghost(event_under(node_id@, idempotency_key@)),
        );
        if let Some(at) = known {
            return Ok(
                if same(&self.node_events[at].body_hash, body_hash) {
                    NodeEventInsert::Duplicate
                } else {
                    NodeEventInsert::Conflict
                },
            );
        }
        let taken = any_row(
            &self.node_events,
            |row: &NodeEventRow| -> (b: bool)
                ensures b == event_taken(id@)(row@)
                { same(&row.id, id) },
            Ghost(event_taken(id@)),
        );
        if taken {
            return Err(StoreError::Database(DatabaseFault::DuplicateKey));
        }
        let event = NodeEventRow {
            id: id.to_owned(),
            node_id: node_id.to_owned(),
            idempotency_key: idempotency_key.to_owned(),
            kind: kind.to_owned(),
            body_json: body_json.to_owned(),
            body_hash: body_hash.to_owned(),
            received_at_ms: now_ms,
        };
        push_row(&mut self.node_events, event);
        Ok(NodeEventInsert::Inserted)
    }
}

} // verus!
