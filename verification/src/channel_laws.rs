//! What each step of the channel between a node and the controller does, by what the
//! node, its challenge and its session say.

use crate::clock::ClockReadingView;
use crate::error::{DatabaseFault, StoreError};
use crate::keys::{challenge_row_id, node_id, node_session_id};
use crate::listing_laws::{lemma_page_shows, shows_rows};
use crate::moment_laws::{
    lemma_runs, mark, runs, the_checkpoint_passes_exactly_for_a_trusted_reading,
};
use crate::node_channel::{
    acknowledged, answerable_challenge, answered_challenge, bearer_node, bearer_session,
    challenge_taken, challenged_node, event_taken, event_under, greeted_node, inbox_document,
    inbox_page, node_session_taken, open_challenge, outdated_challenge, outstanding, paged,
    sequence_order,
};
use crate::records::{InboxDocumentView, NodeChallengeView, NodeEventInsert};
use crate::relation::{any, first, updated};
use crate::relation_laws::{
    lemma_at_most_one, lemma_first_satisfies, lemma_none, lemma_push_found, lemma_sole, unique,
};
use crate::store::StoreView;
use crate::tables::{
    ChallengeRowView, InboxRowView, NodeEventRowView, NodeRowView, NodeSessionRowView,
};
use vstd::prelude::*;

verus! {

/// The challenges that stay when a node asks for one: those that are neither answered
/// nor past their deadline, of other nodes.
pub open spec fn other_challenges(state: StoreView, node: Seq<char>, now_ms: i64) -> Seq<
    ChallengeRowView,
> {
    state.node_challenges.filter(
        |row: ChallengeRowView|
            row.challenge.expires_at_ms > now_ms && row.consumed_at_ms is None && !(
            row.challenge.tenant_id == state.tenant_id && row.challenge.node_id == node),
    )
}

proof fn lemma_other_challenges(state: StoreView, node: Seq<char>, now_ms: i64)
    ensures
        crate::relation::without(
            state.node_challenges,
            outdated_challenge(state.tenant_id, node, Some(now_ms)),
        ) == other_challenges(state, node, now_ms),
{
    let hit = outdated_challenge(state.tenant_id, node, Some(now_ms));
    assert((|row: ChallengeRowView| !hit(row)) =~= (|row: ChallengeRowView|
        row.challenge.expires_at_ms > now_ms && row.consumed_at_ms is None && !(
        row.challenge.tenant_id == state.tenant_id && row.challenge.node_id == node)));
}

/// An active node that greets with its protocol and its capabilities gets a challenge
/// for its current key in the current epoch, for a minute from now. Every other
/// challenge of the node goes, and so does what is answered or past its deadline. Where
/// it greets otherwise there is no challenge.
pub proof fn a_node_that_greets_rightly_is_challenged_for_a_minute(
    state: StoreView,
    c: ClockReadingView,
    id: Seq<char>,
    node: Seq<char>,
    nonce_hash: Seq<char>,
    protocol: Seq<char>,
    capabilities: Seq<char>,
    capabilities_hash: Seq<char>,
    i: int,
)
    requires
        unique(state.nodes, node_id()),
        runs(state, c),
        c.later_ms >= mark(state, c),
        0 <= i < state.nodes.len(),
        state.nodes[i].id == node,
    ensures
        ({
            let s = state.checkpoint_clock(c).0;
            let row = state.nodes[i];
            let kept = other_challenges(state, node, c.now_ms);
            let (after, reply) = state.issue_node_challenge(
                c,
                id,
                node,
                nonce_hash,
                protocol,
                capabilities,
                capabilities_hash,
            );
            let challenge = NodeChallengeView {
                id,
                tenant_id: state.tenant_id,
                node_id: node,
                key_version: row.key_version,
                issuer_epoch: state.meta.issuer_epoch,
                protocol_version: protocol,
                capabilities_json: capabilities,
                capabilities_hash,
                created_at_ms: c.now_ms,
                expires_at_ms: (c.now_ms + 60_000) as i64,
            };
            if row.tenant_id != state.tenant_id || row.status != "active"@ || row.protocol_version
                != protocol || row.capabilities_json != capabilities {
                after == (StoreView { node_challenges: kept, ..s }) && reply
                    == Ok::<Option<NodeChallengeView>, StoreError>(None)
            } else if c.now_ms + 60_000 > i64::MAX || exists|q: int|
                0 <= q < kept.len() && (#[trigger] kept[q]).challenge.id == id {
                after == (StoreView { node_challenges: kept, ..s }) && reply is Err
            } else {
                &&& after == (StoreView {
                    node_challenges: kept.push(
                        ChallengeRowView { nonce_hash, consumed_at_ms: None, challenge },
                    ),
                    ..s
                })
                &&& reply == Ok::<Option<NodeChallengeView>, StoreError>(
                    if c.now_ms + 60_000 > c.later_ms {
                        Some(challenge)
                    } else {
                        None
                    },
                )
            }
        }),
{
    lemma_runs(state, c);
    the_checkpoint_passes_exactly_for_a_trusted_reading(state, c);
    lemma_other_challenges(state, node, c.now_ms);
    lemma_sole(
        state.nodes,
        node_id(),
        greeted_node(node, state.tenant_id, protocol, capabilities),
        i,
    );
    let kept = other_challenges(state, node, c.now_ms);
    assert({
        let taken = challenge_taken(id);
        any(kept, taken) == (exists|q: int|
            0 <= q < kept.len() && (#[trigger] kept[q]).challenge.id == id)
    }) by {
        let taken = challenge_taken(id);
        if exists|q: int| 0 <= q < kept.len() && (#[trigger] kept[q]).challenge.id == id {
            let q = choose|q: int| 0 <= q < kept.len() && (#[trigger] kept[q]).challenge.id == id;
            assert(taken(kept[q]));
        }
        if any(kept, taken) {
            let q = choose|q: int| 0 <= q < kept.len() && taken(#[trigger] kept[q]);
            assert(kept[q].challenge.id == id);
        }
    };
    if !any(kept, challenge_taken(id)) {
        let open = open_challenge(id, Some(c.later_ms));
        assert forall|q: int| 0 <= q < kept.len() implies !open(#[trigger] kept[q]) by {
            assert(!challenge_taken(id)(kept[q]));
        }
        lemma_none(kept, open);
        let fresh = ChallengeRowView {
            nonce_hash,
            consumed_at_ms: None,
            challenge: NodeChallengeView {
                id,
                tenant_id: state.tenant_id,
                node_id: node,
                key_version: state.nodes[i].key_version,
                issuer_epoch: state.meta.issuer_epoch,
                protocol_version: protocol,
                capabilities_json: capabilities,
                capabilities_hash,
                created_at_ms: c.now_ms,
                expires_at_ms: (c.now_ms + 60_000) as i64,
            },
        };
        lemma_push_found(kept, fresh, open);
        if !open(fresh) {
            let grown = kept.push(fresh);
            assert forall|q: int| 0 <= q < grown.len() implies !open(#[trigger] grown[q]) by {
                if q < kept.len() {
                    assert(grown[q] == kept[q]);
                }
            }
            lemma_none(grown, open);
        }
    }
}

/// Nobody is challenged under an identifier that no node has.
pub proof fn an_absent_node_is_not_challenged(
    state: StoreView,
    c: ClockReadingView,
    id: Seq<char>,
    node: Seq<char>,
    nonce_hash: Seq<char>,
    protocol: Seq<char>,
    capabilities: Seq<char>,
    capabilities_hash: Seq<char>,
)
    requires
        runs(state, c),
        forall|q: int| 0 <= q < state.nodes.len() ==> (#[trigger] state.nodes[q]).id != node,
    ensures
        state.issue_node_challenge(
            c,
            id,
            node,
            nonce_hash,
            protocol,
            capabilities,
            capabilities_hash,
        ) == (
            StoreView {
                node_challenges: other_challenges(state, node, c.now_ms),
                ..state.checkpoint_clock(c).0
            },
            Ok::<Option<NodeChallengeView>, StoreError>(None),
        ),
{
    lemma_runs(state, c);
    lemma_other_challenges(state, node, c.now_ms);
    lemma_none(state.nodes, greeted_node(node, state.tenant_id, protocol, capabilities));
}

/// Whether a challenge can be answered: it is one of the tenant to the node under the
/// nonce, it was not answered, and its deadline is ahead.
pub open spec fn can_be_answered(
    state: StoreView,
    row: ChallengeRowView,
    node: Seq<char>,
    nonce_hash: Seq<char>,
    now_ms: i64,
) -> bool {
    row.challenge.tenant_id == state.tenant_id && row.challenge.node_id == node && row.nonce_hash
        == nonce_hash && row.consumed_at_ms is None && row.challenge.expires_at_ms > now_ms
}

/// A challenge is read exactly where one can be answered, and what is read is such a
/// one. Reading it changes nothing.
pub proof fn a_challenge_that_can_be_answered_is_read(
    state: StoreView,
    c: ClockReadingView,
    node: Seq<char>,
    nonce_hash: Seq<char>,
)
    requires
        runs(state, c),
    ensures
        ({
            let (after, reply) = state.node_challenge(c, node, nonce_hash);
            let rows = state.node_challenges;
            &&& after == state.checkpoint_clock(c).0
            &&& reply is Ok
            &&& match reply->Ok_0 {
                None => forall|q: int|
                    0 <= q < rows.len() ==> !can_be_answered(
                        state,
                        #[trigger] rows[q],
                        node,
                        nonce_hash,
                        c.now_ms,
                    ),
                Some(challenge) => exists|q: int|
                    0 <= q < rows.len() && (#[trigger] rows[q]).challenge == challenge
                        && can_be_answered(state, rows[q], node, nonce_hash, c.now_ms),
            }
        }),
{
    lemma_runs(state, c);
    let rows = state.node_challenges;
    let hit = answerable_challenge(state.tenant_id, node, nonce_hash, Some(c.now_ms));
    lemma_first_satisfies(rows, hit);
    if first(rows, hit) is Some {
        let row = first(rows, hit)->0;
        let q = choose|q: int| 0 <= q < rows.len() && rows[q] == row;
        assert(can_be_answered(state, rows[q], node, nonce_hash, c.now_ms));
    } else {
        assert forall|q: int| 0 <= q < rows.len() implies !can_be_answered(
            state,
            #[trigger] rows[q],
            node,
            nonce_hash,
            c.now_ms,
        ) by {
            if can_be_answered(state, rows[q], node, nonce_hash, c.now_ms) {
                assert(hit(rows[q]));
                assert(any(rows, hit));
            }
        }
    }
}

/// A challenge is answered once, before its deadline, under its nonce, for the key, the
/// epoch, the protocol and the capabilities that it was issued for, while its node is
/// active with them. It is then answered, and a session is open for its node, for no
/// longer than sixteen minutes from the challenge. In every other case nothing changes.
#[verifier::rlimit(30)]
pub proof fn an_answered_challenge_opens_a_session_for_its_node(
    state: StoreView,
    c: ClockReadingView,
    challenge: NodeChallengeView,
    nonce_hash: Seq<char>,
    session: Seq<char>,
    token_hash: Seq<char>,
    expires_at_ms: i64,
    i: int,
    j: int,
)
    requires
        unique(state.nodes, node_id()),
        unique(state.node_challenges, challenge_row_id()),
        runs(state, c),
        0 <= i < state.nodes.len(),
        state.nodes[i].id == challenge.node_id,
        0 <= j < state.node_challenges.len(),
        state.node_challenges[j].challenge.id == challenge.id,
    ensures
        ({
            let s = state.checkpoint_clock(c).0;
            let node = state.nodes[i];
            let row = state.node_challenges[j];
            let stored = row.challenge;
            let (after, reply) = state.consume_node_challenge(
                c,
                challenge,
                nonce_hash,
                session,
                token_hash,
                expires_at_ms,
            );
            let answers = stored.tenant_id == challenge.tenant_id && stored.node_id
                == challenge.node_id && row.nonce_hash == nonce_hash && stored.key_version
                == challenge.key_version && stored.issuer_epoch == challenge.issuer_epoch
                && stored.protocol_version == challenge.protocol_version
                && stored.capabilities_json == challenge.capabilities_json
                && stored.capabilities_hash == challenge.capabilities_hash && row.consumed_at_ms
                is None && stored.expires_at_ms > c.now_ms;
            let able = node.tenant_id == state.tenant_id && node.status == "active"@
                && node.protocol_version == challenge.protocol_version && node.capabilities_json
                == challenge.capabilities_json && node.key_version == challenge.key_version;
            if expires_at_ms <= challenge.created_at_ms || expires_at_ms - challenge.created_at_ms
                > 960_000 {
                after == s
                    && reply == Err::<bool, StoreError>(
                        StoreError::InvalidInput("node session expiry"),
                    )
            } else if !answers || !able || challenge.issuer_epoch != state.meta.issuer_epoch {
                after == s && reply == Ok::<bool, StoreError>(false)
            } else if exists|q: int|
                0 <= q < state.node_sessions.len()
                    && (#[trigger] state.node_sessions[q]).id == session {
                after == s && reply == Err::<bool, StoreError>(
                    StoreError::Database(DatabaseFault::DuplicateKey),
                )
            } else {
                &&& after == (StoreView {
                    node_challenges: state.node_challenges.update(
                        j,
                        ChallengeRowView { consumed_at_ms: Some(c.now_ms), ..row },
                    ),
                    node_sessions: state.node_sessions.push(
                        NodeSessionRowView {
                            id: session,
                            node_id: challenge.node_id,
                            nonce_hash,
                            token_hash,
                            created_at_ms: c.now_ms,
                            expires_at_ms,
                            revoked_at_ms: None,
                        },
                    ),
                    ..s
                })
                &&& reply == Ok::<bool, StoreError>(true)
            }
        }),
{
    lemma_runs(state, c);
    lemma_sole(state.nodes, node_id(), challenged_node(challenge, state.tenant_id), i);
    lemma_sole(
        state.node_challenges,
        challenge_row_id(),
        answered_challenge(challenge, nonce_hash, Some(c.now_ms)),
        j,
    );
    assert({
        let taken = node_session_taken(session);
        any(state.node_sessions, taken) == (exists|q: int|
            0 <= q < state.node_sessions.len() && (#[trigger] state.node_sessions[q]).id == session)
    }) by {
        let taken = node_session_taken(session);
        if exists|q: int|
            0 <= q < state.node_sessions.len()
                && (#[trigger] state.node_sessions[q]).id == session {
            let q = choose|q: int|
                0 <= q < state.node_sessions.len()
                    && (#[trigger] state.node_sessions[q]).id == session;
            assert(taken(state.node_sessions[q]));
        }
        if any(state.node_sessions, taken) {
            let q = choose|q: int|
                0 <= q < state.node_sessions.len() && taken(#[trigger] state.node_sessions[q]);
            assert(state.node_sessions[q].id == session);
        }
    };
}

/// A challenge that is not stored, or of a node that is not, is not answered.
pub proof fn an_absent_challenge_is_not_answered(
    state: StoreView,
    c: ClockReadingView,
    challenge: NodeChallengeView,
    nonce_hash: Seq<char>,
    session: Seq<char>,
    token_hash: Seq<char>,
    expires_at_ms: i64,
)
    requires
        runs(state, c),
        (forall|q: int|
            0 <= q < state.nodes.len() ==> (#[trigger] state.nodes[q]).id != challenge.node_id)
                || (forall|q: int|
                0 <= q < state.node_challenges.len()
                    ==> (#[trigger] state.node_challenges[q]).challenge.id != challenge.id),
        0 < expires_at_ms - challenge.created_at_ms <= 960_000,
    ensures
        state.consume_node_challenge(c, challenge, nonce_hash, session, token_hash, expires_at_ms)
            == (state.checkpoint_clock(c).0, Ok::<bool, StoreError>(false)),
{
    lemma_runs(state, c);
    if forall|q: int|
        0 <= q < state.nodes.len() ==> (#[trigger] state.nodes[q]).id != challenge.node_id {
        lemma_none(state.nodes, challenged_node(challenge, state.tenant_id));
    } else {
        lemma_none(
            state.node_challenges,
            answered_challenge(challenge, nonce_hash, Some(c.now_ms)),
        );
    }
}

/// A node is authenticated exactly where it is an active node of the tenant with the
/// key, the epoch and the protocol that it claims, and its session is its own, has the
/// token, was not revoked and has its deadline ahead. The node is then seen now, and
/// polled now where it polls; otherwise nothing changes.
pub proof fn a_node_is_authenticated_by_its_open_session(
    state: StoreView,
    c: ClockReadingView,
    session: Seq<char>,
    node: Seq<char>,
    token_hash: Seq<char>,
    key_version: i64,
    epoch: i64,
    protocol: Seq<char>,
    poll: bool,
    i: int,
    j: int,
)
    requires
        unique(state.nodes, node_id()),
        unique(state.node_sessions, node_session_id()),
        runs(state, c),
        0 <= i < state.nodes.len(),
        state.nodes[i].id == node,
        0 <= j < state.node_sessions.len(),
        state.node_sessions[j].id == session,
    ensures
        ({
            let s = state.checkpoint_clock(c).0;
            let row = state.nodes[i];
            let open = state.node_sessions[j];
            let good = row.tenant_id == state.tenant_id && row.status == "active"@
                && row.key_version == key_version && row.protocol_version == protocol
                && state.meta.issuer_epoch == epoch && open.node_id == node && open.token_hash
                == token_hash && open.revoked_at_ms is None && open.expires_at_ms > c.now_ms;
            state.authenticate_node_session(
                c,
                session,
                node,
                token_hash,
                key_version,
                epoch,
                protocol,
                poll,
            ) == if !good {
                (s, Ok::<bool, StoreError>(false))
            } else {
                (
                    StoreView {
                        nodes: state.nodes.update(
                            i,
                            NodeRowView {
                                last_seen_at_ms: Some(c.now_ms),
                                last_poll_at_ms: if poll {
                                    Some(c.now_ms)
                                } else {
                                    row.last_poll_at_ms
                                },
                                ..row
                            },
                        ),
                        ..s
                    },
                    Ok::<bool, StoreError>(true),
                )
            }
        }),
{
    lemma_runs(state, c);
    let now = Some(c.now_ms);
    lemma_sole(
        state.node_sessions,
        node_session_id(),
        bearer_session(session, node, token_hash, now),
        j,
    );
    lemma_sole(
        state.nodes,
        node_id(),
        bearer_node(
            state.node_sessions,
            state.meta.issuer_epoch == epoch,
            session,
            node,
            state.tenant_id,
            token_hash,
            key_version,
            protocol,
            now,
        ),
        i,
    );
}

/// Without a stored node, or a stored session, nobody is authenticated.
pub proof fn nobody_is_authenticated_without_a_session(
    state: StoreView,
    c: ClockReadingView,
    session: Seq<char>,
    node: Seq<char>,
    token_hash: Seq<char>,
    key_version: i64,
    epoch: i64,
    protocol: Seq<char>,
    poll: bool,
)
    requires
        runs(state, c),
        (forall|q: int|
            0 <= q < state.nodes.len() ==> (#[trigger] state.nodes[q]).id != node)
                || (forall|q: int|
                0 <= q < state.node_sessions.len()
                    ==> (#[trigger] state.node_sessions[q]).id != session),
    ensures
        state.authenticate_node_session(
            c,
            session,
            node,
            token_hash,
            key_version,
            epoch,
            protocol,
            poll,
        ) == (state.checkpoint_clock(c).0, Ok::<bool, StoreError>(false)),
{
    lemma_runs(state, c);
    let now = Some(c.now_ms);
    let hit = bearer_node(
        state.node_sessions,
        state.meta.issuer_epoch == epoch,
        session,
        node,
        state.tenant_id,
        token_hash,
        key_version,
        protocol,
        now,
    );
    if forall|q: int|
        0 <= q < state.node_sessions.len() ==> (#[trigger] state.node_sessions[q]).id != session {
        assert forall|q: int|
            0 <= q < state.nodes.len() implies !hit(#[trigger] state.nodes[q]) by {
            lemma_none(
                state.node_sessions,
                bearer_session(session, state.nodes[q].id, token_hash, now),
            );
        }
    }
    lemma_none(state.nodes, hit);
}

/// What the inbox holds once a node acknowledged what was delivered to it up to a
/// number.
pub open spec fn acknowledged_up_to(
    inbox: Seq<InboxRowView>,
    node: Seq<char>,
    ack_seq: Option<i64>,
    now_ms: i64,
) -> Seq<InboxRowView> {
    Seq::new(
        inbox.len(),
        |j: int|
            if ack_seq is Some && inbox[j].node_id == node && inbox[j].seq <= ack_seq->0
                && inbox[j].delivered_at_ms is Some && inbox[j].acked_at_ms is None {
                InboxRowView { acked_at_ms: Some(now_ms), ..inbox[j] }
            } else {
                inbox[j]
            },
    )
}

/// A poll acknowledges what was delivered to the node up to the number, and hands out
/// what is still to be acknowledged by it: the lowest fifty numbers, in order. What is
/// handed out is delivered now, where it was not before. Nothing else changes.
pub proof fn a_poll_hands_out_what_is_not_acknowledged(
    state: StoreView,
    c: ClockReadingView,
    node: Seq<char>,
    ack_seq: Option<i64>,
)
    requires
        runs(state, c),
    ensures
        ({
            let s = state.checkpoint_clock(c).0;
            let (after, reply) = state.poll_node_inbox(c, node, ack_seq);
            let acked = acknowledged_up_to(state.node_inbox, node, ack_seq, c.now_ms);
            &&& reply is Ok
            &&& shows_rows(
                reply->Ok_0,
                acked,
                |row: InboxRowView| row.node_id == node && row.acked_at_ms is None,
                |row: InboxRowView|
                    InboxDocumentView { seq: row.seq, envelope_json: row.envelope_json },
                |a: InboxDocumentView, b: InboxDocumentView| a.seq < b.seq,
                50,
            )
            &&& after == (StoreView { node_inbox: after.node_inbox, ..s })
            &&& after.node_inbox.len() == acked.len()
            &&& forall|j: int|
                0 <= j < acked.len() ==> #[trigger] after.node_inbox[j] == if acked[j].node_id
                    == node && acked[j].acked_at_ms is None && acked[j].delivered_at_ms is None
                    && (exists|k: int|
                    0 <= k < reply->Ok_0.len() && (#[trigger] reply->Ok_0[k]).seq
                        == acked[j].seq) {
                    InboxRowView { delivered_at_ms: Some(c.now_ms), ..acked[j] }
                } else {
                    acked[j]
                }
        }),
{
    lemma_runs(state, c);
    let now = Some(c.now_ms);
    let acked = acknowledged_up_to(state.node_inbox, node, ack_seq, c.now_ms);
    let stored = match ack_seq {
        Some(seq) => updated(
            state.node_inbox,
            acknowledged(node, seq),
            crate::node_channel::document_acked(now),
        ),
        None => state.node_inbox,
    };
    assert(stored =~= acked);
    let wanted = |row: InboxRowView| row.node_id == node && row.acked_at_ms is None;
    let shown = |row: InboxRowView|
        InboxDocumentView { seq: row.seq, envelope_json: row.envelope_json };
    let before = |a: InboxDocumentView, b: InboxDocumentView| a.seq < b.seq;
    assert(outstanding(node) =~= wanted);
    assert(inbox_document() =~= shown);
    assert(sequence_order() =~= before);
    lemma_page_shows(acked, wanted, shown, before, 50);
    let list = inbox_page(acked, node);
    let (after, reply) = state.poll_node_inbox(c, node, ack_seq);
    assert(reply->Ok_0 == list);
    assert forall|j: int| 0 <= j < acked.len() implies #[trigger] after.node_inbox[j]
        == if acked[j].node_id == node && acked[j].acked_at_ms is None && acked[j].delivered_at_ms
        is None && (exists|k: int|
        0 <= k < list.len() && (#[trigger] list[k]).seq == acked[j].seq) {
        InboxRowView { delivered_at_ms: Some(c.now_ms), ..acked[j] }
    } else {
        acked[j]
    } by {
        let alike = |document: InboxDocumentView| document.seq == acked[j].seq;
        assert(paged(list, node)(acked[j]) == (outstanding(node)(acked[j]) && any(list, alike)));
        if exists|k: int| 0 <= k < list.len() && (#[trigger] list[k]).seq == acked[j].seq {
            let k = choose|k: int|
                0 <= k < list.len() && (#[trigger] list[k]).seq == acked[j].seq;
            assert(alike(list[k]));
        }
        if any(list, alike) {
            let k = choose|k: int| 0 <= k < list.len() && alike(#[trigger] list[k]);
            assert(list[k].seq == acked[j].seq);
        }
    }
}

/// An event that a node reports for the first time under a key is recorded as it was
/// reported, from now, unless its identifier is taken.
pub proof fn a_new_event_is_recorded_as_reported(
    state: StoreView,
    c: ClockReadingView,
    id: Seq<char>,
    node: Seq<char>,
    key: Seq<char>,
    kind: Seq<char>,
    body: Seq<char>,
    body_hash: Seq<char>,
)
    requires
        runs(state, c),
        forall|q: int|
            0 <= q < state.node_events.len() ==> !((#[trigger] state.node_events[q]).node_id == node
                && state.node_events[q].idempotency_key == key),
    ensures
        ({
            let s = state.checkpoint_clock(c).0;
            state.record_node_event(c, id, node, key, kind, body, body_hash) == if exists|q: int|
                0 <= q < state.node_events.len() && (#[trigger] state.node_events[q]).id == id {
                (
                    s, Err::<NodeEventInsert, StoreError>(
                        StoreError::Database(DatabaseFault::DuplicateKey),
                    ),
                )
            } else {
                (
                    StoreView {
                        node_events: state.node_events.push(
                            NodeEventRowView {
                                id,
                                node_id: node,
                                idempotency_key: key,
                                kind,
                                body_json: body,
                                body_hash,
                                received_at_ms: c.now_ms,
                            },
                        ),
                        ..s
                    },
                    Ok::<NodeEventInsert, StoreError>(NodeEventInsert::Inserted),
                )
            }
        }),
{
    lemma_runs(state, c);
    lemma_none(state.node_events, event_under(node, key));
    assert({
        let taken = event_taken(id);
        any(state.node_events, taken) == (exists|q: int|
            0 <= q < state.node_events.len() && (#[trigger] state.node_events[q]).id == id)
    }) by {
        let taken = event_taken(id);
        if exists|q: int|
            0 <= q < state.node_events.len() && (#[trigger] state.node_events[q]).id == id {
            let q = choose|q: int|
                0 <= q < state.node_events.len() && (#[trigger] state.node_events[q]).id == id;
            assert(taken(state.node_events[q]));
        }
        if any(state.node_events, taken) {
            let q = choose|q: int|
                0 <= q < state.node_events.len() && taken(#[trigger] state.node_events[q]);
            assert(state.node_events[q].id == id);
        }
    };
}

/// An event under a key that the node reported under before changes nothing: it is a
/// duplicate where its body is the same, and a conflict where it is another.
pub proof fn a_reported_event_is_a_duplicate_or_a_conflict(
    state: StoreView,
    c: ClockReadingView,
    id: Seq<char>,
    node: Seq<char>,
    key: Seq<char>,
    kind: Seq<char>,
    body: Seq<char>,
    body_hash: Seq<char>,
    i: int,
)
    requires
        runs(state, c),
        0 <= i < state.node_events.len(),
        state.node_events[i].node_id == node,
        state.node_events[i].idempotency_key == key,
        forall|q: int|
            0 <= q < state.node_events.len() && q != i ==> !((
            #[trigger] state.node_events[q]).node_id == node
                && state.node_events[q].idempotency_key == key),
    ensures
        state.record_node_event(c, id, node, key, kind, body, body_hash) == (
            state.checkpoint_clock(c).0,
            Ok::<NodeEventInsert, StoreError>(
                if state.node_events[i].body_hash == body_hash {
                    NodeEventInsert::Duplicate
                } else {
                    NodeEventInsert::Conflict
                },
            ),
        ),
{
    lemma_runs(state, c);
    lemma_at_most_one(state.node_events, event_under(node, key), i);
}

} // verus!
