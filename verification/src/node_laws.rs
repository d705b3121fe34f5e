//! What holds of nodes, from their enrollment to the inbox that they drain.

use crate::clock::ClockReadingView;
use crate::documents::{NodeGrantRevocationDraftView, NodeRevocationView, Parsed};
use crate::error::StoreError;
use crate::fleet::{
    enrollment_restated, enrollment_submitted, issued_enrollment, node_named, submittable,
    submitted_enrollment, Submission,
};
use crate::grant_laws::lemma_withdrawn;
use crate::keys::{challenge_row_id, enrollment_id, node_id};
use crate::limits::unexpired;
use crate::node_authority::{
    active_node, node_moved, node_with, open_node_session, rotatable_node, rotation_with,
};
use crate::node_channel::{
    answered_challenge, bearer_node, bearer_session, challenge_consumed, challenged_node,
};
use crate::records::{NodeChallengeView, NodeEventInsert};
use crate::relation::{any, attempted, count, first, lemma_any_counted, updated};
use crate::relation_laws::{
    lemma_attempted, lemma_filter_members, lemma_first_satisfies, lemma_key_spent,
    lemma_unique_first, lemma_unique_hit, unique,
};
use crate::secret_laws::finds_nothing;
use crate::store::StoreView;
use crate::tables::{EnrollmentRowView, NodeKeyRotationRowView, NodeRowView};
use vstd::prelude::*;

verus! {

/// An enrollment token is spent by the first submission: the enrollment is no
/// longer open under it, and a second submission changes nothing.
pub proof fn an_enrollment_is_submitted_once(
    state: StoreView,
    c: ClockReadingView,
    id: Seq<char>,
    node: Seq<char>,
    token_hash: Seq<char>,
    name: Seq<char>,
    submission: Submission,
    later: ClockReadingView,
    other_token: Seq<char>,
    second: Submission,
)
    requires
        unique(state.enrollment_requests, enrollment_id()),
        state.submit_enrollment(c, id, node, token_hash, name, submission).1 == Ok::<
            bool,
            StoreError,
        >(true),
        state.submit_enrollment(c, id, node, token_hash, name, submission).0.checkpoint_clock(
            later,
        ).1 is Ok,
    ensures
        ({
            let after = state.submit_enrollment(c, id, node, token_hash, name, submission).0;
            &&& finds_nothing(after.issued_enrollment_by_token_hash(later, id, other_token).1)
            &&& after.submit_enrollment(later, id, node, other_token, name, second) == (
                after.checkpoint_clock(later).0,
                Ok::<bool, StoreError>(false),
            )
        }),
{
    reveal_strlit("issued");
    reveal_strlit("submitted");
    let s = state.checkpoint_clock(c).0;
    let rows = s.enrollment_requests;
    let now = s.now(c.now_ms);
    let hit = submittable(id, node, s.tenant_id, token_hash, name, now);
    let change = enrollment_submitted(submission, now);
    lemma_attempted(rows, hit, change);
    lemma_any_counted(rows, hit);
    let after = state.submit_enrollment(c, id, node, token_hash, name, submission).0;
    let then = after.checkpoint_clock(later).0.now(later.now_ms);
    let f = |v: EnrollmentRowView| change(v)->0;
    let i = lemma_unique_first(rows, enrollment_id(), id, hit);
    assert(change(rows[i]) is Some);
    let open = issued_enrollment(id, s.tenant_id, other_token, then);
    let again = submittable(id, node, s.tenant_id, other_token, name, then);
    let changed = updated(rows, hit, f);
    assert forall|j: int| 0 <= j < changed.len() implies !open(#[trigger] changed[j]) by {
        if j < i {
            assert(enrollment_id()(rows[j]) != enrollment_id()(rows[i]));
        } else if i < j {
            assert(enrollment_id()(rows[i]) != enrollment_id()(rows[j]));
        } else {
            assert(changed[i].record.status == "submitted"@);
        }
    }
    assert forall|j: int| 0 <= j < changed.len() implies !again(#[trigger] changed[j]) by {
        assert(!open(changed[j]));
    }
    assert(!any(changed, open));
    assert(!any(changed, again));
    lemma_any_counted(changed, open);
    lemma_any_counted(changed, again);
    let change2 = enrollment_submitted(second, then);
    let stuck = |v: EnrollmentRowView| again(v) && change2(v) is None;
    assert forall|j: int| 0 <= j < changed.len() implies !stuck(#[trigger] changed[j]) by {
        assert(!again(changed[j]));
    }
    assert(attempted(changed, again, change2) == Some(changed)) by {
        assert(updated(changed, again, |v: EnrollmentRowView| change2(v)->0) =~= changed);
    }
}

/// Whether an enrollment can be neither approved nor rejected.
pub open spec fn is_settled(
    state: StoreView,
    c: ClockReadingView,
    id: Seq<char>,
    version: i64,
    fingerprint: Seq<char>,
) -> bool {
    &&& finds_nothing(state.approve_enrollment(c, id, version, fingerprint).1)
    &&& state.reject_enrollment(c, id, version, fingerprint).1 == Ok::<bool, StoreError>(false)
}

/// An enrollment is decided once: after it was approved or rejected, no version
/// and no fingerprint can approve or reject it.
pub proof fn an_enrollment_is_decided_once(
    state: StoreView,
    c: ClockReadingView,
    id: Seq<char>,
    version: i64,
    fingerprint: Seq<char>,
    later: ClockReadingView,
    other_version: i64,
    other_fingerprint: Seq<char>,
)
    requires
        unique(state.enrollment_requests, enrollment_id()),
    ensures
        ({
            let (after, reply) = state.approve_enrollment(c, id, version, fingerprint);
            reply is Ok && reply->Ok_0 is Some && after.checkpoint_clock(later).1 is Ok
                ==> is_settled(after, later, id, other_version, other_fingerprint)
        }),
        ({
            let (after, reply) = state.reject_enrollment(c, id, version, fingerprint);
            reply == Ok::<bool, StoreError>(true) && after.checkpoint_clock(later).1 is Ok
                ==> is_settled(after, later, id, other_version, other_fingerprint)
        }),
{
    reveal_strlit("submitted");
    reveal_strlit("approved");
    reveal_strlit("rejected");
    assert("submitted"@.len() == 9 && "approved"@.len() == 8 && "rejected"@.len() == 8);
    let s = state.checkpoint_clock(c).0;
    let now = s.now(c.now_ms);
    let hit = submitted_enrollment(id, s.tenant_id, version, fingerprint, now);
    lemma_first_satisfies(s.enrollment_requests, hit);
    lemma_any_counted(s.enrollment_requests, hit);
    let approved = state.approve_enrollment(c, id, version, fingerprint).1;
    if approved is Ok && approved->Ok_0 is Some {
        lemma_enrollment_closed(
            s.enrollment_requests,
            s.tenant_id,
            id,
            version,
            fingerprint,
            now,
            "approved"@,
            other_version,
            other_fingerprint,
        );
    }
    if state.reject_enrollment(c, id, version, fingerprint).1 == Ok::<bool, StoreError>(true) {
        lemma_enrollment_closed(
            s.enrollment_requests,
            s.tenant_id,
            id,
            version,
            fingerprint,
            now,
            "rejected"@,
            other_version,
            other_fingerprint,
        );
    }
}

/// Whether no enrollment of a table is picked to be decided.
spec fn undecidable(
    rows: Seq<EnrollmentRowView>,
    hit: spec_fn(EnrollmentRowView) -> bool,
) -> bool {
    &&& first(rows, hit) is None
    &&& count(rows, hit) == 0
    &&& attempted(rows, hit, enrollment_restated("rejected"@)) is Some
}

/// Where a submitted enrollment got another status, none under its identifier is
/// left to be decided, at any moment.
proof fn lemma_enrollment_closed(
    rows: Seq<EnrollmentRowView>,
    tenant: Seq<char>,
    id: Seq<char>,
    version: i64,
    fingerprint: Seq<char>,
    now: Option<i64>,
    status: Seq<char>,
    other_version: i64,
    other_fingerprint: Seq<char>,
)
    requires
        unique(rows, enrollment_id()),
        status != "submitted"@,
        any(rows, submitted_enrollment(id, tenant, version, fingerprint, now)),
        attempted(
            rows,
            submitted_enrollment(id, tenant, version, fingerprint, now),
            enrollment_restated(status),
        ) is Some,
    ensures
        ({
            let after = attempted(
                rows,
                submitted_enrollment(id, tenant, version, fingerprint, now),
                enrollment_restated(status),
            )->0;
            forall|later: Option<i64>|
                undecidable(
                    after,
                    #[trigger] submitted_enrollment(
                        id,
                        tenant,
                        other_version,
                        other_fingerprint,
                        later,
                    ),
                )
        }),
{
    let hit = submitted_enrollment(id, tenant, version, fingerprint, now);
    let change = enrollment_restated(status);
    lemma_attempted(rows, hit, change);
    let i = lemma_unique_first(rows, enrollment_id(), id, hit);
    assert(change(rows[i]) is Some);
    let after = updated(rows, hit, |v: EnrollmentRowView| change(v)->0);
    assert forall|later: Option<i64>|
        undecidable(
            after,
            #[trigger] submitted_enrollment(id, tenant, other_version, other_fingerprint, later),
        ) by {
        let again = submitted_enrollment(id, tenant, other_version, other_fingerprint, later);
        assert forall|j: int| 0 <= j < after.len() implies !again(#[trigger] after[j]) by {
            if j < i {
                assert(enrollment_id()(rows[j]) != enrollment_id()(rows[i]));
            } else if i < j {
                assert(enrollment_id()(rows[i]) != enrollment_id()(rows[j]));
            } else {
                assert(after[i].record.status == status);
            }
        }
        assert(!any(after, again));
        lemma_any_counted(after, again);
        let change2 = enrollment_restated("rejected"@);
        let stuck = |v: EnrollmentRowView| again(v) && change2(v) is None;
        assert forall|j: int| 0 <= j < after.len() implies !stuck(#[trigger] after[j]) by {
            assert(!again(after[j]));
        }
    }
}

/// An approved enrollment makes an active node at its first key, under the keys
/// and the name that were submitted, and its deadline was ahead.
pub proof fn an_approved_node_is_active(
    state: StoreView,
    c: ClockReadingView,
    id: Seq<char>,
    version: i64,
    fingerprint: Seq<char>,
)
    requires
        state.approve_enrollment(c, id, version, fingerprint).1 matches Ok(Some(_)),
    ensures
        ({
            let (after, reply) = state.approve_enrollment(c, id, version, fingerprint);
            let enrollment = first(
                state.enrollment_requests,
                submitted_enrollment(
                    id,
                    state.tenant_id,
                    version,
                    fingerprint,
                    state.checkpoint_clock(c).0.now(c.now_ms),
                ),
            )->0.record;
            let node = reply->Ok_0->0;
            &&& node.status == "active"@
            &&& node.key_version == 1
            &&& node.id == enrollment.node_id
            &&& node.name == enrollment.requested_name
            &&& Some(node.signing_pub) == enrollment.signing_pub
            &&& Some(node.recipient_pub) == enrollment.recipient_pub
            &&& !any(state.nodes, node_named(node.name, state.tenant_id))
            &&& any(after.nodes, active_node(node.id, state.tenant_id))
            &&& unexpired(
                enrollment.expires_at_ms,
                state.checkpoint_clock(c).0.now(c.now_ms),
            )
        }),
{
    let s = state.checkpoint_clock(c).0;
    lemma_first_satisfies(
        s.enrollment_requests,
        submitted_enrollment(id, s.tenant_id, version, fingerprint, s.now(c.now_ms)),
    );
    let (after, reply) = state.approve_enrollment(c, id, version, fingerprint);
    let enrollment = first(
        s.enrollment_requests,
        submitted_enrollment(id, s.tenant_id, version, fingerprint, s.now(c.now_ms)),
    )->0.record;
    let taken = crate::fleet::node_taken(enrollment.node_id);
    let wanted = node_with(enrollment.node_id, s.tenant_id);
    let row = after.nodes.last();
    assert(after.nodes == s.nodes.push(row));
    assert(!any(s.nodes, wanted)) by {
        assert forall|i: int| 0 <= i < s.nodes.len() implies !wanted(#[trigger] s.nodes[i]) by {
            assert(!taken(s.nodes[i]));
        }
    }
    crate::relation_laws::lemma_push_found(s.nodes, row, wanted);
    assert(active_node(row.id, s.tenant_id)(after.nodes[after.nodes.len() - 1]));
}

/// A challenge opens one session: after it was consumed, nothing consumes it
/// again.
pub proof fn a_challenge_is_consumed_once(
    state: StoreView,
    c: ClockReadingView,
    challenge: NodeChallengeView,
    nonce_hash: Seq<char>,
    session: Seq<char>,
    token_hash: Seq<char>,
    expires_at_ms: i64,
    later: ClockReadingView,
    replayed: NodeChallengeView,
    other_nonce: Seq<char>,
    other_session: Seq<char>,
    other_token: Seq<char>,
    other_expiry: i64,
)
    requires
        unique(state.node_challenges, challenge_row_id()),
        state.consume_node_challenge(
            c,
            challenge,
            nonce_hash,
            session,
            token_hash,
            expires_at_ms,
        ).1 == Ok::<bool, StoreError>(true),
        replayed.id == challenge.id,
    ensures
        state.consume_node_challenge(
            c,
            challenge,
            nonce_hash,
            session,
            token_hash,
            expires_at_ms,
        ).0.consume_node_challenge(
            later,
            replayed,
            other_nonce,
            other_session,
            other_token,
            other_expiry,
        ).1 != Ok::<bool, StoreError>(true),
{
    let s = state.checkpoint_clock(c).0;
    let now = s.now(c.now_ms);
    let after = state.consume_node_challenge(
        c,
        challenge,
        nonce_hash,
        session,
        token_hash,
        expires_at_ms,
    ).0;
    let then = after.checkpoint_clock(later).0.now(later.now_ms);
    let hit = answered_challenge(challenge, nonce_hash, now);
    lemma_any_counted(s.node_challenges, hit);
    lemma_key_spent(
        s.node_challenges,
        challenge_row_id(),
        challenge.id,
        hit,
        challenge_consumed(now),
        answered_challenge(replayed, other_nonce, then),
    );
}

/// The session that a challenge opened authenticates its node with the token it
/// was opened with, until it ends.
pub proof fn a_consumed_challenge_opens_a_session(
    state: StoreView,
    c: ClockReadingView,
    challenge: NodeChallengeView,
    nonce_hash: Seq<char>,
    session: Seq<char>,
    token_hash: Seq<char>,
    expires_at_ms: i64,
    later: ClockReadingView,
    poll: bool,
)
    requires
        unique(state.nodes, node_id()),
        state.consume_node_challenge(
            c,
            challenge,
            nonce_hash,
            session,
            token_hash,
            expires_at_ms,
        ).1 == Ok::<bool, StoreError>(true),
        ({
            let after = state.consume_node_challenge(
                c,
                challenge,
                nonce_hash,
                session,
                token_hash,
                expires_at_ms,
            ).0;
            let (then, gate) = after.checkpoint_clock(later);
            gate is Ok && then.clock.last_observed_ms <= later.now_ms < expires_at_ms
        }),
    ensures
        state.consume_node_challenge(
            c,
            challenge,
            nonce_hash,
            session,
            token_hash,
            expires_at_ms,
        ).0.authenticate_node_session(
            later,
            session,
            challenge.node_id,
            token_hash,
            challenge.key_version,
            challenge.issuer_epoch,
            challenge.protocol_version,
            poll,
        ).1 == Ok::<bool, StoreError>(true),
{
    let s = state.checkpoint_clock(c).0;
    let after = state.consume_node_challenge(
        c,
        challenge,
        nonce_hash,
        session,
        token_hash,
        expires_at_ms,
    ).0;
    let then = after.checkpoint_clock(later).0;
    let now = then.now(later.now_ms);
    let i = lemma_unique_first(
        s.nodes,
        node_id(),
        challenge.node_id,
        challenged_node(challenge, s.tenant_id),
    );
    let sessions = after.node_sessions;
    assert(bearer_session(session, challenge.node_id, token_hash, now)(
        sessions[sessions.len() - 1],
    ));
    lemma_unique_hit(
        s.nodes,
        node_id(),
        challenge.node_id,
        bearer_node(
            sessions,
            true,
            session,
            challenge.node_id,
            s.tenant_id,
            token_hash,
            challenge.key_version,
            challenge.protocol_version,
            now,
        ),
        i,
    );
}

/// Only an active node is authenticated, and only by a session that is open at
/// its current key and issuer epoch.
pub proof fn only_active_nodes_are_authenticated(
    state: StoreView,
    c: ClockReadingView,
    session: Seq<char>,
    node: Seq<char>,
    token_hash: Seq<char>,
    key_version: i64,
    issuer_epoch: i64,
    protocol_version: Seq<char>,
    poll: bool,
)
    requires
        state.authenticate_node_session(
            c,
            session,
            node,
            token_hash,
            key_version,
            issuer_epoch,
            protocol_version,
            poll,
        ).1 == Ok::<bool, StoreError>(true),
    ensures
        state.meta.issuer_epoch == issuer_epoch,
        any(
            state.nodes,
            |row: NodeRowView|
                active_node(node, state.tenant_id)(row) && row.key_version == key_version,
        ),
        any(state.node_sessions, bearer_session(session, node, token_hash, Some(c.now_ms))),
{
    let s = state.checkpoint_clock(c).0;
    let now = s.now(c.now_ms);
    let hit = bearer_node(
        s.node_sessions,
        s.meta.issuer_epoch == issuer_epoch,
        session,
        node,
        s.tenant_id,
        token_hash,
        key_version,
        protocol_version,
        now,
    );
    lemma_any_counted(s.nodes, hit);
    let i = choose|i: int| 0 <= i < s.nodes.len() && hit(#[trigger] s.nodes[i]);
    let wanted = |row: NodeRowView|
        active_node(node, state.tenant_id)(row) && row.key_version == key_version;
    assert(wanted(state.nodes[i]));
    let open = bearer_session(session, node, token_hash, now);
    let k = choose|k: int| 0 <= k < s.node_sessions.len() && open(#[trigger] s.node_sessions[k]);
    assert(bearer_session(session, node, token_hash, Some(c.now_ms))(state.node_sessions[k]));
}

/// A completed rotation moves the node to the staged key, ends every session of
/// the node and is no longer staged.
pub proof fn a_completed_rotation_moves_the_key(
    state: StoreView,
    c: ClockReadingView,
    node: Seq<char>,
    rotation: Seq<char>,
    key_version: i64,
    fingerprint: Seq<char>,
    recorded: Option<Seq<char>>,
)
    requires
        unique(state.nodes, node_id()),
        any(state.node_key_rotations, rotation_with(node, rotation)),
        state.complete_node_key_rotation(
            c,
            node,
            rotation,
            key_version,
            fingerprint,
            recorded,
        ).1 == Ok::<bool, StoreError>(true),
    ensures
        ({
            let staged = first(state.node_key_rotations, rotation_with(node, rotation))->0;
            let after = state.complete_node_key_rotation(
                c,
                node,
                rotation,
                key_version,
                fingerprint,
                recorded,
            ).0;
            &&& !any(after.node_sessions, open_node_session(node))
            &&& !any(after.node_key_rotations, rotation_with(node, rotation))
            &&& any(
                after.nodes,
                |row: NodeRowView|
                    row.id == node && row.key_version == key_version && row.signing_pub
                        == staged.signing_pub && row.recipient_pub == staged.recipient_pub,
            )
        }),
{
    let s = state.checkpoint_clock(c).0;
    let now_ms = s.now(c.now_ms)->0;
    lemma_any_counted(s.node_key_rotations, rotation_with(node, rotation));
    lemma_first_satisfies(s.node_key_rotations, rotation_with(node, rotation));
    let staged = first(s.node_key_rotations, rotation_with(node, rotation))->0;
    let movable = rotatable_node(
        s.node_revocation_queue,
        node,
        s.tenant_id,
        staged.from_key_version,
    );
    let change = node_moved(staged);
    lemma_attempted(s.nodes, movable, change);
    lemma_any_counted(s.nodes, movable);
    let i = lemma_unique_first(s.nodes, node_id(), node, movable);
    assert(change(s.nodes[i]) is Some);
    let after = s.finish_rotation(attempted(s.nodes, movable, change)->0, node, staged, now_ms);
    let moved = |row: NodeRowView|
        row.id == node && row.key_version == key_version && row.signing_pub == staged.signing_pub
            && row.recipient_pub == staged.recipient_pub;
    assert(moved(after.nodes[i]));
    let open = open_node_session(node);
    assert forall|k: int| 0 <= k < after.node_sessions.len() implies !open(
        #[trigger] after.node_sessions[k],
    ) by {}
    let gone = rotation_with(node, staged.rotation_id);
    lemma_filter_members(s.node_key_rotations, |row: NodeKeyRotationRowView| !gone(row));
    assert forall|k: int| 0 <= k < after.node_key_rotations.len() implies !gone(
        #[trigger] after.node_key_rotations[k],
    ) by {
        assert(after.node_key_rotations.contains(after.node_key_rotations[k]));
    }
}

/// An event is recorded once under its idempotency key: the same body is a
/// duplicate, another body a conflict, and neither changes what was recorded.
pub proof fn an_event_is_recorded_once(
    state: StoreView,
    c: ClockReadingView,
    id: Seq<char>,
    node: Seq<char>,
    key: Seq<char>,
    kind: Seq<char>,
    body_json: Seq<char>,
    body_hash: Seq<char>,
    later: ClockReadingView,
    other_id: Seq<char>,
    other_kind: Seq<char>,
    other_json: Seq<char>,
    other_hash: Seq<char>,
)
    requires
        state.record_node_event(c, id, node, key, kind, body_json, body_hash).1 == Ok::<
            NodeEventInsert,
            StoreError,
        >(NodeEventInsert::Inserted),
        ({
            let after = state.record_node_event(c, id, node, key, kind, body_json, body_hash).0;
            let (then, gate) = after.checkpoint_clock(later);
            gate is Ok && then.clock.last_observed_ms <= later.now_ms
        }),
    ensures
        ({
            let after = state.record_node_event(c, id, node, key, kind, body_json, body_hash).0;
            after.record_node_event(
                later,
                other_id,
                node,
                key,
                other_kind,
                other_json,
                other_hash,
            ) == (
                after.checkpoint_clock(later).0,
                Ok::<NodeEventInsert, StoreError>(
                    if other_hash == body_hash {
                        NodeEventInsert::Duplicate
                    } else {
                        NodeEventInsert::Conflict
                    },
                ),
            )
        }),
{
    let s = state.checkpoint_clock(c).0;
    let after = state.record_node_event(c, id, node, key, kind, body_json, body_hash).0;
    let under = crate::node_channel::event_under(node, key);
    lemma_any_counted(s.node_events, under);
    crate::relation_laws::lemma_push_found(s.node_events, after.node_events.last(), under);
    assert(after.node_events == s.node_events.push(after.node_events.last()));
}

/// The node with an identifier, where it is revoked.
pub open spec fn revoked_node(id: Seq<char>, tenant_id: Seq<char>) -> spec_fn(NodeRowView) -> bool {
    |row: NodeRowView| row.id == id && row.tenant_id == tenant_id && row.status == "revoked"@
}

/// Whether each node is active or revoked.
pub open spec fn settled_nodes(nodes: Seq<NodeRowView>) -> bool {
    forall|i: int|
        0 <= i < nodes.len() ==> (#[trigger] nodes[i]).status == "active"@ || nodes[i].status
            == "revoked"@
}

/// The revocation of a node is repeated without effect: once it was answered with
/// yes, it is answered so again, whatever documents come with it, and nothing
/// changes but what the checkpoint changed.
pub proof fn a_revocation_is_repeated_without_effect(
    state: StoreView,
    c: ClockReadingView,
    node: Seq<char>,
    revocations: Seq<NodeGrantRevocationDraftView>,
    document_json: Seq<char>,
    document: Parsed<NodeRevocationView>,
    later: ClockReadingView,
    other_revocations: Seq<NodeGrantRevocationDraftView>,
    other_json: Seq<char>,
    other_document: Parsed<NodeRevocationView>,
)
    requires
        unique(state.nodes, node_id()),
        settled_nodes(state.nodes),
        state.revoke_node(c, node, revocations, document_json, document).1 == Ok::<
            bool,
            StoreError,
        >(true),
        ({
            let after = state.revoke_node(c, node, revocations, document_json, document).0;
            let (open, gate) = after.checkpoint_clock(later);
            gate is Ok && open.now(later.now_ms) is Some
        }),
    ensures
        ({
            let after = state.revoke_node(c, node, revocations, document_json, document).0;
            &&& any(after.nodes, revoked_node(node, state.tenant_id))
            &&& after.revoke_node(later, node, other_revocations, other_json, other_document) == (
                after.checkpoint_clock(later).0,
                Ok::<bool, StoreError>(true),
            )
        }),
{
    let s = state.checkpoint_clock(c).0;
    let rows = s.nodes;
    let wanted = node_with(node, s.tenant_id);
    let after = state.revoke_node(c, node, revocations, document_json, document).0;
    lemma_any_counted(rows, wanted);
    let i = lemma_unique_first(rows, node_id(), node, wanted);
    if rows[i].status != "revoked"@ {
        lemma_withdrawn(s, node, revocations, document_json, document, s.now(c.now_ms)->0);
        assert(active_node(node, s.tenant_id)(rows[i]));
    }
    assert forall|j: int, k: int|
        0 <= j < k < after.nodes.len() implies node_id()(#[trigger] after.nodes[j]) != node_id()(
        #[trigger] after.nodes[k],
    ) by {
        assert(node_id()(rows[j]) != node_id()(rows[k]));
    }
    assert(revoked_node(node, s.tenant_id)(after.nodes[i]));
    lemma_unique_hit(after.nodes, node_id(), node, wanted, i);
}

/// A node that the tenant does not have is not revoked: the answer is no, and nothing
/// changes but what the checkpoint changed.
pub proof fn an_unknown_node_is_not_revoked(
    state: StoreView,
    c: ClockReadingView,
    node: Seq<char>,
    revocations: Seq<NodeGrantRevocationDraftView>,
    document_json: Seq<char>,
    document: Parsed<NodeRevocationView>,
)
    requires
        !any(state.nodes, node_with(node, state.tenant_id)),
        state.checkpoint_clock(c).1 is Ok,
        state.checkpoint_clock(c).0.now(c.now_ms) is Some,
    ensures
        state.revoke_node(c, node, revocations, document_json, document) == (
            state.checkpoint_clock(c).0,
            Ok::<bool, StoreError>(false),
        ),
{
    lemma_any_counted(state.nodes, node_with(node, state.tenant_id));
}

/// Each node stays active or revoked, whatever is done to nodes.
pub proof fn nodes_stay_active_or_revoked(
    state: StoreView,
    c: ClockReadingView,
    id: Seq<char>,
    version: i64,
    fingerprint: Seq<char>,
    target: Seq<char>,
    token_hash: Seq<char>,
    issuer_epoch: i64,
    protocol_version: Seq<char>,
    poll: bool,
    revocations: Seq<NodeGrantRevocationDraftView>,
    document_json: Seq<char>,
    document: Parsed<NodeRevocationView>,
    history_fingerprint: Option<Seq<char>>,
)
    requires
        settled_nodes(state.nodes),
    ensures
        settled_nodes(state.approve_enrollment(c, id, version, fingerprint).0.nodes),
        settled_nodes(
            state.authenticate_node_session(
                c,
                id,
                target,
                token_hash,
                version,
                issuer_epoch,
                protocol_version,
                poll,
            ).0.nodes,
        ),
        settled_nodes(state.revoke_node(c, target, revocations, document_json, document).0.nodes),
        settled_nodes(
            state.complete_node_key_rotation(
                c,
                target,
                id,
                version,
                fingerprint,
                history_fingerprint,
            ).0.nodes,
        ),
{
    let s = state.checkpoint_clock(c).0;
    if state.revoke_node(c, target, revocations, document_json, document).0.nodes != s.nodes {
        lemma_withdrawn(s, target, revocations, document_json, document, s.now(c.now_ms)->0);
    }
    let rotation = first(s.node_key_rotations, rotation_with(target, id))->0;
    let movable = rotatable_node(
        s.node_revocation_queue,
        target,
        s.tenant_id,
        rotation.from_key_version,
    );
    if attempted(s.nodes, movable, node_moved(rotation)) is Some {
        lemma_attempted(s.nodes, movable, node_moved(rotation));
    }
}

/// A revoked node stays revoked, whatever is done to it or to other nodes.
pub proof fn a_revoked_node_stays_revoked(
    state: StoreView,
    c: ClockReadingView,
    node: Seq<char>,
    id: Seq<char>,
    version: i64,
    fingerprint: Seq<char>,
    target: Seq<char>,
    token_hash: Seq<char>,
    issuer_epoch: i64,
    protocol_version: Seq<char>,
    poll: bool,
    revocations: Seq<NodeGrantRevocationDraftView>,
    document_json: Seq<char>,
    document: Parsed<NodeRevocationView>,
    history_fingerprint: Option<Seq<char>>,
)
    requires
        any(state.nodes, revoked_node(node, state.tenant_id)),
    ensures
        any(state.approve_enrollment(c, id, version, fingerprint).0.nodes, revoked_node(node, state.tenant_id)),
        any(
            state.authenticate_node_session(
                c,
                id,
                target,
                token_hash,
                version,
                issuer_epoch,
                protocol_version,
                poll,
            ).0.nodes,
            revoked_node(node, state.tenant_id),
        ),
        any(state.revoke_node(c, target, revocations, document_json, document).0.nodes, revoked_node(node, state.tenant_id)),
        any(
            state.complete_node_key_rotation(
                c,
                target,
                id,
                version,
                fingerprint,
                history_fingerprint,
            ).0.nodes,
            revoked_node(node, state.tenant_id),
        ),
{
    reveal_strlit("active");
    reveal_strlit("revoked");
    assert("active"@.len() == 6 && "revoked"@.len() == 7);
    let s = state.checkpoint_clock(c).0;
    let kept = revoked_node(node, s.tenant_id);
    let i = choose|i: int| 0 <= i < s.nodes.len() && kept(#[trigger] s.nodes[i]);
    let approved = state.approve_enrollment(c, id, version, fingerprint).0;
    assert(approved.nodes[i] == s.nodes[i]);
    let seen = state.authenticate_node_session(
        c,
        id,
        target,
        token_hash,
        version,
        issuer_epoch,
        protocol_version,
        poll,
    ).0;
    assert(kept(seen.nodes[i]));
    let revoked = state.revoke_node(c, target, revocations, document_json, document).0;
    if revoked.nodes != s.nodes {
        lemma_withdrawn(s, target, revocations, document_json, document, s.now(c.now_ms)->0);
    }
    assert(kept(revoked.nodes[i]));
    let rotation = first(s.node_key_rotations, rotation_with(target, id))->0;
    let movable = rotatable_node(
        s.node_revocation_queue,
        target,
        s.tenant_id,
        rotation.from_key_version,
    );
    if attempted(s.nodes, movable, node_moved(rotation)) is Some {
        lemma_attempted(s.nodes, movable, node_moved(rotation));
    }
    let moved = state.complete_node_key_rotation(
        c,
        target,
        id,
        version,
        fingerprint,
        history_fingerprint,
    ).0;
    assert(kept(moved.nodes[i]));
}

} // verus!
