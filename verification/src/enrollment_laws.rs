//! What each step of an enrollment does to it, by what the enrollment says, and what is
//! read of a node.

use crate::clock::ClockReadingView;
use crate::error::{DatabaseFault, StoreError};
use crate::fleet::{
    enrollment_taken, enrollment_with, issued_enrollment, node_named, node_record, node_taken,
    open_enrollment, submittable, submitted_enrollment, Submission,
};
use crate::keys::{enrollment_id, node_id, rotation_node};
use crate::moment_laws::{lemma_runs, mark, runs};
use crate::node_authority::{key_with, node_with, queued_revocation, rotation_of};
use crate::records::{EnrollmentRecordView, NodeRecordView};
use crate::relation::any;
use crate::relation_laws::{lemma_none, lemma_push_found, lemma_sole, unique};
use crate::store::StoreView;
use crate::tables::{
    EnrollmentRowView, NodeKeyRotationRowView, NodeKeyRowView, NodeRevocationRowView, NodeRowView,
};
use vstd::prelude::*;

verus! {

/// An enrollment is issued as it was described, from now until its time to live is
/// over, unless its identifier is taken. The answer tells that deadline.
pub proof fn an_enrollment_is_issued_as_described(
    state: StoreView,
    c: ClockReadingView,
    id: Seq<char>,
    node: Seq<char>,
    name: Seq<char>,
    token_hash: Seq<char>,
    created_by: Seq<char>,
    ttl_seconds: u64,
)
    requires
        runs(state, c),
        c.later_ms >= mark(state, c),
    ensures
        ({
            let (after, reply) = state.create_enrollment(
                c,
                id,
                node,
                name,
                token_hash,
                created_by,
                ttl_seconds,
            );
            let s = state.checkpoint_clock(c).0;
            let deadline = c.now_ms + ttl_seconds * 1_000;
            if ttl_seconds == 0 || ttl_seconds * 1_000 > i64::MAX {
                after == s
                    && reply == Err::<i64, StoreError>(StoreError::InvalidInput("enrollment TTL"))
            } else if deadline > i64::MAX || exists|q: int|
                0 <= q < state.enrollment_requests.len()
                    && (#[trigger] state.enrollment_requests[q]).record.id == id {
                after == s && reply is Err
            } else {
                &&& after == (StoreView {
                    enrollment_requests: state.enrollment_requests.push(
                        EnrollmentRowView {
                            tenant_id: state.tenant_id,
                            token_hash,
                            record: EnrollmentRecordView {
                                id,
                                node_id: node,
                                requested_name: name,
                                created_by,
                                status: "issued"@,
                                fingerprint: None,
                                signing_pub: None,
                                recipient_pub: None,
                                protocol_version: None,
                                capabilities_json: None,
                                host_facts_json: None,
                                created_at_ms: c.now_ms,
                                expires_at_ms: deadline as i64,
                                used_at_ms: None,
                                version: 1,
                            },
                        },
                    ),
                    ..s
                })
                &&& reply == if deadline > c.later_ms {
                    Ok::<i64, StoreError>(deadline as i64)
                } else {
                    Err(StoreError::Database(DatabaseFault::RowNotFound))
                }
            }
        }),
{
    lemma_runs(state, c);
    crate::moment_laws::the_checkpoint_passes_exactly_for_a_trusted_reading(state, c);
    let s = state.checkpoint_clock(c).0;
    let rows = state.enrollment_requests;
    assert({
        let taken = enrollment_taken(id);
        any(state.enrollment_requests, taken) == (exists|q: int|
            0 <= q < state.enrollment_requests.len()
                && (#[trigger] state.enrollment_requests[q]).record.id == id)
    }) by {
        let taken = enrollment_taken(id);
        if exists|q: int|
            0 <= q < state.enrollment_requests.len()
                && (#[trigger] state.enrollment_requests[q]).record.id == id {
            let q = choose|q: int|
                0 <= q < state.enrollment_requests.len()
                    && (#[trigger] state.enrollment_requests[q]).record.id == id;
            assert(taken(state.enrollment_requests[q]));
        }
        if any(state.enrollment_requests, taken) {
            let q = choose|q: int|
                0 <= q < state.enrollment_requests.len()
                    && taken(#[trigger] state.enrollment_requests[q]);
            assert(state.enrollment_requests[q].record.id == id);
        }
    };
    if !any(rows, enrollment_taken(id)) {
        let open = open_enrollment(id, Some(c.later_ms));
        assert forall|q: int| 0 <= q < rows.len() implies !open(#[trigger] rows[q]) by {
            assert(!enrollment_taken(id)(rows[q]));
        }
        lemma_none(rows, open);
        if let Ok(after) = s.insert_enrollment(
            id,
            node,
            name,
            token_hash,
            created_by,
            (ttl_seconds * 1_000) as i64,
            Some(c.now_ms),
        ) {
            let row = after.enrollment_requests.last();
            assert(after.enrollment_requests =~= rows.push(row));
            lemma_push_found(rows, row, open);
        }
    }
}

/// An enrollment is read by its tenant under its identifier, whatever it is, and under
/// its token while it is issued and its deadline is ahead.
pub proof fn an_enrollment_is_read_under_its_token_while_it_is_issued(
    state: StoreView,
    c: ClockReadingView,
    id: Seq<char>,
    token_hash: Seq<char>,
    i: int,
)
    requires
        unique(state.enrollment_requests, enrollment_id()),
        runs(state, c),
        0 <= i < state.enrollment_requests.len(),
        state.enrollment_requests[i].record.id == id,
    ensures
        ({
            let s = state.checkpoint_clock(c).0;
            let row = state.enrollment_requests[i];
            &&& state.enrollment_by_id(c, id) == (
                s,
                Ok::<Option<EnrollmentRecordView>, StoreError>(
                    if row.tenant_id == state.tenant_id {
                        Some(row.record)
                    } else {
                        None
                    },
                ),
            )
            &&& state.issued_enrollment_by_token_hash(c, id, token_hash) == (
                s,
                Ok::<Option<EnrollmentRecordView>, StoreError>(
                    if row.tenant_id == state.tenant_id && row.token_hash == token_hash
                        && row.record.status == "issued"@ && row.record.expires_at_ms > c.now_ms {
                        Some(row.record)
                    } else {
                        None
                    },
                ),
            )
        }),
{
    lemma_runs(state, c);
    let t = state.tenant_id;
    lemma_sole(state.enrollment_requests, enrollment_id(), enrollment_with(id, t), i);
    lemma_sole(
        state.enrollment_requests,
        enrollment_id(),
        issued_enrollment(id, t, token_hash, Some(c.now_ms)),
        i,
    );
}

/// An enrollment is submitted under its token, for its node and its name, while it is
/// issued and its deadline is ahead. It then holds what was submitted, at its next
/// version. In every other case nothing changes.
pub proof fn an_issued_enrollment_holds_what_was_submitted(
    state: StoreView,
    c: ClockReadingView,
    id: Seq<char>,
    node: Seq<char>,
    token_hash: Seq<char>,
    name: Seq<char>,
    submission: Submission,
    i: int,
)
    requires
        unique(state.enrollment_requests, enrollment_id()),
        runs(state, c),
        0 <= i < state.enrollment_requests.len(),
        state.enrollment_requests[i].record.id == id,
    ensures
        ({
            let s = state.checkpoint_clock(c).0;
            let row = state.enrollment_requests[i];
            state.submit_enrollment(c, id, node, token_hash, name, submission)
                == if row.tenant_id != state.tenant_id || row.token_hash != token_hash
                || row.record.status != "issued"@ || row.record.expires_at_ms <= c.now_ms
                || row.record.node_id != node || row.record.requested_name != name {
                (s, Ok::<bool, StoreError>(false))
            } else if row.record.version == i64::MAX {
                (s, Err::<bool, StoreError>(StoreError::Database(DatabaseFault::OutOfRange)))
            } else {
                (
                    StoreView {
                        enrollment_requests: state.enrollment_requests.update(
                            i,
                            EnrollmentRowView {
                                record: EnrollmentRecordView {
                                    status: "submitted"@,
                                    used_at_ms: Some(c.now_ms),
                                    signing_pub: Some(submission.signing_pub),
                                    recipient_pub: Some(submission.recipient_pub),
                                    fingerprint: Some(submission.fingerprint),
                                    protocol_version: Some(submission.protocol_version),
                                    capabilities_json: Some(submission.capabilities_json),
                                    host_facts_json: Some(submission.host_facts_json),
                                    version: (row.record.version + 1) as i64,
                                    ..row.record
                                },
                                ..row
                            },
                        ),
                        ..s
                    },
                    Ok::<bool, StoreError>(true),
                )
            }
        }),
{
    lemma_runs(state, c);
    lemma_sole(
        state.enrollment_requests,
        enrollment_id(),
        submittable(id, node, state.tenant_id, token_hash, name, Some(c.now_ms)),
        i,
    );
}

/// Under an identifier that no enrollment has, none is read, submitted or decided.
pub proof fn an_absent_enrollment_is_out_of_reach(
    state: StoreView,
    c: ClockReadingView,
    id: Seq<char>,
    node: Seq<char>,
    token_hash: Seq<char>,
    name: Seq<char>,
    submission: Submission,
    version: i64,
    fingerprint: Seq<char>,
)
    requires
        runs(state, c),
        forall|q: int|
            0 <= q < state.enrollment_requests.len()
                ==> (#[trigger] state.enrollment_requests[q]).record.id != id,
    ensures
        ({
            let s = state.checkpoint_clock(c).0;
            let nothing = (s, Ok::<Option<EnrollmentRecordView>, StoreError>(None));
            &&& state.enrollment_by_id(c, id) == nothing
            &&& state.issued_enrollment_by_token_hash(c, id, token_hash) == nothing
            &&& state.submit_enrollment(c, id, node, token_hash, name, submission) == (
                s,
                Ok::<bool, StoreError>(false),
            )
            &&& state.approve_enrollment(c, id, version, fingerprint) == (
                s,
                Ok::<Option<NodeRecordView>, StoreError>(None),
            )
            &&& state.reject_enrollment(c, id, version, fingerprint)
                == (s, Ok::<bool, StoreError>(false))
        }),
{
    lemma_runs(state, c);
    let t = state.tenant_id;
    let now = Some(c.now_ms);
    let rows = state.enrollment_requests;
    lemma_none(rows, enrollment_with(id, t));
    lemma_none(rows, issued_enrollment(id, t, token_hash, now));
    lemma_none(rows, submittable(id, node, t, token_hash, name, now));
    lemma_none(rows, submitted_enrollment(id, t, version, fingerprint, now));
}

/// Whether an enrollment can be decided: it is submitted to the tenant at the version
/// and with the fingerprint that were shown, and its deadline is ahead.
pub open spec fn can_be_decided(
    state: StoreView,
    row: EnrollmentRowView,
    version: i64,
    fingerprint: Seq<char>,
    now_ms: i64,
) -> bool {
    row.tenant_id == state.tenant_id && row.record.status == "submitted"@ && row.record.version
        == version && row.record.fingerprint == Some(fingerprint) && row.record.expires_at_ms
        > now_ms
}

/// An enrollment that can be decided is rejected at its next version. In every other
/// case nothing changes.
pub proof fn a_submitted_enrollment_is_rejected(
    state: StoreView,
    c: ClockReadingView,
    id: Seq<char>,
    version: i64,
    fingerprint: Seq<char>,
    i: int,
)
    requires
        unique(state.enrollment_requests, enrollment_id()),
        runs(state, c),
        0 <= i < state.enrollment_requests.len(),
        state.enrollment_requests[i].record.id == id,
    ensures
        ({
            let s = state.checkpoint_clock(c).0;
            let row = state.enrollment_requests[i];
            state.reject_enrollment(c, id, version, fingerprint) == if !can_be_decided(
                state,
                row,
                version,
                fingerprint,
                c.now_ms,
            ) {
                (s, Ok::<bool, StoreError>(false))
            } else if version == i64::MAX {
                (s, Err::<bool, StoreError>(StoreError::Database(DatabaseFault::OutOfRange)))
            } else {
                (
                    StoreView {
                        enrollment_requests: state.enrollment_requests.update(
                            i,
                            EnrollmentRowView {
                                record: EnrollmentRecordView {
                                    status: "rejected"@,
                                    version: (version + 1) as i64,
                                    ..row.record
                                },
                                ..row
                            },
                        ),
                        ..s
                    },
                    Ok::<bool, StoreError>(true),
                )
            }
        }),
{
    lemma_runs(state, c);
    lemma_sole(
        state.enrollment_requests,
        enrollment_id(),
        submitted_enrollment(id, state.tenant_id, version, fingerprint, Some(c.now_ms)),
        i,
    );
}

/// Whether a node is told rightly: as it is stored, whether its revocation is queued,
/// and which key it is to move to.
pub open spec fn tells_node(
    told: NodeRecordView,
    row: NodeRowView,
    queue: Seq<NodeRevocationRowView>,
    rotations: Seq<NodeKeyRotationRowView>,
) -> bool {
    &&& told == (NodeRecordView {
        id: row.id,
        name: row.name,
        signing_pub: row.signing_pub,
        recipient_pub: row.recipient_pub,
        key_version: row.key_version,
        status: row.status,
        revocation_pending: exists|q: int|
            0 <= q < queue.len() && (#[trigger] queue[q]).node_id == row.id,
        rotation_pending: exists|q: int|
            0 <= q < rotations.len() && (#[trigger] rotations[q]).node_id == row.id,
        pending_key_version: told.pending_key_version,
        pending_rotation_id: told.pending_rotation_id,
        protocol_version: row.protocol_version,
        capabilities_json: row.capabilities_json,
        last_seen_at_ms: row.last_seen_at_ms,
        last_poll_at_ms: row.last_poll_at_ms,
        created_at_ms: row.created_at_ms,
        revoked_at_ms: row.revoked_at_ms,
        version: row.version,
    })
    &&& !told.rotation_pending ==> told.pending_key_version is None && told.pending_rotation_id
        is None
    &&& forall|q: int|
        0 <= q < rotations.len() && (#[trigger] rotations[q]).node_id == row.id
            ==> told.pending_key_version == Some(rotations[q].to_key_version)
            && told.pending_rotation_id == Some(rotations[q].rotation_id)
}

pub(crate) proof fn lemma_tells_node(
    row: NodeRowView,
    queue: Seq<NodeRevocationRowView>,
    rotations: Seq<NodeKeyRotationRowView>,
)
    requires
        unique(rotations, rotation_node()),
    ensures
        tells_node(node_record(queue, rotations)(row), row, queue, rotations),
{
    assert({
        let taken = queued_revocation(row.id);
        any(queue, taken) == (exists|q: int|
            0 <= q < queue.len() && (#[trigger] queue[q]).node_id == row.id)
    }) by {
        let taken = queued_revocation(row.id);
        if exists|q: int| 0 <= q < queue.len() && (#[trigger] queue[q]).node_id == row.id {
            let q = choose|q: int| 0 <= q < queue.len() && (#[trigger] queue[q]).node_id == row.id;
            assert(taken(queue[q]));
        }
        if any(queue, taken) {
            let q = choose|q: int| 0 <= q < queue.len() && taken(#[trigger] queue[q]);
            assert(queue[q].node_id == row.id);
        }
    };
    assert({
        let taken = rotation_of(row.id);
        any(rotations, taken) == (exists|q: int|
            0 <= q < rotations.len() && (#[trigger] rotations[q]).node_id == row.id)
    }) by {
        let taken = rotation_of(row.id);
        if exists|q: int| 0 <= q < rotations.len() && (#[trigger] rotations[q]).node_id == row.id {
            let q = choose|q: int|
                0 <= q < rotations.len() && (#[trigger] rotations[q]).node_id == row.id;
            assert(taken(rotations[q]));
        }
        if any(rotations, taken) {
            let q = choose|q: int| 0 <= q < rotations.len() && taken(#[trigger] rotations[q]);
            assert(rotations[q].node_id == row.id);
        }
    };
    if exists|q: int| 0 <= q < rotations.len() && (#[trigger] rotations[q]).node_id == row.id {
        let p = choose|q: int|
            0 <= q < rotations.len() && (#[trigger] rotations[q]).node_id == row.id;
        lemma_sole(rotations, rotation_node(), rotation_of(row.id), p);
        assert forall|q: int| 0 <= q < rotations.len() && (#[trigger] rotations[q]).node_id
            == row.id implies q == p by {
            if q != p {
                assert(rotation_node()(rotations[p]) == rotation_node()(rotations[q]));
            }
        }
    } else {
        lemma_none(rotations, rotation_of(row.id));
    }
}

/// A node is read by its tenant, as it is stored.
pub proof fn a_node_is_read_as_stored(state: StoreView, c: ClockReadingView, id: Seq<char>, i: int)
    requires
        unique(state.nodes, node_id()),
        unique(state.node_key_rotations, rotation_node()),
        runs(state, c),
        0 <= i < state.nodes.len(),
        state.nodes[i].id == id,
    ensures
        ({
            let (after, reply) = state.node_by_id(c, id);
            &&& after == state.checkpoint_clock(c).0
            &&& reply is Ok
            &&& reply->Ok_0 is Some <==> state.nodes[i].tenant_id == state.tenant_id
            &&& reply->Ok_0 is Some ==> tells_node(
                reply->Ok_0->0,
                state.nodes[i],
                state.node_revocation_queue,
                state.node_key_rotations,
            )
        }),
{
    lemma_runs(state, c);
    lemma_sole(state.nodes, node_id(), node_with(id, state.tenant_id), i);
    lemma_tells_node(state.nodes[i], state.node_revocation_queue, state.node_key_rotations);
}

/// A node that nobody has is not read.
pub proof fn an_absent_node_is_not_read(state: StoreView, c: ClockReadingView, id: Seq<char>)
    requires
        runs(state, c),
        forall|q: int| 0 <= q < state.nodes.len() ==> (#[trigger] state.nodes[q]).id != id,
    ensures
        state.node_by_id(c, id) == (
            state.checkpoint_clock(c).0,
            Ok::<Option<NodeRecordView>, StoreError>(None),
        ),
{
    lemma_runs(state, c);
    lemma_none(state.nodes, node_with(id, state.tenant_id));
}

/// An enrollment that can be decided, whose name no node of the tenant has, is approved:
/// its node is stored, active, at its first key, with what was submitted, from now; the
/// key stands first in its history; the enrollment is at its next version; and the node
/// is told. Where the name is in use, or the enrollment cannot be decided, nothing
/// changes and no node is told. Where something was not submitted, or the node exists,
/// there is an error and nothing changes.
#[verifier::rlimit(40)]
pub proof fn a_submitted_enrollment_becomes_a_node(
    state: StoreView,
    c: ClockReadingView,
    id: Seq<char>,
    version: i64,
    fingerprint: Seq<char>,
    i: int,
)
    requires
        unique(state.enrollment_requests, enrollment_id()),
        unique(state.node_key_rotations, rotation_node()),
        runs(state, c),
        0 <= i < state.enrollment_requests.len(),
        state.enrollment_requests[i].record.id == id,
    ensures
        ({
            let (after, reply) = state.approve_enrollment(c, id, version, fingerprint);
            let s = state.checkpoint_clock(c).0;
            let row = state.enrollment_requests[i];
            let e = row.record;
            let named = exists|q: int|
                0 <= q < state.nodes.len() && (#[trigger] state.nodes[q]).tenant_id
                    == state.tenant_id && state.nodes[q].name == e.requested_name;
            let known = exists|q: int|
                0 <= q < state.node_key_history.len() && (
                #[trigger] state.node_key_history[q]).node_id == e.node_id
                    && state.node_key_history[q].key_version == 1;
            let node = NodeRowView {
                tenant_id: state.tenant_id,
                id: e.node_id,
                name: e.requested_name,
                signing_pub: e.signing_pub->0,
                recipient_pub: e.recipient_pub->0,
                key_version: 1,
                status: "active"@,
                protocol_version: e.protocol_version->0,
                capabilities_json: e.capabilities_json->0,
                last_seen_at_ms: None,
                last_poll_at_ms: None,
                created_at_ms: c.now_ms,
                revoked_at_ms: None,
                version: 1,
            };
            if !can_be_decided(state, row, version, fingerprint, c.now_ms) || named {
                after == s && reply == Ok::<Option<NodeRecordView>, StoreError>(None)
            } else if e.signing_pub is None || e.recipient_pub is None || e.protocol_version is None
                || e.capabilities_json is None || exists|q: int|
                    0 <= q < state.nodes.len()
                        && (#[trigger] state.nodes[q]).id == e.node_id || known
                || version == i64::MAX {
                after == s && reply is Err
            } else {
                &&& reply is Ok
                &&& reply->Ok_0 is Some
                &&& tells_node(
                    reply->Ok_0->0,
                    node,
                    state.node_revocation_queue,
                    state.node_key_rotations,
                )
                &&& after == (StoreView {
                    nodes: state.nodes.push(node),
                    node_key_history: state.node_key_history.push(
                        NodeKeyRowView {
                            node_id: e.node_id,
                            key_version: 1,
                            signing_pub: e.signing_pub->0,
                            recipient_pub: e.recipient_pub->0,
                            created_at_ms: c.now_ms,
                            retired_at_ms: None,
                        },
                    ),
                    enrollment_requests: state.enrollment_requests.update(
                        i,
                        EnrollmentRowView {
                            record: EnrollmentRecordView {
                                status: "approved"@,
                                version: (version + 1) as i64,
                                ..e
                            },
                            ..row
                        },
                    ),
                    ..s
                })
            }
        }),
{
    lemma_runs(state, c);
    let s = state.checkpoint_clock(c).0;
    let t = state.tenant_id;
    let row = state.enrollment_requests[i];
    let e = row.record;
    let hit = submitted_enrollment(id, t, version, fingerprint, Some(c.now_ms));
    lemma_sole(state.enrollment_requests, enrollment_id(), hit, i);
    let named = node_named(e.requested_name, t);
    assert(any(state.nodes, named) == exists|q: int|
        0 <= q < state.nodes.len() && (#[trigger] state.nodes[q]).tenant_id == state.tenant_id
            && state.nodes[q].name == e.requested_name) by {
        if exists|q: int|
            0 <= q < state.nodes.len() && (#[trigger] state.nodes[q]).tenant_id == state.tenant_id
                && state.nodes[q].name == e.requested_name {
            let q = choose|q: int|
                0 <= q < state.nodes.len() && (#[trigger] state.nodes[q]).tenant_id
                    == state.tenant_id && state.nodes[q].name == e.requested_name;
            assert(named(state.nodes[q]));
        }
    }
    let key = key_with(e.node_id, 1);
    assert(any(state.node_key_history, key) == exists|q: int|
        0 <= q < state.node_key_history.len() && (#[trigger] state.node_key_history[q]).node_id
            == e.node_id && state.node_key_history[q].key_version == 1) by {
        if exists|q: int|
            0 <= q < state.node_key_history.len() && (
            #[trigger] state.node_key_history[q]).node_id == e.node_id
                && state.node_key_history[q].key_version == 1 {
            let q = choose|q: int|
                0 <= q < state.node_key_history.len() && (
                #[trigger] state.node_key_history[q]).node_id == e.node_id
                    && state.node_key_history[q].key_version == 1;
            assert(key(state.node_key_history[q]));
        }
    }
    assert({
        let taken = node_taken(e.node_id);
        any(state.nodes, taken) == (exists|q: int|
            0 <= q < state.nodes.len() && (#[trigger] state.nodes[q]).id == e.node_id)
    }) by {
        let taken = node_taken(e.node_id);
        if exists|q: int|
            0 <= q < state.nodes.len() && (#[trigger] state.nodes[q]).id == e.node_id {
            let q = choose|q: int|
                0 <= q < state.nodes.len() && (#[trigger] state.nodes[q]).id == e.node_id;
            assert(taken(state.nodes[q]));
        }
        if any(state.nodes, taken) {
            let q = choose|q: int| 0 <= q < state.nodes.len() && taken(#[trigger] state.nodes[q]);
            assert(state.nodes[q].id == e.node_id);
        }
    };
    if hit(row) {
        lemma_sole(
            state.enrollment_requests,
            enrollment_id(),
            submitted_enrollment(e.id, t, e.version, fingerprint, Some(c.now_ms)),
            i,
        );
        if let Ok(after) = s.insert_approved_node(e, fingerprint, Some(c.now_ms)) {
            let node = after.nodes.last();
            assert(after.nodes =~= state.nodes.push(node));
            let wanted = node_with(e.node_id, t);
            assert forall|q: int| 0 <= q < state.nodes.len() implies !wanted(
                #[trigger] state.nodes[q],
            ) by {
                assert(!node_taken(e.node_id)(state.nodes[q]));
            }
            lemma_none(state.nodes, wanted);
            lemma_push_found(state.nodes, node, wanted);
            lemma_tells_node(node, state.node_revocation_queue, state.node_key_rotations);
        }
    }
}

} // verus!
