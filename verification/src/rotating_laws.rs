//! What the end of a key rotation does, by what the rotation and the node say.

use crate::clock::ClockReadingView;
use crate::error::{DatabaseFault, StoreError};
use crate::keys::{node_id, rotation_node};
use crate::moment_laws::{lemma_runs, runs};
use crate::node_authority::{
    key_with, node_with, queued_revocation, rotatable_node, rotation_with,
};
use crate::relation::any;
use crate::relation_laws::{lemma_none, lemma_sole, unique};
use crate::store::StoreView;
use crate::tables::{NodeKeyRowView, NodeRowView, NodeSessionRowView};
use vstd::prelude::*;

verus! {

/// Whether a node can move to another key: it is a node of the tenant, still at the key
/// that it leaves, and it is active or waits to be told that it was revoked.
pub open spec fn can_move(state: StoreView, row: NodeRowView, from_key_version: i64) -> bool {
    row.tenant_id == state.tenant_id && row.key_version == from_key_version && (row.status
        == "active"@ || (row.status == "revoked"@ && exists|q: int|
        0 <= q < state.node_revocation_queue.len() && (
        #[trigger] state.node_revocation_queue[q]).node_id == row.id))
}

/// A rotation that is pending for a node is completed under its version and its
/// fingerprint, where the node can move. The node then has the new key at its next
/// version, the old key is retired now, the sessions of the node are revoked now, and
/// the rotation is gone. In every other case nothing changes.
#[verifier::rlimit(30)]
pub proof fn a_completed_rotation_moves_the_node_to_its_new_key(
    state: StoreView,
    c: ClockReadingView,
    node: Seq<char>,
    rotation_id: Seq<char>,
    key_version: i64,
    fingerprint: Seq<char>,
    history_fingerprint: Option<Seq<char>>,
    i: int,
    r: int,
)
    requires
        unique(state.nodes, node_id()),
        unique(state.node_key_rotations, rotation_node()),
        runs(state, c),
        0 <= i < state.nodes.len(),
        state.nodes[i].id == node,
        0 <= r < state.node_key_rotations.len(),
        state.node_key_rotations[r].node_id == node,
        state.node_key_rotations[r].rotation_id == rotation_id,
    ensures
        ({
            let (after, reply) = state.complete_node_key_rotation(
                c,
                node,
                rotation_id,
                key_version,
                fingerprint,
                history_fingerprint,
            );
            let s = state.checkpoint_clock(c).0;
            let row = state.nodes[i];
            let rotation = state.node_key_rotations[r];
            if key_version != rotation.to_key_version || fingerprint != rotation.fingerprint
                || !can_move(state, row, rotation.from_key_version) {
                after == s && reply == Ok::<bool, StoreError>(false)
            } else if row.version == i64::MAX {
                after == s
                    && reply == Err::<bool, StoreError>(
                        StoreError::Database(DatabaseFault::OutOfRange),
                    )
            } else {
                &&& reply == Ok::<bool, StoreError>(true)
                &&& after == (StoreView {
                    nodes: state.nodes.update(
                        i,
                        NodeRowView {
                            signing_pub: rotation.signing_pub,
                            recipient_pub: rotation.recipient_pub,
                            key_version: rotation.to_key_version,
                            version: (row.version + 1) as i64,
                            ..row
                        },
                    ),
                    node_key_rotations: state.node_key_rotations.remove(r),
                    node_key_history: after.node_key_history,
                    node_sessions: after.node_sessions,
                    ..s
                })
                &&& after.node_key_history.len() == state.node_key_history.len()
                &&& forall|q: int|
                    0 <= q < state.node_key_history.len() ==> #[trigger] after.node_key_history[q]
                        == {
                        let key = state.node_key_history[q];
                        if key.node_id == node && key.key_version == rotation.from_key_version
                            && key.retired_at_ms is None {
                            NodeKeyRowView { retired_at_ms: Some(c.now_ms), ..key }
                        } else {
                            key
                        }
                    }
                &&& after.node_sessions.len() == state.node_sessions.len()
                &&& forall|q: int|
                    0 <= q < state.node_sessions.len() ==> #[trigger] after.node_sessions[q] == {
                        let session = state.node_sessions[q];
                        if session.node_id == node && session.revoked_at_ms is None {
                            NodeSessionRowView { revoked_at_ms: Some(c.now_ms), ..session }
                        } else {
                            session
                        }
                    }
            }
        }),
{
    lemma_runs(state, c);
    let rotation = state.node_key_rotations[r];
    lemma_sole(
        state.node_key_rotations,
        rotation_node(),
        rotation_with(node, rotation_id),
        r,
    );
    lemma_sole(
        state.nodes,
        node_id(),
        rotatable_node(
            state.node_revocation_queue,
            node,
            state.tenant_id,
            rotation.from_key_version,
        ),
        i,
    );
    assert({
        let taken = queued_revocation(node);
        any(state.node_revocation_queue, taken) == (exists|q: int|
            0 <= q < state.node_revocation_queue.len()
                && (#[trigger] state.node_revocation_queue[q]).node_id == node)
    }) by {
        let taken = queued_revocation(node);
        if exists|q: int|
            0 <= q < state.node_revocation_queue.len()
                && (#[trigger] state.node_revocation_queue[q]).node_id == node {
            let q = choose|q: int|
                0 <= q < state.node_revocation_queue.len()
                    && (#[trigger] state.node_revocation_queue[q]).node_id == node;
            assert(taken(state.node_revocation_queue[q]));
        }
        if any(state.node_revocation_queue, taken) {
            let q = choose|q: int|
                0 <= q < state.node_revocation_queue.len()
                    && taken(#[trigger] state.node_revocation_queue[q]);
            assert(state.node_revocation_queue[q].node_id == node);
        }
    };
}

/// Where the rotation is not pending, nothing changes. The answer tells whether the
/// node is at the version that it names, under a key of its history whose fingerprint
/// is the one that it names.
pub proof fn a_rotation_that_is_gone_was_completed_where_the_key_is_current(
    state: StoreView,
    c: ClockReadingView,
    node: Seq<char>,
    rotation_id: Seq<char>,
    key_version: i64,
    fingerprint: Seq<char>,
    history_fingerprint: Option<Seq<char>>,
    i: int,
)
    requires
        unique(state.nodes, node_id()),
        runs(state, c),
        0 <= i < state.nodes.len(),
        state.nodes[i].id == node,
        forall|q: int|
            0 <= q < state.node_key_rotations.len() ==> !((
            #[trigger] state.node_key_rotations[q]).node_id == node
                && state.node_key_rotations[q].rotation_id == rotation_id),
    ensures
        state.complete_node_key_rotation(
            c,
            node,
            rotation_id,
            key_version,
            fingerprint,
            history_fingerprint,
        ) == (
            state.checkpoint_clock(c).0,
            Ok::<bool, StoreError>(
                state.nodes[i].tenant_id == state.tenant_id && state.nodes[i].key_version
                    == key_version && history_fingerprint == Some(fingerprint) && exists|q: int|
                    0 <= q < state.node_key_history.len() && (
                    #[trigger] state.node_key_history[q]).node_id == node
                        && state.node_key_history[q].key_version == key_version,
            ),
        ),
{
    lemma_runs(state, c);
    lemma_none(state.node_key_rotations, rotation_with(node, rotation_id));
    lemma_sole(state.nodes, node_id(), node_with(node, state.tenant_id), i);
    let rows = state.node_key_history;
    let key = key_with(node, key_version);
    if exists|q: int|
        0 <= q < rows.len() && (#[trigger] rows[q]).node_id == node && rows[q].key_version
            == key_version {
        let q = choose|q: int|
            0 <= q < rows.len() && (#[trigger] rows[q]).node_id == node && rows[q].key_version
                == key_version;
        assert(key(rows[q]));
    }
    if any(rows, key) {
        let q = choose|q: int| 0 <= q < rows.len() && key(#[trigger] rows[q]);
        assert(rows[q].node_id == node && rows[q].key_version == key_version);
    }
}

} // verus!
