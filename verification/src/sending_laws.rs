//! What it means that a document is sent to a node.

use crate::error::{DatabaseFault, StoreError};
use crate::inbox::last_seq;
use crate::store::StoreView;
use crate::tables::InboxRowView;
use crate::text::byte_count;
use vstd::prelude::*;

verus! {

/// Whether a document has a size that is sent: not empty, and at most 64 KiB.
pub open spec fn sendable(text: Seq<char>) -> bool {
    0 < text.len() && byte_count(text) <= 65_536
}

/// Whether the inbox of a node has a number left for each of some more documents.
pub open spec fn roomy(inbox: Seq<InboxRowView>, node: Seq<char>, more: int) -> bool {
    forall|j: int|
        0 <= j < inbox.len() && (#[trigger] inbox[j]).node_id == node ==> inbox[j].seq + more
            <= i64::MAX
}

/// Whether one document was sent to a node at a moment: it stands behind everything
/// else in the inbox, neither delivered nor acknowledged, under the number that follows
/// the highest one of the node, or under one where the node had none.
pub open spec fn sent(
    before: Seq<InboxRowView>,
    after: Seq<InboxRowView>,
    node: Seq<char>,
    text: Seq<char>,
    at_ms: i64,
) -> bool {
    &&& after.len() == before.len() + 1
    &&& after.drop_last() == before
    &&& after.last().node_id == node
    &&& after.last().envelope_json == text
    &&& after.last().created_at_ms == at_ms
    &&& after.last().delivered_at_ms is None
    &&& after.last().acked_at_ms is None
    &&& forall|j: int|
        0 <= j < before.len() && (#[trigger] before[j]).node_id == node ==> before[j].seq
            < after.last().seq
    &&& (after.last().seq == 1 && forall|j: int|
        0 <= j < before.len() ==> (#[trigger] before[j]).node_id != node) || exists|j: int|
        0 <= j < before.len() && (#[trigger] before[j]).node_id == node && before[j].seq + 1
            == after.last().seq
}

/// The number that is found is the highest one of the node.
proof fn lemma_last_seq(rows: Seq<InboxRowView>, node: Seq<char>)
    ensures
        match last_seq(rows, node) {
            None => forall|j: int| 0 <= j < rows.len() ==> (#[trigger] rows[j]).node_id != node,
            Some(seq) => {
                &&& exists|j: int|
                    0 <= j < rows.len() && (#[trigger] rows[j]).node_id == node && rows[j].seq
                        == seq
                &&& forall|j: int|
                    0 <= j < rows.len() && (#[trigger] rows[j]).node_id == node ==> rows[j].seq
                        <= seq
            },
        },
    decreases rows.len(),
{
    if rows.len() > 0 {
        let rest = rows.drop_last();
        lemma_last_seq(rest, node);
        assert forall|j: int| 0 <= j < rest.len() implies rest[j] == #[trigger] rows[j] by {}
        let last = rows[rows.len() - 1];
        if last_seq(rest, node) is Some {
            let j = choose|j: int|
                0 <= j < rest.len() && (#[trigger] rest[j]).node_id == node && rest[j].seq
                    == last_seq(rest, node)->0;
            assert(rows[j].node_id == node);
        }
        if last.node_id == node {
            assert(rows[rows.len() - 1].seq == last.seq);
        }
    }
}

/// A document of a sendable size is sent where the node has a number left, and
/// nothing else changes. Otherwise the error says which of both is missing.
pub proof fn a_document_is_sent_behind_the_others(
    state: StoreView,
    node: Seq<char>,
    text: Seq<char>,
    now: Option<i64>,
)
    ensures
        ({
            let reply = state.enqueue(node, text, now);
            if !sendable(text) {
                reply == Err::<StoreView, StoreError>(
                    StoreError::InvalidInput("signed node document size"),
                )
            } else if !roomy(state.node_inbox, node, 1) {
                reply == Err::<StoreView, StoreError>(
                    StoreError::InvalidInput("node inbox sequence"),
                )
            } else if now is None {
                reply == Err::<StoreView, StoreError>(
                    StoreError::Database(DatabaseFault::ClockBehind),
                )
            } else {
                &&& reply is Ok
                &&& reply->Ok_0 == (StoreView { node_inbox: reply->Ok_0.node_inbox, ..state })
                &&& sent(state.node_inbox, reply->Ok_0.node_inbox, node, text, now->0)
            }
        }),
{
    let rows = state.node_inbox;
    lemma_last_seq(rows, node);
    if last_seq(rows, node) == Some(i64::MAX) {
        let j = choose|j: int|
            0 <= j < rows.len() && (#[trigger] rows[j]).node_id == node && rows[j].seq == i64::MAX;
        assert(rows[j].seq + 1 > i64::MAX);
    } else {
        assert(roomy(rows, node, 1));
    }
    if state.enqueue(node, text, now) is Ok {
        let after = state.enqueue(node, text, now)->Ok_0.node_inbox;
        assert(after.drop_last() =~= rows);
    }
}

/// Whether two documents were sent to a node at a moment, one behind the other.
pub open spec fn sent_both(
    before: Seq<InboxRowView>,
    after: Seq<InboxRowView>,
    node: Seq<char>,
    one: Seq<char>,
    two: Seq<char>,
    at_ms: i64,
) -> bool {
    &&& after.len() == before.len() + 2
    &&& sent(before, after.drop_last(), node, one, at_ms)
    &&& sent(after.drop_last(), after, node, two, at_ms)
}

/// A workload's policy and registration are sent in this order, or neither is.
pub proof fn a_registration_follows_its_policy(
    state: StoreView,
    node: Seq<char>,
    registration_json: Seq<char>,
    policy_json: Seq<char>,
    now_ms: i64,
)
    ensures
        ({
            let reply = state.send_registration(
                node,
                registration_json,
                policy_json,
                Some(now_ms),
            );
            &&& reply is Ok <==> sendable(policy_json) && sendable(registration_json) && roomy(
                state.node_inbox,
                node,
                2,
            )
            &&& reply is Ok ==> {
                &&& reply->Ok_0 == (StoreView { node_inbox: reply->Ok_0.node_inbox, ..state })
                &&& sent_both(
                    state.node_inbox,
                    reply->Ok_0.node_inbox,
                    node,
                    policy_json,
                    registration_json,
                    now_ms,
                )
            }
        }),
{
    let now = Some(now_ms);
    a_document_is_sent_behind_the_others(state, node, policy_json, now);
    if state.enqueue(node, policy_json, now) is Ok {
        let mid = state.enqueue(node, policy_json, now)->Ok_0;
        a_document_is_sent_behind_the_others(mid, node, registration_json, now);
        let before = state.node_inbox;
        let after = mid.node_inbox;
        assert forall|j: int| 0 <= j < before.len() implies before[j] == #[trigger] after[j] by {
            assert(before[j] == after.drop_last()[j]);
        }
        if roomy(before, node, 2) {
            assert forall|j: int| 0 <= j < after.len() && (#[trigger] after[j]).node_id
                == node implies after[j].seq + 1 <= i64::MAX by {
                if j < before.len() {
                    assert(before[j].node_id == node);
                }
            }
        } else {
            let j = choose|j: int|
                0 <= j < before.len() && (#[trigger] before[j]).node_id == node && before[j].seq
                    + 2 > i64::MAX;
            assert(before[j].seq < after.last().seq);
            assert(after[after.len() - 1].node_id == node);
            assert(!roomy(after, node, 1));
        }
    }
}

} // verus!
