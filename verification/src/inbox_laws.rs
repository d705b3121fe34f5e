//! What holds of the inboxes that nodes drain.

use crate::clock::ClockReadingView;
use crate::inbox::last_seq;
use crate::keys::inbox_place;
use crate::node_channel::{
    acknowledged, document_acked, document_delivered, inbox_document, inbox_page, outstanding,
    paged, sequence_order, INBOX_PAGE,
};
use crate::records::InboxDocumentView;
use crate::relation::{any, lemma_filter_push, ordered, page, selected, updated};
use crate::relation_laws::{
    lemma_filter_members, lemma_unique_push, ordered_is_a_sorted_permutation, sorted,
    strict_weak_order, unique,
};
use crate::store::StoreView;
use crate::tables::InboxRowView;
use vstd::prelude::*;

verus! {

/// No document of a node has a higher number than the last one.
proof fn lemma_last_seq(rows: Seq<InboxRowView>, node: Seq<char>)
    ensures
        forall|i: int|
            0 <= i < rows.len() && (#[trigger] rows[i]).node_id == node ==> last_seq(rows, node)
                is Some && rows[i].seq <= last_seq(rows, node)->0,
    decreases rows.len(),
{
    if rows.len() > 0 {
        let rest = rows.drop_last();
        lemma_last_seq(rest, node);
        assert forall|i: int|
            0 <= i < rows.len() && (#[trigger] rows[i]).node_id == node implies last_seq(rows, node)
            is Some && rows[i].seq <= last_seq(rows, node)->0 by {
            if i < rest.len() {
                assert(rest[i] == rows[i]);
            }
        }
    }
}

/// A new document has a higher number than every other one of its node, and no
/// other document changes. So no two documents of a node share a number.
pub proof fn documents_are_numbered_in_order(
    state: StoreView,
    node: Seq<char>,
    envelope_json: Seq<char>,
    now: Option<i64>,
)
    requires
        state.enqueue(node, envelope_json, now) is Ok,
    ensures
        ({
            let after = state.enqueue(node, envelope_json, now)->Ok_0.node_inbox;
            let fresh = after.last();
            &&& after == state.node_inbox.push(fresh)
            &&& fresh.node_id == node
            &&& fresh.envelope_json == envelope_json
            &&& forall|i: int|
                0 <= i < state.node_inbox.len() && (#[trigger] state.node_inbox[i]).node_id == node
                    ==> state.node_inbox[i].seq < fresh.seq
            &&& unique(state.node_inbox, inbox_place()) ==> unique(after, inbox_place())
        }),
{
    let rows = state.node_inbox;
    lemma_last_seq(rows, node);
    let fresh = state.enqueue(node, envelope_json, now)->Ok_0.node_inbox.last();
    let place = inbox_place();
    let clash = |row: InboxRowView| place(row) == place(fresh);
    if unique(rows, place) {
        assert forall|i: int| 0 <= i < rows.len() implies !clash(#[trigger] rows[i]) by {}
        assert(!any(rows, clash));
        lemma_unique_push(rows, place, fresh);
    }
}

/// Sequence numbers order documents strictly.
proof fn lemma_sequence_order()
    ensures
        strict_weak_order(sequence_order()),
{
}

/// What a poll delivers is what waits for the node, lowest number first, up to
/// the size of a page; a shorter delivery is all that waits.
pub proof fn a_poll_delivers_in_order(
    state: StoreView,
    c: ClockReadingView,
    node: Seq<char>,
    ack_seq: Option<i64>,
)
    requires
        state.checkpoint_clock(c).1 is Ok,
    ensures
        ({
            let (after, reply) = state.poll_node_inbox(c, node, ack_seq);
            let waiting = ordered(
                selected(after.node_inbox, outstanding(node), inbox_document()),
                sequence_order(),
            );
            let documents = reply->Ok_0;
            &&& reply is Ok
            &&& documents.len() <= INBOX_PAGE
            &&& sorted(documents, sequence_order())
            &&& documents == page(waiting, INBOX_PAGE as int)
            &&& documents.len() < INBOX_PAGE ==> documents.to_multiset() == selected(
                after.node_inbox,
                outstanding(node),
                inbox_document(),
            ).to_multiset()
        }),
{
    let s = state.checkpoint_clock(c).0;
    let now = s.now(c.now_ms);
    let acked = match ack_seq {
        Some(seq) => updated(s.node_inbox, acknowledged(node, seq), document_acked(now)),
        None => s.node_inbox,
    };
    let documents = inbox_page(acked, node);
    lemma_delivery_keeps(acked, paged(documents, node), now, node);
    lemma_sequence_order();
    ordered_is_a_sorted_permutation(
        selected(acked, outstanding(node), inbox_document()),
        sequence_order(),
    );
}

/// Noting a delivery changes nothing of what waits for a node.
proof fn lemma_delivery_keeps(
    rows: Seq<InboxRowView>,
    hit: spec_fn(InboxRowView) -> bool,
    now: Option<i64>,
    node: Seq<char>,
)
    ensures
        selected(updated(rows, hit, document_delivered(now)), outstanding(node), inbox_document())
            == selected(rows, outstanding(node), inbox_document()),
    decreases rows.len(),
{
    let after = updated(rows, hit, document_delivered(now));
    let waiting = outstanding(node);
    reveal(Seq::filter);
    if rows.len() > 0 {
        let rest = rows.drop_last();
        lemma_delivery_keeps(rest, hit, now, node);
        assert(after.drop_last() =~= updated(rest, hit, document_delivered(now)));
        assert(rows =~= rest.push(rows.last()));
        assert(after =~= after.drop_last().push(after.last()));
        lemma_filter_push(rest, rows.last(), waiting);
        lemma_filter_push(after.drop_last(), after.last(), waiting);
        let before = rest.filter(waiting);
        let kept = after.drop_last().filter(waiting);
        assert(before.push(rows.last()).map_values(inbox_document()) =~= before.map_values(
            inbox_document(),
        ).push(inbox_document()(rows.last())));
        assert(kept.push(after.last()).map_values(inbox_document()) =~= kept.map_values(
            inbox_document(),
        ).push(inbox_document()(after.last())));
    } else {
        assert(after =~= rows);
    }
}

/// What is not acknowledged is delivered again.
pub proof fn delivery_repeats_until_acknowledged(
    state: StoreView,
    c: ClockReadingView,
    node: Seq<char>,
    ack_seq: Option<i64>,
    later: ClockReadingView,
)
    requires
        state.checkpoint_clock(c).1 is Ok,
        state.poll_node_inbox(c, node, ack_seq).0.checkpoint_clock(later).1 is Ok,
    ensures
        state.poll_node_inbox(c, node, ack_seq).0.poll_node_inbox(later, node, None).1
            == state.poll_node_inbox(c, node, ack_seq).1,
{
    a_poll_delivers_in_order(state, c, node, ack_seq);
}

/// A document that was delivered and then acknowledged no longer waits for its
/// node, and is in no later delivery.
pub proof fn an_acknowledged_document_is_gone(
    state: StoreView,
    c: ClockReadingView,
    node: Seq<char>,
    later: ClockReadingView,
    ack_seq: i64,
    k: int,
)
    requires
        state.checkpoint_clock(c).1 is Ok,
        c.now_ms >= state.checkpoint_clock(c).0.clock.last_observed_ms,
        ({
            let (delivered, reply) = state.poll_node_inbox(c, node, None);
            let (then, gate) = delivered.checkpoint_clock(later);
            &&& 0 <= k < reply->Ok_0.len()
            &&& reply->Ok_0[k].seq <= ack_seq
            &&& gate is Ok
            &&& later.now_ms >= then.clock.last_observed_ms
        }),
    ensures
        ({
            let (delivered, reply) = state.poll_node_inbox(c, node, None);
            let (after, next) = delivered.poll_node_inbox(later, node, Some(ack_seq));
            &&& next is Ok
            &&& !any(
                next->Ok_0,
                |document: InboxDocumentView| document.seq == reply->Ok_0[k].seq,
            )
            &&& !any(
                after.node_inbox,
                |row: InboxRowView| outstanding(node)(row) && row.seq == reply->Ok_0[k].seq,
            )
        }),
{
    let (delivered, reply) = state.poll_node_inbox(c, node, None);
    let (after, next) = delivered.poll_node_inbox(later, node, Some(ack_seq));
    let seq = reply->Ok_0[k].seq;
    let now = state.checkpoint_clock(c).0.now(c.now_ms);
    let then = delivered.checkpoint_clock(later).0.now(later.now_ms);
    let same = |document: InboxDocumentView| document.seq == seq;
    let hit = acknowledged(node, ack_seq);
    let acked = updated(delivered.node_inbox, hit, document_acked(then));
    assert(same(reply->Ok_0[k]));
    assert forall|i: int| 0 <= i < acked.len() implies !(outstanding(node)(#[trigger] acked[i])
        && acked[i].seq == seq) by {
        let row = state.node_inbox[i];
        if outstanding(node)(row) && row.seq == seq {
            assert(any(
                reply->Ok_0,
                |document: InboxDocumentView| document.seq == row.seq,
            )) by {
                let matching = |document: InboxDocumentView| document.seq == row.seq;
                assert(matching(reply->Ok_0[k]));
            }
            assert(paged(reply->Ok_0, node)(row));
            assert(delivered.node_inbox[i].delivered_at_ms is Some);
            assert(hit(delivered.node_inbox[i]));
        }
    }
    let gone = |row: InboxRowView| outstanding(node)(row) && row.seq == seq;
    assert forall|i: int| 0 <= i < after.node_inbox.len() implies !gone(
        #[trigger] after.node_inbox[i],
    ) by {
        assert(!gone(acked[i]));
    }
    lemma_page_members(acked, node);
    assert forall|j: int| 0 <= j < next->Ok_0.len() implies !same(#[trigger] next->Ok_0[j]) by {
        let i = choose|i: int|
            0 <= i < acked.len() && outstanding(node)(#[trigger] acked[i]) && inbox_document()(
                acked[i],
            ) == next->Ok_0[j];
        assert(acked[i].seq == next->Ok_0[j].seq);
    }
}

/// Whether a document waits for a node.
spec fn waits(rows: Seq<InboxRowView>, node: Seq<char>, document: InboxDocumentView) -> bool {
    exists|i: int|
        0 <= i < rows.len() && outstanding(node)(#[trigger] rows[i]) && inbox_document()(rows[i])
            == document
}

/// Every document of a page is one that waits.
proof fn lemma_page_members(rows: Seq<InboxRowView>, node: Seq<char>)
    ensures
        forall|j: int|
            0 <= j < inbox_page(rows, node).len() ==> waits(
                rows,
                node,
                #[trigger] inbox_page(rows, node)[j],
            ),
{
    broadcast use vstd::seq_lib::group_to_multiset_ensures;

    let waiting = outstanding(node);
    let picked = selected(rows, waiting, inbox_document());
    let list = ordered(picked, sequence_order());
    lemma_sequence_order();
    ordered_is_a_sorted_permutation(picked, sequence_order());
    lemma_filter_members(rows, waiting);
    assert forall|j: int| 0 <= j < inbox_page(rows, node).len() implies waits(
        rows,
        node,
        #[trigger] inbox_page(rows, node)[j],
    ) by {
        let document = inbox_page(rows, node)[j];
        assert(list[j] == document);
        assert(list.contains(document));
        assert(list.to_multiset().count(document) > 0);
        assert(picked.contains(document));
        let m = choose|m: int| 0 <= m < picked.len() && picked[m] == document;
        let row = rows.filter(waiting)[m];
        assert(rows.filter(waiting).contains(row));
        let i = choose|i: int| 0 <= i < rows.len() && rows[i] == row;
        assert(outstanding(node)(rows[i]));
    }
}

/// A poll acknowledges nothing that was not delivered before it, whatever number
/// it names.
pub proof fn only_delivered_documents_are_acknowledged(
    state: StoreView,
    c: ClockReadingView,
    node: Seq<char>,
    ack_seq: Option<i64>,
    i: int,
)
    requires
        state.checkpoint_clock(c).1 is Ok,
        0 <= i < state.node_inbox.len(),
        state.node_inbox[i].delivered_at_ms is None || state.node_inbox[i].node_id != node,
    ensures
        state.poll_node_inbox(c, node, ack_seq).0.node_inbox[i].acked_at_ms
            == state.node_inbox[i].acked_at_ms,
{
}

} // verus!
