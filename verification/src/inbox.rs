//! The inbox of signed documents that each node drains.

use crate::documents::{is_sized, sized};
use crate::error::{DatabaseFault, StoreError};
use crate::relation::rows_view;
use crate::store::{stepped, Store, StoreView};
use crate::tables::{InboxRow, InboxRowView};
use crate::text::same;
use vstd::prelude::*;

verus! {

/// The highest sequence number in a node's inbox.
pub open spec fn last_seq(rows: Seq<InboxRowView>, node_id: Seq<char>) -> Option<i64>
    decreases rows.len(),
{
    if rows.len() == 0 {
        None
    } else {
        let rest = last_seq(rows.drop_last(), node_id);
        if rows.last().node_id != node_id {
            rest
        } else {
            match rest {
                Some(seq) if seq >= rows.last().seq => Some(seq),
                _ => Some(rows.last().seq),
            }
        }
    }
}

/// A document as it enters an inbox.
pub open spec fn fresh_document(
    node_id: Seq<char>,
    seq: i64,
    envelope_json: Seq<char>,
    created_at_ms: i64,
) -> InboxRowView {
    InboxRowView {
        node_id,
        seq,
        envelope_json,
        created_at_ms,
        delivered_at_ms: None,
        acked_at_ms: None,
    }
}

impl StoreView {
    /// The state with one more document at the end of a node's inbox.
    pub open spec fn enqueue(
        self,
        node_id: Seq<char>,
        envelope_json: Seq<char>,
        now: Option<i64>,
    ) -> Result<StoreView, StoreError> {
        let current = match last_seq(self.node_inbox, node_id) {
            Some(seq) => seq,
            None => 0,
        };
        if !sized(envelope_json) {
            Err(StoreError::InvalidInput("signed node document size"))
        } else if current == i64::MAX {
            Err(StoreError::InvalidInput("node inbox sequence"))
        } else {
            match now {
                None => Err(StoreError::Database(DatabaseFault::ClockBehind)),
                Some(at_ms) => Ok(
                    StoreView {
                        node_inbox: self.node_inbox.push(
                            fresh_document(node_id, (current + 1) as i64, envelope_json, at_ms),
                        ),
                        ..self
                    },
                ),
            }
        }
    }
}

impl Store {
    fn last_inbox_seq(&self, node_id: &str) -> (last: Option<i64>)
        ensures
            last == last_seq(self@.node_inbox, node_id@),
    {
        let ghost rv = rows_view(self.node_inbox@);
        let mut last: Option<i64> = None;
        let mut i: usize = 0;
        while i < self.node_inbox.len()
            invariant
                i <= self.node_inbox@.len(),
                rv == rows_view(self.node_inbox@),
                last == last_seq(rv.take(i as int), node_id@),
            decreases self.node_inbox@.len() - i,
        {
            proof {
                assert(rv.take(i + 1).drop_last() =~= rv.take(i as int));
                assert(rv.take(i + 1).last() == rv[i as int]);
            }
            if same(&self.node_inbox[i].node_id, node_id) {
                let seq: i64 = self.node_inbox[i].seq;
                last = match last {
                    Some(known) => if known >= seq {
                        Some(known)
                    } else {
                        Some(seq)
                    },
                    None => Some(seq),
                };
            }
            i = i + 1;
        }
        proof {
            assert(rv.take(i as int) =~= rv);
        }
        last
    }

    /// Append a signed document to a node's inbox.
    pub(crate) fn enqueue_node_document(
        &mut self,
        node_id: &str,
        envelope_json: &str,
        now: Option<i64>,
    ) -> (reply: Result<(), StoreError>)
        ensures
            stepped(
                old(self)@.enqueue(node_id@, envelope_json@, now),
                final(self)@,
                reply,
            ),
    {
        if !is_sized(envelope_json) {
            return Err(StoreError::InvalidInput("signed node document size"));
        }
        let current: i64 = match self.last_inbox_seq(node_id) {
            Some(seq) => seq,
            None => 0,
        };
        if current == i64::MAX {
            return Err(StoreError::InvalidInput("node inbox sequence"));
        }
        let created_at_ms: i64 = match now {
            Some(at_ms) => at_ms,
            None => {
                return Err(StoreError::Database(DatabaseFault::ClockBehind));
            },
        };
        let ghost before = self@.node_inbox;
        let document = InboxRow {
            node_id: node_id.to_owned(),
            seq: current + 1,
            envelope_json: envelope_json.to_owned(),
            created_at_ms,
            delivered_at_ms: None,
            acked_at_ms: None,
        };
        let ghost pushed = document@;
        self.node_inbox.push(document);
        proof {
            assert(self@.node_inbox =~= before.push(pushed));
        }
        Ok(())
    }
}

} // verus!
