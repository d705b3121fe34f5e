//! What holds of the lists that are read page by page.

use crate::approvals::{approval_of, approval_order, listed_approval};
use crate::audit::{audit_of, event_ahead, newest_first};
use crate::authorization::{
    listed_operation, listed_operation_approval, oldest_approval, oldest_operation,
    operation_approval_of, operation_of, wanted_status,
};
use crate::clock::ClockReadingView;
use crate::fleet::{
    enrollment_of, listed_enrollment, listed_node, newest_enrollment, newest_node, node_record,
};
use crate::grants::{grant_of, listed_grant, oldest_grant};
use crate::keys::{
    approval_reference, enrollment_id, event_id, grant_id, node_id, operation_approval_id,
    operation_id, workload_id,
};
use crate::limits::page_size;
use crate::paging::place_before;
use crate::records::{
    ApprovalRecordView, AuditRecordView, EnrollmentRecordView, GrantRecordView, NodeRecordView,
    OperationApprovalRecordView, OperationRecordView, WorkloadRecordView,
};
use crate::relation::{any, lemma_filter_none, lemma_filter_push, ordered, page, placed, selected};
use crate::relation_laws::{
    lemma_filter_members, lemma_placed_sorted, lemma_unique_filter, lemma_unique_push,
    ordered_is_a_sorted_permutation, sorted, strict_weak_order, unique,
};
use crate::store::StoreView;
use crate::text::text_before;
use crate::workloads::{listed_workload, newest_workload, workload_of};
use vstd::prelude::*;

verus! {

/// Texts are ordered strictly.
proof fn lemma_text_irreflexive(a: Seq<char>)
    ensures
        !text_before(a, a),
    decreases a.len(),
{
    if a.len() > 0 {
        lemma_text_irreflexive(a.skip(1));
    }
}

proof fn lemma_text_transitive(a: Seq<char>, b: Seq<char>, c: Seq<char>)
    ensures
        text_before(a, b) && text_before(b, c) ==> text_before(a, c),
    decreases a.len(),
{
    if a.len() > 0 && b.len() > 0 && c.len() > 0 {
        lemma_text_transitive(a.skip(1), b.skip(1), c.skip(1));
    }
}

/// Characters differ by their code points.
proof fn lemma_codes_differ(a: char, b: char)
    ensures
        a != b ==> a as u32 != b as u32,
{
}

proof fn lemma_text_total(a: Seq<char>, b: Seq<char>)
    ensures
        a == b || text_before(a, b) || text_before(b, a),
    decreases a.len(),
{
    if a.len() == 0 || b.len() == 0 {
        if a.len() == 0 && b.len() == 0 {
            assert(a =~= b);
        }
    } else {
        lemma_text_total(a.skip(1), b.skip(1));
        if a[0] == b[0] {
            if a.skip(1) == b.skip(1) {
                assert(a =~= seq![a[0]] + a.skip(1));
                assert(b =~= seq![b[0]] + b.skip(1));
            }
            assert(a == b || text_before(a, b) || text_before(b, a));
        } else {
            lemma_codes_differ(a[0], b[0]);
            assert(text_before(a, b) || text_before(b, a));
        }
    }
}

/// A text comes before another one, behind it, or is the same, and only one of
/// these; and what comes before something that comes before a third comes
/// before the third.
pub proof fn texts_are_strictly_ordered(a: Seq<char>, b: Seq<char>, c: Seq<char>)
    ensures
        a == b || text_before(a, b) || text_before(b, a),
        !(text_before(a, b) && text_before(b, a)),
        a == b ==> !text_before(a, b),
        text_before(a, b) && text_before(b, c) ==> text_before(a, c),
{
    lemma_text_total(a, b);
    lemma_text_irreflexive(a);
    lemma_text_transitive(a, b, a);
    lemma_text_transitive(a, b, c);
}

/// An order by place is a strict order in which only equal places are tied.
pub(crate) proof fn lemma_place_order<W>(before: spec_fn(W, W) -> bool, place: spec_fn(W) -> (i64, Seq<char>))
    requires
        (forall|a: W, b: W| #[trigger]
            before(a, b) == place_before(place(a).0, place(a).1, place(b).0, place(b).1)) || (
        forall|a: W, b: W| #[trigger]
            before(a, b) == place_before(place(b).0, place(b).1, place(a).0, place(a).1)),
    ensures
        strict_weak_order(before),
        forall|a: W, b: W| place(a).1 != place(b).1 ==> #[trigger] before(a, b) || before(b, a),
{
    assert forall|a: W| !#[trigger] before(a, a) by {
        lemma_text_irreflexive(place(a).1);
    }
    assert forall|a: W, b: W, c: W|
        #![trigger before(a, b), before(b, c)]
        before(a, b) && before(b, c) implies before(a, c) by {
        lemma_text_transitive(place(a).1, place(b).1, place(c).1);
        lemma_text_transitive(place(c).1, place(b).1, place(a).1);
    }
    assert forall|a: W, b: W, c: W|
        #![trigger before(a, b), before(b, c)]
        !before(a, b) && !before(b, c) implies !before(a, c) by {
        texts_are_strictly_ordered(place(a).1, place(b).1, place(c).1);
        texts_are_strictly_ordered(place(b).1, place(c).1, place(a).1);
        texts_are_strictly_ordered(place(a).1, place(c).1, place(b).1);
        texts_are_strictly_ordered(place(c).1, place(b).1, place(a).1);
        texts_are_strictly_ordered(place(b).1, place(a).1, place(c).1);
        texts_are_strictly_ordered(place(c).1, place(a).1, place(b).1);
    }
    assert forall|a: W, b: W| place(a).1 != place(b).1 implies #[trigger] before(a, b) || before(
        b,
        a,
    ) by {
        lemma_text_total(place(a).1, place(b).1);
    }
}

/// Picking rows of a sorted list and placing a row among them can be done in
/// either order.
proof fn lemma_placed_filter<W>(
    list: Seq<W>,
    v: W,
    before: spec_fn(W, W) -> bool,
    q: spec_fn(W) -> bool,
)
    requires
        strict_weak_order(before),
        sorted(list, before),
    ensures
        placed(list, v, before).filter(q) == if q(v) {
            placed(list.filter(q), v, before)
        } else {
            list.filter(q)
        },
    decreases list.len(),
{
    if list.len() == 0 || !before(v, list.last()) {
        lemma_filter_push(list, v, q);
        let kept = list.filter(q);
        if q(v) && kept.len() > 0 {
            lemma_filter_members(list, q);
            assert(kept.contains(kept.last()));
            let k = choose|k: int| 0 <= k < list.len() && list[k] == kept.last();
            if k < list.len() - 1 {
                assert(!before(list[list.len() - 1], list[k]));
            }
            assert(!before(v, kept.last()));
        }
    } else {
        let rest = list.drop_last();
        let last = list.last();
        assert(list =~= rest.push(last));
        assert(sorted(rest, before)) by {
            assert forall|i: int, j: int| 0 <= i < j < rest.len() implies !before(
                #[trigger] rest[j],
                #[trigger] rest[i],
            ) by {
                assert(!before(list[j], list[i]));
            }
        }
        lemma_placed_filter(rest, v, before, q);
        lemma_filter_push(placed(rest, v, before), last, q);
        lemma_filter_push(rest, last, q);
        if q(last) {
            assert(rest.filter(q).push(last).drop_last() =~= rest.filter(q));
        }
    }
}

/// Picking rows and putting them in order can be done in either order.
proof fn lemma_ordered_filter<W>(
    rows: Seq<W>,
    before: spec_fn(W, W) -> bool,
    q: spec_fn(W) -> bool,
)
    requires
        strict_weak_order(before),
    ensures
        ordered(rows.filter(q), before) == ordered(rows, before).filter(q),
    decreases rows.len(),
{
    if rows.len() == 0 {
        lemma_filter_none(rows, q);
        assert(rows.filter(q) =~= rows);
    } else {
        let rest = rows.drop_last();
        assert(rows =~= rest.push(rows.last()));
        lemma_ordered_filter(rest, before, q);
        lemma_filter_push(rest, rows.last(), q);
        ordered_is_a_sorted_permutation(rest, before);
        lemma_placed_filter(ordered(rest, before), rows.last(), before, q);
        if q(rows.last()) {
            assert(rest.filter(q).push(rows.last()).drop_last() =~= rest.filter(q));
        }
    }
}

/// Picking rows and then reading them is reading them and then picking.
proof fn lemma_selected_filter<V, W>(
    rows: Seq<V>,
    p: spec_fn(V) -> bool,
    narrower: spec_fn(V) -> bool,
    f: spec_fn(V) -> W,
    q: spec_fn(W) -> bool,
)
    requires
        forall|v: V| #[trigger] narrower(v) == (p(v) && q(f(v))),
    ensures
        selected(rows, narrower, f) == selected(rows, p, f).filter(q),
    decreases rows.len(),
{
    if rows.len() == 0 {
        lemma_filter_none(rows, p);
        lemma_filter_none(rows, narrower);
        assert(selected(rows, p, f) =~= Seq::empty());
        lemma_filter_none(selected(rows, p, f), q);
        assert(selected(rows, narrower, f) =~= Seq::empty());
    } else {
        let rest = rows.drop_last();
        let last = rows.last();
        assert(rows =~= rest.push(last));
        lemma_selected_filter(rest, p, narrower, f, q);
        lemma_filter_push(rest, last, p);
        lemma_filter_push(rest, last, narrower);
        lemma_filter_push(selected(rest, p, f), f(last), q);
        if p(last) {
            assert(selected(rows, p, f) =~= selected(rest, p, f).push(f(last)));
        }
        if narrower(last) {
            assert(selected(rows, narrower, f) =~= selected(rest, narrower, f).push(f(last)));
        }
    }
}

/// A row with a new key leaves the keys of a list unique, wherever it is placed.
proof fn lemma_unique_placed<W, K>(
    list: Seq<W>,
    v: W,
    before: spec_fn(W, W) -> bool,
    key: spec_fn(W) -> K,
)
    requires
        strict_weak_order(before),
        sorted(list, before),
        unique(list.push(v), key),
    ensures
        unique(placed(list, v, before), key),
    decreases list.len(),
{
    broadcast use vstd::seq_lib::group_to_multiset_ensures;

    if list.len() > 0 && before(v, list.last()) {
        let rest = list.drop_last();
        let last = list.last();
        let all = list.push(v);
        assert(sorted(rest, before)) by {
            assert forall|i: int, j: int| 0 <= i < j < rest.len() implies !before(
                #[trigger] rest[j],
                #[trigger] rest[i],
            ) by {
                assert(!before(list[j], list[i]));
            }
        }
        assert(unique(rest.push(v), key)) by {
            let shorter = rest.push(v);
            assert forall|i: int, j: int| 0 <= i < j < shorter.len() implies key(
                #[trigger] shorter[i],
            ) != key(#[trigger] shorter[j]) by {
                if j == rest.len() {
                    assert(key(all[i]) != key(all[list.len() as int]));
                } else {
                    assert(key(all[i]) != key(all[j]));
                }
            }
        }
        lemma_unique_placed(rest, v, before, key);
        lemma_placed_sorted(rest, v, before);
        let front = placed(rest, v, before);
        let same = |row: W| key(row) == key(last);
        assert(!any(front, same)) by {
            if any(front, same) {
                let i = choose|i: int| 0 <= i < front.len() && same(#[trigger] front[i]);
                assert(front.contains(front[i]));
                assert(front.to_multiset().contains(front[i]));
                if front[i] == v {
                    assert(key(all[list.len() - 1]) != key(all[list.len() as int]));
                } else {
                    assert(rest.to_multiset().contains(front[i]));
                    assert(rest.contains(front[i]));
                    let k = choose|k: int| 0 <= k < rest.len() && rest[k] == front[i];
                    assert(key(all[k]) != key(all[list.len() - 1]));
                }
            }
        }
        lemma_unique_push(front, key, last);
    }
}

/// Putting rows in order leaves their keys unique.
proof fn lemma_unique_ordered<W, K>(
    rows: Seq<W>,
    before: spec_fn(W, W) -> bool,
    key: spec_fn(W) -> K,
)
    requires
        strict_weak_order(before),
        unique(rows, key),
    ensures
        unique(ordered(rows, before), key),
    decreases rows.len(),
{
    broadcast use vstd::seq_lib::group_to_multiset_ensures;

    if rows.len() > 0 {
        let rest = rows.drop_last();
        let last = rows.last();
        assert(unique(rest, key)) by {
            assert forall|i: int, j: int| 0 <= i < j < rest.len() implies key(#[trigger] rest[i])
                != key(#[trigger] rest[j]) by {
                assert(key(rows[i]) != key(rows[j]));
            }
        }
        lemma_unique_ordered(rest, before, key);
        ordered_is_a_sorted_permutation(rest, before);
        let list = ordered(rest, before);
        let same = |row: W| key(row) == key(last);
        assert(!any(list, same)) by {
            if any(list, same) {
                let i = choose|i: int| 0 <= i < list.len() && same(#[trigger] list[i]);
                assert(list.contains(list[i]));
                assert(list.to_multiset().contains(list[i]));
                assert(rest.contains(list[i]));
                let k = choose|k: int| 0 <= k < rest.len() && rest[k] == list[i];
                assert(key(rows[k]) != key(rows[rows.len() - 1]));
            }
        }
        lemma_unique_push(list, key, last);
        lemma_unique_placed(list, last, before, key);
    }
}

/// Reading rows leaves keys unique that the reading keeps.
proof fn lemma_unique_selected<V, W, K>(
    rows: Seq<V>,
    p: spec_fn(V) -> bool,
    f: spec_fn(V) -> W,
    row_key: spec_fn(V) -> K,
    key: spec_fn(W) -> K,
)
    requires
        unique(rows, row_key),
        forall|v: V| key(#[trigger] f(v)) == row_key(v),
    ensures
        unique(selected(rows, p, f), key),
{
    lemma_unique_filter(rows, row_key, p);
    let kept = rows.filter(p);
    let read = selected(rows, p, f);
    assert forall|i: int, j: int| 0 <= i < j < read.len() implies key(#[trigger] read[i]) != key(
        #[trigger] read[j],
    ) by {
        assert(row_key(kept[i]) != row_key(kept[j]));
        assert(read[i] == f(kept[i]));
        assert(read[j] == f(kept[j]));
    }
}

/// What comes behind a row of an ordered list is the rest of the list.
proof fn lemma_cursor<V, W>(
    rows: Seq<V>,
    p: spec_fn(V) -> bool,
    narrower: spec_fn(V) -> bool,
    f: spec_fn(V) -> W,
    before: spec_fn(W, W) -> bool,
    row_key: spec_fn(V) -> Seq<char>,
    place: spec_fn(W) -> (i64, Seq<char>),
    k: int,
)
    requires
        unique(rows, row_key),
        forall|v: V| place(#[trigger] f(v)).1 == row_key(v),
        (forall|a: W, b: W| #[trigger]
            before(a, b) == place_before(place(a).0, place(a).1, place(b).0, place(b).1)) || (
        forall|a: W, b: W| #[trigger]
            before(a, b) == place_before(place(b).0, place(b).1, place(a).0, place(a).1)),
        0 <= k < ordered(selected(rows, p, f), before).len(),
        forall|v: V| #[trigger]
            narrower(v) == (p(v) && before(ordered(selected(rows, p, f), before)[k], f(v))),
    ensures
        sorted(ordered(selected(rows, p, f), before), before),
        ordered(selected(rows, narrower, f), before) == ordered(
            selected(rows, p, f),
            before,
        ).skip(k + 1),
{
    let picked = selected(rows, p, f);
    let all = ordered(picked, before);
    let q = |w: W| before(all[k], w);
    let key = |w: W| place(w).1;
    lemma_place_order(before, place);
    lemma_selected_filter(rows, p, narrower, f, q);
    lemma_ordered_filter(picked, before, q);
    ordered_is_a_sorted_permutation(picked, before);
    lemma_unique_selected(rows, p, f, row_key, key);
    lemma_unique_ordered(picked, before, key);
    let head = all.take(k + 1);
    let tail = all.skip(k + 1);
    assert(all =~= head + tail);
    Seq::filter_distributes_over_add(head, tail, q);
    assert forall|i: int| 0 <= i < head.len() implies !q(#[trigger] head[i]) by {
        if i < k {
            assert(!before(all[k], all[i]));
        }
    }
    lemma_filter_none(head, q);
    assert forall|i: int| 0 <= i < tail.len() implies q(#[trigger] tail[i]) by {
        assert(key(all[k]) != key(all[k + 1 + i]));
        assert(!before(all[k + 1 + i], all[k]));
        assert(before(all[k], all[k + 1 + i]) || before(all[k + 1 + i], all[k]));
    }
    lemma_filter_all(tail, q);
    assert(head.filter(q) + tail.filter(q) =~= tail);
}

/// Picking every row leaves the list as it is.
proof fn lemma_filter_all<W>(rows: Seq<W>, q: spec_fn(W) -> bool)
    requires
        forall|i: int| 0 <= i < rows.len() ==> q(#[trigger] rows[i]),
    ensures
        rows.filter(q) == rows,
    decreases rows.len(),
{
    reveal(Seq::filter);
    if rows.len() > 0 {
        lemma_filter_all(rows.drop_last(), q);
        assert(rows =~= rows.drop_last().push(rows.last()));
    }
}

impl StoreView {
    /// The operations that a list shows, oldest first, before it is cut into
    /// pages.
    pub open spec fn all_operations(self, status: Option<Seq<char>>) -> Seq<OperationRecordView> {
        ordered(
            selected(
                self.operations,
                listed_operation(self.tenant_id, wanted_status(status), None),
                operation_of(),
            ),
            oldest_operation(),
        )
    }

    /// The approvals of operations that a list shows, oldest first.
    pub open spec fn all_operation_approvals(
        self,
        status: Option<Seq<char>>,
        now: Option<i64>,
    ) -> Seq<OperationApprovalRecordView> {
        ordered(
            selected(
                self.operation_approvals,
                listed_operation_approval(self.tenant_id, wanted_status(status), None, now),
                operation_approval_of(),
            ),
            oldest_approval(),
        )
    }

    /// The approvals of exchanges that a list shows, oldest first.
    pub open spec fn all_approvals(
        self,
        status: Option<Seq<char>>,
        now: Option<i64>,
    ) -> Seq<ApprovalRecordView> {
        ordered(
            selected(
                self.approvals,
                listed_approval(self.tenant_id, wanted_status(status), None, now),
                approval_of(),
            ),
            approval_order(),
        )
    }

    /// The grants that a list shows, oldest first.
    pub open spec fn all_grants(
        self,
        node_id: Option<Seq<char>>,
        status: Option<Seq<char>>,
    ) -> Seq<GrantRecordView> {
        ordered(
            selected(
                self.grants,
                listed_grant(self.tenant_id, wanted_status(node_id), wanted_status(status), None),
                grant_of(),
            ),
            oldest_grant(),
        )
    }

    /// The enrollments of the tenant, newest first.
    pub open spec fn all_enrollments(self) -> Seq<EnrollmentRecordView> {
        ordered(
            selected(
                self.enrollment_requests,
                listed_enrollment(self.tenant_id, None),
                enrollment_of(),
            ),
            newest_enrollment(),
        )
    }

    /// The nodes of the tenant, newest first.
    pub open spec fn all_nodes(self) -> Seq<NodeRecordView> {
        ordered(
            selected(
                self.nodes,
                listed_node(self.tenant_id, None),
                node_record(self.node_revocation_queue, self.node_key_rotations),
            ),
            newest_node(),
        )
    }

    /// The workloads that a list shows, newest first.
    pub open spec fn all_workloads(self, node_id: Option<Seq<char>>) -> Seq<WorkloadRecordView> {
        ordered(
            selected(
                self.workloads,
                listed_workload(self.tenant_id, node_id, None),
                workload_of(),
            ),
            newest_workload(),
        )
    }

    /// The audit events of the tenant, newest first.
    pub open spec fn all_events(self) -> Seq<AuditRecordView> {
        ordered(
            selected(self.audit_events, event_ahead(self.tenant_id, None), audit_of()),
            newest_first(),
        )
    }
}

/// Reading on behind the last operation of a page shows the operations that
/// follow it, and no other one: the pages make up the whole list, oldest first.
pub proof fn operations_continue_behind_a_cursor(
    state: StoreView,
    c: ClockReadingView,
    status: Option<Seq<char>>,
    limit: u32,
    k: int,
)
    requires
        unique(state.operations, operation_id()),
        state.checkpoint_clock(c).1 is Ok,
        0 <= k < state.all_operations(status).len(),
    ensures
        sorted(state.all_operations(status), oldest_operation()),
        state.list_operations(c, status, None, limit).1 == Ok::<_, crate::error::StoreError>(
            page(state.all_operations(status), page_size(limit, 101)),
        ),
        ({
            let last = state.all_operations(status)[k];
            state.list_operations(c, status, Some((last.created_at_ms, last.id)), limit).1
                == Ok::<_, crate::error::StoreError>(
                page(state.all_operations(status).skip(k + 1), page_size(limit, 101)),
            )
        }),
{
    let last = state.all_operations(status)[k];
    lemma_cursor(
        state.operations,
        listed_operation(state.tenant_id, wanted_status(status), None),
        listed_operation(
            state.tenant_id,
            wanted_status(status),
            Some((last.created_at_ms, last.id)),
        ),
        operation_of(),
        oldest_operation(),
        operation_id(),
        |w: OperationRecordView| (w.created_at_ms, w.id),
        k,
    );
}

/// Reading on behind the last approval of operations of a page shows those that
/// follow it, and no other one.
pub proof fn operation_approvals_continue_behind_a_cursor(
    state: StoreView,
    c: ClockReadingView,
    status: Option<Seq<char>>,
    limit: u32,
    k: int,
)
    requires
        unique(state.operation_approvals, operation_approval_id()),
        state.checkpoint_clock(c).1 is Ok,
        ({
            let now = state.checkpoint_clock(c).0.now(c.now_ms);
            0 <= k < state.all_operation_approvals(status, now).len()
        }),
    ensures
        ({
            let all = state.all_operation_approvals(
                status,
                state.checkpoint_clock(c).0.now(c.now_ms),
            );
            &&& sorted(all, oldest_approval())
            &&& state.list_operation_approvals(c, status, None, limit).1 == Ok::<
                _,
                crate::error::StoreError,
            >(page(all, page_size(limit, 101)))
            &&& state.list_operation_approvals(
                c,
                status,
                Some((all[k].created_at_ms, all[k].id)),
                limit,
            ).1 == Ok::<_, crate::error::StoreError>(page(all.skip(k + 1), page_size(limit, 101)))
        }),
{
    let now = state.checkpoint_clock(c).0.now(c.now_ms);
    let last = state.all_operation_approvals(status, now)[k];
    lemma_cursor(
        state.operation_approvals,
        listed_operation_approval(state.tenant_id, wanted_status(status), None, now),
        listed_operation_approval(
            state.tenant_id,
            wanted_status(status),
            Some((last.created_at_ms, last.id)),
            now,
        ),
        operation_approval_of(),
        oldest_approval(),
        operation_approval_id(),
        |w: OperationApprovalRecordView| (w.created_at_ms, w.id),
        k,
    );
}

/// Reading on behind the last approval of a page shows those that follow it, and
/// no other one.
pub proof fn approvals_continue_behind_a_cursor(
    state: StoreView,
    c: ClockReadingView,
    status: Option<Seq<char>>,
    limit: u32,
    k: int,
)
    requires
        unique(state.approvals, approval_reference()),
        state.checkpoint_clock(c).1 is Ok,
        ({
            let now = state.checkpoint_clock(c).0.now(c.now_ms);
            0 <= k < state.all_approvals(status, now).len()
        }),
    ensures
        ({
            let all = state.all_approvals(status, state.checkpoint_clock(c).0.now(c.now_ms));
            &&& sorted(all, approval_order())
            &&& state.list_approvals(c, status, None, limit).1 == Ok::<
                _,
                crate::error::StoreError,
            >(page(all, page_size(limit, 101)))
            &&& state.list_approvals(
                c,
                status,
                Some((all[k].created_at_ms, all[k].approval_reference)),
                limit,
            ).1 == Ok::<_, crate::error::StoreError>(page(all.skip(k + 1), page_size(limit, 101)))
        }),
{
    let now = state.checkpoint_clock(c).0.now(c.now_ms);
    let last = state.all_approvals(status, now)[k];
    lemma_cursor(
        state.approvals,
        listed_approval(state.tenant_id, wanted_status(status), None, now),
        listed_approval(
            state.tenant_id,
            wanted_status(status),
            Some((last.created_at_ms, last.approval_reference)),
            now,
        ),
        approval_of(),
        approval_order(),
        approval_reference(),
        |w: ApprovalRecordView| (w.created_at_ms, w.approval_reference),
        k,
    );
}

/// Reading on behind the last grant of a page shows those that follow it, and no
/// other one.
pub proof fn grants_continue_behind_a_cursor(
    state: StoreView,
    c: ClockReadingView,
    node_id: Option<Seq<char>>,
    status: Option<Seq<char>>,
    limit: u32,
    k: int,
)
    requires
        unique(state.grants, grant_id()),
        state.checkpoint_clock(c).1 is Ok,
        0 <= k < state.all_grants(node_id, status).len(),
    ensures
        ({
            let all = state.all_grants(node_id, status);
            &&& sorted(all, oldest_grant())
            &&& state.list_grants(c, node_id, status, None, limit).1 == Ok::<
                _,
                crate::error::StoreError,
            >(page(all, page_size(limit, 101)))
            &&& state.list_grants(
                c,
                node_id,
                status,
                Some((all[k].created_at_ms, all[k].id)),
                limit,
            ).1 == Ok::<_, crate::error::StoreError>(page(all.skip(k + 1), page_size(limit, 101)))
        }),
{
    let last = state.all_grants(node_id, status)[k];
    lemma_cursor(
        state.grants,
        listed_grant(state.tenant_id, wanted_status(node_id), wanted_status(status), None),
        listed_grant(
            state.tenant_id,
            wanted_status(node_id),
            wanted_status(status),
            Some((last.created_at_ms, last.id)),
        ),
        grant_of(),
        oldest_grant(),
        grant_id(),
        |w: GrantRecordView| (w.created_at_ms, w.id),
        k,
    );
}

/// Reading on behind the last enrollment of a page shows those that follow it,
/// and no other one.
pub proof fn enrollments_continue_behind_a_cursor(
    state: StoreView,
    c: ClockReadingView,
    limit: u32,
    k: int,
)
    requires
        unique(state.enrollment_requests, enrollment_id()),
        state.checkpoint_clock(c).1 is Ok,
        0 <= k < state.all_enrollments().len(),
    ensures
        ({
            let all = state.all_enrollments();
            &&& sorted(all, newest_enrollment())
            &&& state.list_enrollments(c, limit, None).1 == Ok::<_, crate::error::StoreError>(
                page(all, page_size(limit, 100)),
            )
            &&& state.list_enrollments(c, limit, Some((all[k].created_at_ms, all[k].id))).1
                == Ok::<_, crate::error::StoreError>(page(all.skip(k + 1), page_size(limit, 100)))
        }),
{
    let last = state.all_enrollments()[k];
    lemma_cursor(
        state.enrollment_requests,
        listed_enrollment(state.tenant_id, None),
        listed_enrollment(state.tenant_id, Some((last.created_at_ms, last.id))),
        enrollment_of(),
        newest_enrollment(),
        enrollment_id(),
        |w: EnrollmentRecordView| (w.created_at_ms, w.id),
        k,
    );
}

/// Reading on behind the last node of a page shows those that follow it, and no
/// other one.
pub proof fn nodes_continue_behind_a_cursor(
    state: StoreView,
    c: ClockReadingView,
    limit: u32,
    k: int,
)
    requires
        unique(state.nodes, node_id()),
        state.checkpoint_clock(c).1 is Ok,
        0 <= k < state.all_nodes().len(),
    ensures
        ({
            let all = state.all_nodes();
            &&& sorted(all, newest_node())
            &&& state.list_nodes(c, limit, None).1 == Ok::<_, crate::error::StoreError>(
                page(all, page_size(limit, 100)),
            )
            &&& state.list_nodes(c, limit, Some((all[k].created_at_ms, all[k].id))).1 == Ok::<
                _,
                crate::error::StoreError,
            >(page(all.skip(k + 1), page_size(limit, 100)))
        }),
{
    let last = state.all_nodes()[k];
    lemma_cursor(
        state.nodes,
        listed_node(state.tenant_id, None),
        listed_node(state.tenant_id, Some((last.created_at_ms, last.id))),
        node_record(state.node_revocation_queue, state.node_key_rotations),
        newest_node(),
        node_id(),
        |w: NodeRecordView| (w.created_at_ms, w.id),
        k,
    );
}

/// Reading on behind the last workload of a page shows those that follow it, and
/// no other one.
pub proof fn workloads_continue_behind_a_cursor(
    state: StoreView,
    c: ClockReadingView,
    node_id: Option<Seq<char>>,
    limit: u32,
    k: int,
)
    requires
        unique(state.workloads, workload_id()),
        state.checkpoint_clock(c).1 is Ok,
        0 <= k < state.all_workloads(node_id).len(),
    ensures
        ({
            let all = state.all_workloads(node_id);
            &&& sorted(all, newest_workload())
            &&& state.list_workloads(c, node_id, limit, None).1 == Ok::<
                _,
                crate::error::StoreError,
            >(page(all, page_size(limit, 101)))
            &&& state.list_workloads(
                c,
                node_id,
                limit,
                Some((all[k].created_at_ms, all[k].id)),
            ).1 == Ok::<_, crate::error::StoreError>(page(all.skip(k + 1), page_size(limit, 101)))
        }),
{
    let last = state.all_workloads(node_id)[k];
    lemma_cursor(
        state.workloads,
        listed_workload(state.tenant_id, node_id, None),
        listed_workload(state.tenant_id, node_id, Some((last.created_at_ms, last.id))),
        workload_of(),
        newest_workload(),
        workload_id(),
        |w: WorkloadRecordView| (w.created_at_ms, w.id),
        k,
    );
}

/// Reading on behind the last audit event of a page shows those that follow it,
/// and no other one.
pub proof fn events_continue_behind_a_cursor(
    state: StoreView,
    c: ClockReadingView,
    size: int,
    k: int,
)
    requires
        unique(state.audit_events, event_id()),
        state.checkpoint_clock(c).1 is Ok,
        0 <= k < state.all_events().len(),
    ensures
        ({
            let all = state.all_events();
            &&& sorted(all, newest_first())
            &&& state.audit_page(c, None, size).1 == Ok::<_, crate::error::StoreError>(
                page(all, size),
            )
            &&& state.audit_page(c, Some((all[k].created_at_ms, all[k].id)), size).1 == Ok::<
                _,
                crate::error::StoreError,
            >(page(all.skip(k + 1), size))
        }),
{
    let last = state.all_events()[k];
    lemma_cursor(
        state.audit_events,
        event_ahead(state.tenant_id, None),
        event_ahead(state.tenant_id, Some((last.created_at_ms, last.id))),
        audit_of(),
        newest_first(),
        event_id(),
        |w: AuditRecordView| (w.created_at_ms, w.id),
        k,
    );
}

} // verus!
