//! What holds of the queries over tables, whatever the rows are.

use crate::relation::{
    any, attempted, count, first, lemma_any_counted, lemma_filter_none, lemma_filter_push,
    lemma_first_hit, ordered, page, placed, updated, without,
};
use vstd::prelude::*;

verus! {

/// Whether no two rows have the same key.
pub open spec fn unique<V, K>(rows: Seq<V>, key: spec_fn(V) -> K) -> bool {
    forall|i: int, j: int|
        0 <= i < j < rows.len() ==> key(#[trigger] rows[i]) != key(#[trigger] rows[j])
}

/// Looking for `q` among the rows that satisfy `p` finds what looking among all
/// rows finds, where `q` implies `p`.
pub proof fn lemma_filter_within<V>(rows: Seq<V>, p: spec_fn(V) -> bool, q: spec_fn(V) -> bool)
    requires
        forall|v: V| #[trigger] q(v) ==> p(v),
    ensures
        rows.filter(p).filter(q) == rows.filter(q),
    decreases rows.len(),
{
    reveal(Seq::filter);
    if rows.len() > 0 {
        let rest = rows.drop_last();
        lemma_filter_within(rest, p, q);
        if p(rows.last()) {
            lemma_filter_push(rest.filter(p), rows.last(), q);
        }
    }
}

/// Deleting rows that `q` does not pick leaves those that it picks.
pub proof fn lemma_without_keeps<V>(rows: Seq<V>, p: spec_fn(V) -> bool, q: spec_fn(V) -> bool)
    requires
        forall|v: V| #[trigger] q(v) ==> !p(v),
    ensures
        without(rows, p).filter(q) == rows.filter(q),
        any(without(rows, p), q) == any(rows, q),
        first(without(rows, p), q) == first(rows, q),
        count(without(rows, p), q) == count(rows, q),
{
    lemma_filter_within(rows, |v: V| !p(v), q);
    lemma_any_counted(without(rows, p), q);
    lemma_any_counted(rows, q);
}

/// Rewriting rows that `q` picks neither before nor after leaves those that it
/// picks.
pub proof fn lemma_updated_keeps<V>(
    rows: Seq<V>,
    p: spec_fn(V) -> bool,
    f: spec_fn(V) -> V,
    q: spec_fn(V) -> bool,
)
    requires
        forall|i: int|
            0 <= i < rows.len() && p(#[trigger] rows[i]) ==> !q(rows[i]) && !q(f(rows[i])),
    ensures
        updated(rows, p, f).filter(q) == rows.filter(q),
        any(updated(rows, p, f), q) == any(rows, q),
        first(updated(rows, p, f), q) == first(rows, q),
        count(updated(rows, p, f), q) == count(rows, q),
    decreases rows.len(),
{
    reveal(Seq::filter);
    let after = updated(rows, p, f);
    if rows.len() > 0 {
        let rest = rows.drop_last();
        assert forall|i: int| 0 <= i < rest.len() && p(#[trigger] rest[i]) implies !q(rest[i])
            && !q(f(rest[i])) by {
            assert(rest[i] == rows[i]);
        }
        lemma_updated_keeps(rest, p, f, q);
        assert(rows.last() == rows[rows.len() - 1]);
        assert(after.drop_last() =~= updated(rest, p, f));
    }
    lemma_any_counted(after, q);
    lemma_any_counted(rows, q);
}

/// A row behind the others is the first hit where no other one is a hit.
pub proof fn lemma_push_found<V>(rows: Seq<V>, v: V, q: spec_fn(V) -> bool)
    ensures
        !any(rows, q) && q(v) ==> first(rows.push(v), q) == Some(v) && count(rows.push(v), q) == 1,
        !q(v) ==> rows.push(v).filter(q) == rows.filter(q),
        !q(v) ==> first(rows.push(v), q) == first(rows, q),
        !q(v) ==> any(rows.push(v), q) == any(rows, q),
{
    lemma_filter_push(rows, v, q);
    lemma_any_counted(rows, q);
    lemma_any_counted(rows.push(v), q);
}

/// Where keys are unique and `p` asks for one key, a row that satisfies `p` is
/// the only one.
pub proof fn lemma_unique_hit<V, K>(
    rows: Seq<V>,
    key: spec_fn(V) -> K,
    k: K,
    p: spec_fn(V) -> bool,
    i: int,
)
    requires
        unique(rows, key),
        forall|v: V| #[trigger] p(v) ==> key(v) == k,
        0 <= i < rows.len(),
        p(rows[i]),
    ensures
        first(rows, p) == Some(rows[i]),
        count(rows, p) == 1,
{
    assert forall|j: int| 0 <= j < i implies !p(#[trigger] rows[j]) by {
        if p(rows[j]) {
            assert(key(rows[j]) == key(rows[i]));
        }
    }
    lemma_first_hit(rows, p, i);
    let head = rows.take(i + 1);
    let tail = rows.skip(i + 1);
    assert(rows =~= head + tail);
    assert forall|j: int| 0 <= j < tail.len() implies !p(#[trigger] tail[j]) by {
        if p(tail[j]) {
            assert(key(rows[i]) == key(rows[i + 1 + j]));
        }
    }
    lemma_filter_none(tail, p);
    Seq::filter_distributes_over_add(head, tail, p);
    lemma_filter_none(rows.take(i), p);
    lemma_filter_push(rows.take(i), rows[i], p);
    assert(head =~= rows.take(i).push(rows[i]));
    assert(rows.filter(p) =~= seq![rows[i]]);
}

/// Where keys are unique and `p` asks for one key, what is found is a row of the
/// table, and the only one that satisfies `p`.
pub proof fn lemma_unique_first<V, K>(
    rows: Seq<V>,
    key: spec_fn(V) -> K,
    k: K,
    p: spec_fn(V) -> bool,
) -> (i: int)
    requires
        unique(rows, key),
        forall|v: V| #[trigger] p(v) ==> key(v) == k,
        any(rows, p),
    ensures
        0 <= i < rows.len(),
        p(rows[i]),
        first(rows, p) == Some(rows[i]),
        count(rows, p) == 1,
{
    let i = choose|i: int| 0 <= i < rows.len() && p(#[trigger] rows[i]);
    lemma_unique_hit(rows, key, k, p, i);
    i
}

/// Whatever is found satisfies what was looked for.
pub proof fn lemma_first_satisfies<V>(rows: Seq<V>, p: spec_fn(V) -> bool)
    ensures
        match first(rows, p) {
            Some(v) => p(v) && rows.contains(v),
            None => !any(rows, p),
        },
{
    lemma_any_counted(rows, p);
    if any(rows, p) {
        let hits = rows.filter(p);
        lemma_filter_members(rows, p);
        assert(hits.contains(hits[0]));
    }
}

/// A filtered table holds exactly the rows that satisfy the predicate.
pub proof fn lemma_filter_members<V>(rows: Seq<V>, p: spec_fn(V) -> bool)
    ensures
        forall|v: V| #[trigger] rows.filter(p).contains(v) <==> rows.contains(v) && p(v),
    decreases rows.len(),
{
    reveal(Seq::filter);
    if rows.len() > 0 {
        let rest = rows.drop_last();
        lemma_filter_members(rest, p);
        assert(rows =~= rest.push(rows.last()));
        assert forall|v: V| #[trigger] rows.filter(p).contains(v) <==> rows.contains(v) && p(v) by {
            assert(rows.contains(v) <==> rest.contains(v) || v == rows.last()) by {
                if rest.contains(v) {
                    let i = choose|i: int| 0 <= i < rest.len() && rest[i] == v;
                    assert(rows[i] == v);
                }
                if v == rows.last() {
                    assert(rows[rows.len() - 1] == v);
                }
            }
            let shorter = rest.filter(p);
            if p(rows.last()) {
                assert(rows.filter(p) == shorter.push(rows.last()));
                assert(shorter.push(rows.last()).contains(v) <==> shorter.contains(v) || v
                    == rows.last()) by {
                    if shorter.contains(v) {
                        let i = choose|i: int| 0 <= i < shorter.len() && shorter[i] == v;
                        assert(shorter.push(rows.last())[i] == v);
                    }
                    if v == rows.last() {
                        assert(shorter.push(rows.last())[shorter.len() as int] == v);
                    }
                }
            }
        }
    }
}

/// Keys stay unique when a row with a new key is added.
pub proof fn lemma_unique_push<V, K>(rows: Seq<V>, key: spec_fn(V) -> K, v: V)
    requires
        unique(rows, key),
        !any(rows, |row: V| key(row) == key(v)),
    ensures
        unique(rows.push(v), key),
{
    let taken = |row: V| key(row) == key(v);
    assert forall|i: int, j: int| 0 <= i < j < rows.push(v).len() implies key(
        #[trigger] rows.push(v)[i],
    ) != key(#[trigger] rows.push(v)[j]) by {
        if j == rows.len() {
            assert(!taken(rows[i]));
        }
    }
}

/// Keys stay unique when rows are rewritten without touching their keys.
pub proof fn lemma_unique_updated<V, K>(
    rows: Seq<V>,
    key: spec_fn(V) -> K,
    p: spec_fn(V) -> bool,
    f: spec_fn(V) -> V,
)
    requires
        unique(rows, key),
        forall|i: int|
            0 <= i < rows.len() && p(#[trigger] rows[i]) ==> key(f(rows[i])) == key(rows[i]),
    ensures
        unique(updated(rows, p, f), key),
{
    let after = updated(rows, p, f);
    assert forall|i: int, j: int| 0 <= i < j < after.len() implies key(#[trigger] after[i]) != key(
        #[trigger] after[j],
    ) by {
        assert(key(after[i]) == key(rows[i]));
        assert(key(after[j]) == key(rows[j]));
    }
}

/// Keys stay unique when rows are deleted.
pub proof fn lemma_unique_filter<V, K>(rows: Seq<V>, key: spec_fn(V) -> K, p: spec_fn(V) -> bool)
    requires
        unique(rows, key),
    ensures
        unique(rows.filter(p), key),
    decreases rows.len(),
{
    reveal(Seq::filter);
    if rows.len() > 0 {
        let rest = rows.drop_last();
        assert(unique(rest, key)) by {
            assert forall|i: int, j: int| 0 <= i < j < rest.len() implies key(#[trigger] rest[i])
                != key(#[trigger] rest[j]) by {
                assert(key(rows[i]) != key(rows[j]));
            }
        }
        lemma_unique_filter(rest, key, p);
        if p(rows.last()) {
            let last = rows.last();
            assert(!any(rest.filter(p), |row: V| key(row) == key(last))) by {
                if any(rest.filter(p), |row: V| key(row) == key(last)) {
                    let kept = rest.filter(p);
                    let same = |row: V| key(row) == key(last);
                    let i = choose|i: int| 0 <= i < kept.len() && same(#[trigger] kept[i]);
                    lemma_filter_members(rest, p);
                    assert(kept.contains(kept[i]));
                    let j = choose|j: int| 0 <= j < rest.len() && rest[j] == kept[i];
                    assert(key(rows[j]) != key(rows[rows.len() - 1]));
                }
            }
            lemma_unique_push(rest.filter(p), key, last);
        }
    }
}
/// A row under a new key keeps the keys unique.
pub broadcast proof fn unique_after_push<V, K>(rows: Seq<V>, key: spec_fn(V) -> K, v: V)
    requires
        unique(rows, key),
        forall|i: int| 0 <= i < rows.len() ==> key(#[trigger] rows[i]) != key(v),
    ensures
        #[trigger] unique(rows.push(v), key),
{
}

/// Rewriting rows under their keys keeps the keys unique.
pub broadcast proof fn unique_after_update<V, K>(
    rows: Seq<V>,
    key: spec_fn(V) -> K,
    p: spec_fn(V) -> bool,
    f: spec_fn(V) -> V,
)
    requires
        unique(rows, key),
        forall|i: int|
            0 <= i < rows.len() && p(#[trigger] rows[i]) ==> key(f(rows[i])) == key(rows[i]),
    ensures
        #[trigger] unique(updated(rows, p, f), key),
{
    lemma_unique_updated(rows, key, p, f);
}

/// Deleting rows keeps the keys unique.
pub broadcast proof fn unique_after_deletion<V, K>(
    rows: Seq<V>,
    key: spec_fn(V) -> K,
    p: spec_fn(V) -> bool,
)
    requires
        unique(rows, key),
    ensures
        #[trigger] unique(without(rows, p), key),
{
    lemma_unique_filter(rows, key, |v: V| !p(v));
}

/// Where keys are unique, rewriting the row under a key so that a predicate on
/// that key no longer picks it leaves no row that the predicate picks.
pub proof fn lemma_key_spent<V, K>(
    rows: Seq<V>,
    key: spec_fn(V) -> K,
    k: K,
    hit: spec_fn(V) -> bool,
    f: spec_fn(V) -> V,
    q: spec_fn(V) -> bool,
)
    requires
        unique(rows, key),
        any(rows, hit),
        forall|v: V| #[trigger] hit(v) ==> key(v) == k && !q(f(v)),
        forall|v: V| #[trigger] q(v) ==> key(v) == k,
    ensures
        !any(updated(rows, hit, f), q),
        first(updated(rows, hit, f), q) is None,
        count(updated(rows, hit, f), q) == 0,
{
    let after = updated(rows, hit, f);
    let i = lemma_unique_first(rows, key, k, hit);
    assert forall|j: int| 0 <= j < after.len() implies !q(#[trigger] after[j]) by {
        if hit(rows[j]) {
            assert(after[j] == f(rows[j]));
        } else if i < j {
            assert(key(rows[i]) != key(rows[j]));
        } else {
            assert(key(rows[j]) != key(rows[i]));
        }
    }
    crate::relation::lemma_any_counted(after, q);
}

/// Where `attempted` succeeds, the result is the table with every hit row
/// rewritten, and each of them could be.
pub proof fn lemma_attempted<V>(
    rows: Seq<V>,
    hit: spec_fn(V) -> bool,
    change: spec_fn(V) -> Option<V>,
)
    requires
        attempted(rows, hit, change) is Some,
    ensures
        attempted(rows, hit, change)->0 == updated(rows, hit, |v: V| change(v)->0),
        forall|i: int| 0 <= i < rows.len() && hit(#[trigger] rows[i]) ==> change(rows[i]) is Some,
{
    let stuck = |v: V| hit(v) && change(v) is None;
    assert forall|i: int| 0 <= i < rows.len() && hit(#[trigger] rows[i]) implies change(
        rows[i],
    ) is Some by {
        assert(!stuck(rows[i]));
    }
}

/// Where keys are unique and `p` asks for the key of one row, that row alone decides
/// what is found, and it alone is changed or deleted.
pub proof fn lemma_sole<V, K>(rows: Seq<V>, key: spec_fn(V) -> K, p: spec_fn(V) -> bool, i: int)
    requires
        unique(rows, key),
        0 <= i < rows.len(),
        forall|v: V| #[trigger] p(v) ==> key(v) == key(rows[i]),
    ensures
        any(rows, p) == p(rows[i]),
        first(rows, p) == if p(rows[i]) {
            Some(rows[i])
        } else {
            None
        },
        count(rows, p) == if p(rows[i]) {
            1nat
        } else {
            0
        },
        without(rows, p) == if p(rows[i]) {
            rows.remove(i)
        } else {
            rows
        },
        forall|f: spec_fn(V) -> V| #[trigger]
            updated(rows, p, f) == if p(rows[i]) {
                rows.update(i, f(rows[i]))
            } else {
                rows
            },
        forall|f: spec_fn(V) -> Option<V>| #[trigger]
            attempted(rows, p, f) == if !p(rows[i]) {
                Some(rows)
            } else if f(rows[i]) is None {
                None
            } else {
                Some(rows.update(i, f(rows[i])->0))
            },
{
    assert forall|j: int| 0 <= j < rows.len() && j != i implies !p(#[trigger] rows[j]) by {
        if p(rows[j]) {
            assert(key(rows[j]) == key(rows[i]));
        }
    }
    lemma_at_most_one(rows, p, i);
}

/// Keys stay unique where a row is replaced by one of the same key.
pub proof fn lemma_unique_replaced<V, K>(rows: Seq<V>, key: spec_fn(V) -> K, i: int, v: V)
    requires
        unique(rows, key),
        0 <= i < rows.len(),
        key(v) == key(rows[i]),
    ensures
        unique(rows.update(i, v), key),
{
    let after = rows.update(i, v);
    assert forall|j: int, k: int| 0 <= j < k < after.len() implies key(#[trigger] after[j]) != key(
        #[trigger] after[k],
    ) by {
        assert(key(rows[j]) != key(rows[k]));
    }
}

/// What is found, changed and deleted where one row at most satisfies `p`.
pub proof fn lemma_at_most_one<V>(rows: Seq<V>, p: spec_fn(V) -> bool, i: int)
    requires
        0 <= i < rows.len(),
        forall|j: int| 0 <= j < rows.len() && j != i ==> !p(#[trigger] rows[j]),
    ensures
        any(rows, p) == p(rows[i]),
        first(rows, p) == if p(rows[i]) {
            Some(rows[i])
        } else {
            None
        },
        count(rows, p) == if p(rows[i]) {
            1nat
        } else {
            0
        },
        without(rows, p) == if p(rows[i]) {
            rows.remove(i)
        } else {
            rows
        },
        forall|f: spec_fn(V) -> V| #[trigger]
            updated(rows, p, f) == if p(rows[i]) {
                rows.update(i, f(rows[i]))
            } else {
                rows
            },
        forall|f: spec_fn(V) -> Option<V>| #[trigger]
            attempted(rows, p, f) == if !p(rows[i]) {
                Some(rows)
            } else if f(rows[i]) is None {
                None
            } else {
                Some(rows.update(i, f(rows[i])->0))
            },
{
    let kept = |v: V| !p(v);
    let head = rows.take(i);
    let tail = rows.skip(i + 1);
    assert(rows =~= head.push(rows[i]) + tail);
    assert forall|j: int| 0 <= j < head.len() implies !p(#[trigger] head[j]) by {
        assert(head[j] == rows[j]);
    }
    assert forall|j: int| 0 <= j < tail.len() implies !p(#[trigger] tail[j]) by {
        assert(tail[j] == rows[i + 1 + j]);
    }
    lemma_none(head, p);
    lemma_none(tail, p);
    Seq::filter_distributes_over_add(head.push(rows[i]), tail, p);
    Seq::filter_distributes_over_add(head.push(rows[i]), tail, kept);
    lemma_filter_push(head, rows[i], p);
    lemma_filter_push(head, rows[i], kept);
    if p(rows[i]) {
        assert(rows.filter(p) =~= seq![rows[i]]);
        assert(without(rows, p) =~= rows.remove(i));
    } else {
        assert(rows.filter(p) =~= Seq::<V>::empty());
        assert(without(rows, p) =~= rows);
    }
    lemma_any_counted(rows, p);
    assert forall|f: spec_fn(V) -> V| #[trigger] updated(rows, p, f) == if p(rows[i]) {
        rows.update(i, f(rows[i]))
    } else {
        rows
    } by {
        assert(updated(rows, p, f) =~= if p(rows[i]) {
            rows.update(i, f(rows[i]))
        } else {
            rows
        });
    }
    assert forall|f: spec_fn(V) -> Option<V>| #[trigger] attempted(rows, p, f) == if !p(rows[i]) {
        Some(rows)
    } else if f(rows[i]) is None {
        None
    } else {
        Some(rows.update(i, f(rows[i])->0))
    } by {
        let stuck = |v: V| p(v) && f(v) is None;
        assert(any(rows, stuck) == stuck(rows[i])) by {
            if any(rows, stuck) {
                let j = choose|j: int| 0 <= j < rows.len() && stuck(#[trigger] rows[j]);
                assert(j == i);
            }
        }
        assert(updated(rows, p, |v: V| f(v)->0) =~= if p(rows[i]) {
            rows.update(i, f(rows[i])->0)
        } else {
            rows
        });
    }
}

/// Where no row satisfies `p`, nothing is found, changed or deleted.
pub proof fn lemma_none<V>(rows: Seq<V>, p: spec_fn(V) -> bool)
    requires
        forall|j: int| 0 <= j < rows.len() ==> !p(#[trigger] rows[j]),
    ensures
        !any(rows, p),
        rows.filter(p) == Seq::<V>::empty(),
        first(rows, p) is None,
        count(rows, p) == 0,
        without(rows, p) == rows,
        forall|f: spec_fn(V) -> V| #[trigger] updated(rows, p, f) == rows,
        forall|f: spec_fn(V) -> Option<V>| #[trigger] attempted(rows, p, f) == Some(rows),
{
    lemma_filter_none(rows, p);
    assert(rows.filter(p) =~= Seq::<V>::empty());
    lemma_filter_whole(rows, |v: V| !p(v));
    assert forall|f: spec_fn(V) -> V| #[trigger] updated(rows, p, f) == rows by {
        assert(updated(rows, p, f) =~= rows);
    }
    assert forall|f: spec_fn(V) -> Option<V>| #[trigger] attempted(rows, p, f) == Some(rows) by {
        assert(updated(rows, p, |v: V| f(v)->0) =~= rows);
    }
}

/// A filter that every row passes keeps them all.
proof fn lemma_filter_whole<V>(rows: Seq<V>, p: spec_fn(V) -> bool)
    requires
        forall|j: int| 0 <= j < rows.len() ==> p(#[trigger] rows[j]),
    ensures
        rows.filter(p) == rows,
    decreases rows.len(),
{
    reveal(Seq::filter);
    if rows.len() > 0 {
        let rest = rows.drop_last();
        assert forall|j: int| 0 <= j < rest.len() implies p(#[trigger] rest[j]) by {
            assert(rest[j] == rows[j]);
        }
        lemma_filter_whole(rest, p);
        assert(p(rows[rows.len() - 1]));
        assert(rows =~= rest.push(rows.last()));
    }
}

/// Whether no row of a list comes before one in front of it.
pub open spec fn sorted<V>(rows: Seq<V>, before: spec_fn(V, V) -> bool) -> bool {
    forall|i: int, j: int|
        0 <= i < j < rows.len() ==> !before(#[trigger] rows[j], #[trigger] rows[i])
}

/// Whether `before` orders values strictly, with ties that are ties of each
/// other.
pub open spec fn strict_weak_order<V>(before: spec_fn(V, V) -> bool) -> bool {
    &&& forall|a: V| !#[trigger] before(a, a)
    &&& forall|a: V, b: V, c: V|
        #![trigger before(a, b), before(b, c)]
        before(a, b) && before(b, c) ==> before(a, c)
    &&& forall|a: V, b: V, c: V|
        #![trigger before(a, b), before(b, c)]
        !before(a, b) && !before(b, c) ==> !before(a, c)
}

/// A row placed into a sorted list leaves it sorted.
pub proof fn lemma_placed_sorted<V>(list: Seq<V>, v: V, before: spec_fn(V, V) -> bool)
    requires
        strict_weak_order(before),
        sorted(list, before),
    ensures
        sorted(placed(list, v, before), before),
        placed(list, v, before).to_multiset() == list.to_multiset().insert(v),
    decreases list.len(),
{
    broadcast use vstd::seq_lib::group_to_multiset_ensures;

    if list.len() == 0 || !before(v, list.last()) {
        let after = list.push(v);
        assert forall|i: int, j: int| 0 <= i < j < after.len() implies !before(
            #[trigger] after[j],
            #[trigger] after[i],
        ) by {
            if j == list.len() && i < list.len() - 1 {
                assert(!before(list[list.len() - 1], list[i]));
                assert(!before(v, list[list.len() - 1]));
            }
        }
    } else {
        let rest = list.drop_last();
        let last = list.last();
        assert(sorted(rest, before)) by {
            assert forall|i: int, j: int| 0 <= i < j < rest.len() implies !before(
                #[trigger] rest[j],
                #[trigger] rest[i],
            ) by {
                assert(!before(list[j], list[i]));
            }
        }
        lemma_placed_sorted(rest, v, before);
        let front = placed(rest, v, before);
        let after = front.push(last);
        assert(list =~= rest.push(last));
        assert(after.to_multiset() =~= list.to_multiset().insert(v));
        assert forall|i: int, j: int| 0 <= i < j < after.len() implies !before(
            #[trigger] after[j],
            #[trigger] after[i],
        ) by {
            if j == front.len() {
                assert(front.to_multiset().contains(front[i])) by {
                    assert(front.contains(front[i]));
                }
                if front[i] == v {
                    if before(last, v) {
                        assert(before(last, last));
                    }
                } else {
                    assert(rest.to_multiset().contains(front[i]));
                    assert(rest.contains(front[i]));
                    let k = choose|k: int| 0 <= k < rest.len() && rest[k] == front[i];
                    assert(!before(list[list.len() - 1], list[k]));
                }
            }
        }
    }
}

/// A list that is put in order is sorted and holds the same rows as often.
pub proof fn ordered_is_a_sorted_permutation<V>(rows: Seq<V>, before: spec_fn(V, V) -> bool)
    requires
        strict_weak_order(before),
    ensures
        sorted(ordered(rows, before), before),
        ordered(rows, before).to_multiset() == rows.to_multiset(),
    decreases rows.len(),
{
    broadcast use vstd::seq_lib::group_to_multiset_ensures;

    if rows.len() > 0 {
        let rest = rows.drop_last();
        ordered_is_a_sorted_permutation(rest, before);
        lemma_placed_sorted(ordered(rest, before), rows.last(), before);
        assert(rows =~= rest.push(rows.last()));
    }
}

/// A page is the front of its list, and no longer than asked for.
pub proof fn page_is_the_front<V>(rows: Seq<V>, limit: int)
    requires
        limit >= 0,
    ensures
        page(rows, limit).len() <= limit,
        page(rows, limit).is_prefix_of(rows),
        page(rows, limit).len() < limit ==> page(rows, limit) == rows,
{
}

} // verus!
