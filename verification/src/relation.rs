//! Tables as vectors of rows, and the queries that the store runs over them.
//!
//! A table is read through the views of its rows. Every query here is stated
//! over a predicate on views, so a caller's contract speaks of plain
//! mathematical rows only.

use vstd::prelude::*;

verus! {

/// The views of a table's rows, in table order.
pub open spec fn rows_view<R: View>(rows: Seq<R>) -> Seq<R::V> {
    Seq::new(rows.len(), |i: int| rows[i]@)
}

/// The view of an optional value.
pub open spec fn option_view<R: View>(value: Option<R>) -> Option<R::V> {
    match value {
        Some(inner) => Some(inner@),
        None => None,
    }
}

/// The same answer, with its value read through the view.
pub open spec fn answer<T: View, E>(reply: Result<T, E>) -> Result<T::V, E> {
    match reply {
        Ok(value) => Ok(value@),
        Err(error) => Err(error),
    }
}

/// The same answer, with its optional value read through the view.
pub open spec fn answer_option<T: View, E>(reply: Result<Option<T>, E>) -> Result<Option<T::V>, E> {
    match reply {
        Ok(value) => Ok(option_view(value)),
        Err(error) => Err(error),
    }
}

/// The same answer, with each row of its list read through the view.
pub open spec fn answer_rows<T: View, E>(reply: Result<Vec<T>, E>) -> Result<Seq<T::V>, E> {
    match reply {
        Ok(value) => Ok(rows_view(value@)),
        Err(error) => Err(error),
    }
}

/// A value that can be copied without changing what it stands for.
pub trait Duplicate: View + Sized {
    /// A copy with the same view.
    fn duplicate(&self) -> (copy: Self)
        ensures
            copy@ == self@,
    ;
}

/// Whether some row satisfies `p`.
pub open spec fn any<V>(rows: Seq<V>, p: spec_fn(V) -> bool) -> bool {
    exists|i: int| 0 <= i < rows.len() && p(#[trigger] rows[i])
}

/// How many rows satisfy `p`.
pub open spec fn count<V>(rows: Seq<V>, p: spec_fn(V) -> bool) -> nat {
    rows.filter(p).len()
}

/// The first row that satisfies `p`.
pub open spec fn first<V>(rows: Seq<V>, p: spec_fn(V) -> bool) -> Option<V> {
    if rows.filter(p).len() > 0 {
        Some(rows.filter(p)[0])
    } else {
        None
    }
}

/// The table after every row that satisfies `p` was rewritten by `f`.
pub open spec fn updated<V>(rows: Seq<V>, p: spec_fn(V) -> bool, f: spec_fn(V) -> V) -> Seq<V> {
    Seq::new(rows.len(), |i: int| if p(rows[i]) { f(rows[i]) } else { rows[i] })
}

/// The table after every row that satisfies `p` was rewritten by `f`, or
/// nothing where `f` has no result for one of them.
pub open spec fn attempted<V>(
    rows: Seq<V>,
    p: spec_fn(V) -> bool,
    f: spec_fn(V) -> Option<V>,
) -> Option<Seq<V>> {
    if any(rows, |v: V| p(v) && f(v) is None) {
        None
    } else {
        Some(updated(rows, p, |v: V| f(v)->0))
    }
}

/// The table after every row that satisfies `p` was deleted.
pub open spec fn without<V>(rows: Seq<V>, p: spec_fn(V) -> bool) -> Seq<V> {
    rows.filter(|v: V| !p(v))
}

/// The rows that satisfy `p`, each read as `f` says.
pub open spec fn selected<V, W>(
    rows: Seq<V>,
    p: spec_fn(V) -> bool,
    f: spec_fn(V) -> W,
) -> Seq<W> {
    rows.filter(p).map_values(f)
}

/// `sorted` with `v` placed behind the last row that does not come after it.
pub open spec fn placed<V>(sorted: Seq<V>, v: V, before: spec_fn(V, V) -> bool) -> Seq<V>
    decreases sorted.len(),
{
    if sorted.len() == 0 || !before(v, sorted.last()) {
        sorted.push(v)
    } else {
        placed(sorted.drop_last(), v, before).push(sorted.last())
    }
}

/// The rows in the order that `before` gives, equal rows in table order.
pub open spec fn ordered<V>(rows: Seq<V>, before: spec_fn(V, V) -> bool) -> Seq<V>
    decreases rows.len(),
{
    if rows.len() == 0 {
        rows
    } else {
        placed(ordered(rows.drop_last(), before), rows.last(), before)
    }
}

/// The first `limit` rows, or all of them where there are fewer.
pub open spec fn page<V>(rows: Seq<V>, limit: int) -> Seq<V> {
    if rows.len() <= limit {
        rows
    } else {
        rows.take(limit)
    }
}

/// Extending a sequence by one row extends the filtered sequence by that row
/// exactly when the row satisfies the predicate.
pub proof fn lemma_filter_push<V>(rows: Seq<V>, v: V, p: spec_fn(V) -> bool)
    ensures
        rows.push(v).filter(p) == if p(v) { rows.filter(p).push(v) } else { rows.filter(p) },
{
    reveal(Seq::filter);
    assert(rows.push(v).drop_last() =~= rows);
}

/// A predicate that no row satisfies filters everything out.
pub proof fn lemma_filter_none<V>(rows: Seq<V>, p: spec_fn(V) -> bool)
    requires
        forall|i: int| 0 <= i < rows.len() ==> !p(#[trigger] rows[i]),
    ensures
        rows.filter(p) =~= Seq::<V>::empty(),
    decreases rows.len(),
{
    reveal(Seq::filter);
    if rows.len() > 0 {
        lemma_filter_none(rows.drop_last(), p);
    }
}

/// Some row satisfies a predicate exactly when the count is not zero.
pub proof fn lemma_any_counted<V>(rows: Seq<V>, p: spec_fn(V) -> bool)
    ensures
        any(rows, p) == (count(rows, p) > 0),
        any(rows, p) == (first(rows, p) is Some),
    decreases rows.len(),
{
    reveal(Seq::filter);
    if rows.len() > 0 {
        let rest = rows.drop_last();
        lemma_any_counted(rest, p);
        if any(rest, p) {
            let i = choose|i: int| 0 <= i < rest.len() && p(#[trigger] rest[i]);
            assert(p(rows[i]));
        }
        if any(rows, p) && !p(rows.last()) {
            let i = choose|i: int| 0 <= i < rows.len() && p(#[trigger] rows[i]);
            assert(p(rest[i]));
        }
    }
}

/// An update that hits nothing changes nothing.
pub proof fn lemma_updated_none<V>(rows: Seq<V>, p: spec_fn(V) -> bool, f: spec_fn(V) -> V)
    ensures
        !any(rows, p) ==> updated(rows, p, f) == rows,
{
    if !any(rows, p) {
        assert(updated(rows, p, f) =~= rows);
    }
}

/// The first hit of a scan is the head of the filtered sequence.
pub proof fn lemma_first_hit<V>(rows: Seq<V>, p: spec_fn(V) -> bool, i: int)
    requires
        0 <= i < rows.len(),
        p(rows[i]),
        forall|j: int| 0 <= j < i ==> !p(#[trigger] rows[j]),
    ensures
        rows.filter(p).len() > 0,
        rows.filter(p)[0] == rows[i],
{
    let head = rows.take(i);
    let tail = rows.skip(i + 1);
    assert(rows =~= head.push(rows[i]) + tail);
    Seq::filter_distributes_over_add(head.push(rows[i]), tail, p);
    lemma_filter_push(head, rows[i], p);
    lemma_filter_none(head, p);
}

/// Find the first row that satisfies the predicate.
pub fn find_row<R: View, P: Fn(&R) -> bool>(
    rows: &Vec<R>,
    p: P,
    Ghost(sp): Ghost<spec_fn(R::V) -> bool>,
) -> (found: Option<usize>)
    requires
        forall|r: &R| p.requires((r,)),
        forall|r: &R, b: bool| p.ensures((r,), b) ==> b == sp(r@),
    ensures
        match found {
            Some(i) => {
                &&& i < rows@.len()
                &&& sp(rows@[i as int]@)
                &&& first(rows_view(rows@), sp) == Some(rows@[i as int]@)
                &&& any(rows_view(rows@), sp)
            },
            None => first(rows_view(rows@), sp) is None && !any(rows_view(rows@), sp),
        },
{
    let ghost rv = rows_view(rows@);
    let mut i: usize = 0;
    while i < rows.len()
        invariant
            i <= rows@.len(),
            rv == rows_view(rows@),
            forall|r: &R| p.requires((r,)),
            forall|r: &R, b: bool| p.ensures((r,), b) ==> b == sp(r@),
            forall|j: int| 0 <= j < i ==> !sp(#[trigger] rv[j]),
        decreases rows@.len() - i,
    {
        if p(&rows[i]) {
            proof {
                lemma_first_hit(rv, sp, i as int);
                assert(sp(rv[i as int]));
            }
            return Some(i);
        }
        i = i + 1;
    }
    proof {
        lemma_filter_none(rv, sp);
    }
    None
}

/// Rewrite every row that satisfies the predicate and count the rewritten rows.
pub fn update_rows<R: View, P: Fn(&R) -> bool, F: Fn(&R) -> R>(
    rows: &mut Vec<R>,
    p: P,
    f: F,
    Ghost(sp): Ghost<spec_fn(R::V) -> bool>,
    Ghost(sf): Ghost<spec_fn(R::V) -> R::V>,
) -> (changed: usize)
    requires
        forall|r: &R| p.requires((r,)),
        forall|r: &R, b: bool| p.ensures((r,), b) ==> b == sp(r@),
        forall|i: int|
            0 <= i < old(rows)@.len() && sp((#[trigger] old(rows)@[i])@) ==> f.requires(
                (&old(rows)@[i],),
            ),
        forall|r: &R, s: R| f.ensures((r,), s) ==> s@ == sf(r@),
    ensures
        rows_view(final(rows)@) == updated(rows_view(old(rows)@), sp, sf),
        changed == count(rows_view(old(rows)@), sp),
{
    let ghost before = rows@;
    let ghost rv = rows_view(rows@);
    let mut i: usize = 0;
    let mut changed: usize = 0;
    proof {
        lemma_filter_none(rv.take(0), sp);
    }
    while i < rows.len()
        invariant
            i <= rows@.len(),
            rows@.len() == before.len(),
            rv == rows_view(before),
            changed <= i,
            changed == rv.take(i as int).filter(sp).len(),
            forall|r: &R| p.requires((r,)),
            forall|r: &R, b: bool| p.ensures((r,), b) ==> b == sp(r@),
            forall|j: int|
                0 <= j < before.len() && sp((#[trigger] before[j])@) ==> f.requires((&before[j],)),
            forall|r: &R, s: R| f.ensures((r,), s) ==> s@ == sf(r@),
            forall|j: int| i <= j < rows@.len() ==> #[trigger] rows@[j] == before[j],
            forall|j: int|
                0 <= j < i ==> (#[trigger] rows@[j])@ == (if sp(rv[j]) {
                    sf(rv[j])
                } else {
                    rv[j]
                }),
        decreases rows@.len() - i,
    {
        proof {
            assert(rv.take(i + 1) =~= rv.take(i as int).push(rv[i as int]));
            lemma_filter_push(rv.take(i as int), rv[i as int], sp);
            assert(rows@[i as int] == before[i as int]);
        }
        if p(&rows[i]) {
            let s = f(&rows[i]);
            rows.set(i, s);
            changed = changed + 1;
        }
        i = i + 1;
    }
    proof {
        assert(rv.take(i as int) =~= rv);
        assert(rows_view(rows@) =~= updated(rv, sp, sf));
    }
    changed
}

/// Whether some row satisfies the predicate.
pub fn any_row<R: View, P: Fn(&R) -> bool>(
    rows: &Vec<R>,
    p: P,
    Ghost(sp): Ghost<spec_fn(R::V) -> bool>,
) -> (found: bool)
    requires
        forall|r: &R| p.requires((r,)),
        forall|r: &R, b: bool| p.ensures((r,), b) ==> b == sp(r@),
    ensures
        found == any(rows_view(rows@), sp),
{
    find_row(rows, p, Ghost(sp)).is_some()
}

/// Count the rows that satisfy the predicate.
pub fn count_rows<R: View, P: Fn(&R) -> bool>(
    rows: &Vec<R>,
    p: P,
    Ghost(sp): Ghost<spec_fn(R::V) -> bool>,
) -> (total: usize)
    requires
        forall|r: &R| p.requires((r,)),
        forall|r: &R, b: bool| p.ensures((r,), b) ==> b == sp(r@),
    ensures
        total == count(rows_view(rows@), sp),
{
    let ghost rv = rows_view(rows@);
    let mut i: usize = 0;
    let mut total: usize = 0;
    proof {
        lemma_filter_none(rv.take(0), sp);
    }
    while i < rows.len()
        invariant
            i <= rows@.len(),
            rv == rows_view(rows@),
            total <= i,
            total == rv.take(i as int).filter(sp).len(),
            forall|r: &R| p.requires((r,)),
            forall|r: &R, b: bool| p.ensures((r,), b) ==> b == sp(r@),
        decreases rows@.len() - i,
    {
        proof {
            assert(rv.take(i + 1) =~= rv.take(i as int).push(rv[i as int]));
            lemma_filter_push(rv.take(i as int), rv[i as int], sp);
        }
        if p(&rows[i]) {
            total = total + 1;
        }
        i = i + 1;
    }
    proof {
        assert(rv.take(i as int) =~= rv);
    }
    total
}

/// Rewrite every row that satisfies the predicate, unless the rewriting has no
/// result for one of them. Returns the number of rewritten rows.
pub fn attempt_rows<R: View, P: Fn(&R) -> bool, F: Fn(&R) -> Option<R>>(
    rows: &mut Vec<R>,
    p: P,
    f: F,
    Ghost(sp): Ghost<spec_fn(R::V) -> bool>,
    Ghost(sf): Ghost<spec_fn(R::V) -> Option<R::V>>,
) -> (changed: Option<usize>)
    requires
        forall|r: &R| p.requires((r,)),
        forall|r: &R, b: bool| p.ensures((r,), b) ==> b == sp(r@),
        forall|r: &R| f.requires((r,)),
        forall|r: &R, s: Option<R>| f.ensures((r,), s) ==> option_view(s) == sf(r@),
    ensures
        match attempted(rows_view(old(rows)@), sp, sf) {
            Some(after) => {
                &&& rows_view(final(rows)@) == after
                &&& changed is Some
                &&& changed->0 == count(rows_view(old(rows)@), sp)
            },
            None => changed is None && *final(rows) == *old(rows),
        },
{
    let ghost before = rows@;
    let ghost rv = rows_view(rows@);
    let ghost stuck = |v: R::V| sp(v) && sf(v) is None;
    let mut i: usize = 0;
    while i < rows.len()
        invariant
            i <= rows@.len(),
            *rows == *old(rows),
            rv == rows_view(rows@),
            stuck == (|v: R::V| sp(v) && sf(v) is None),
            forall|r: &R| p.requires((r,)),
            forall|r: &R, b: bool| p.ensures((r,), b) ==> b == sp(r@),
            forall|r: &R| f.requires((r,)),
            forall|r: &R, s: Option<R>| f.ensures((r,), s) ==> option_view(s) == sf(r@),
            forall|j: int| 0 <= j < i ==> !(sp(#[trigger] rv[j]) && sf(rv[j]) is None),
        decreases rows@.len() - i,
    {
        if p(&rows[i]) {
            let replacement = f(&rows[i]);
            if replacement.is_none() {
                proof {
                    assert(stuck(rv[i as int]));
                }
                return None;
            }
        }
        i = i + 1;
    }
    let mut changed: usize = 0;
    i = 0;
    proof {
        lemma_filter_none(rv.take(0), sp);
    }
    while i < rows.len()
        invariant
            i <= rows@.len(),
            rows@.len() == before.len(),
            rv == rows_view(before),
            changed <= i,
            changed == rv.take(i as int).filter(sp).len(),
            forall|r: &R| p.requires((r,)),
            forall|r: &R, b: bool| p.ensures((r,), b) ==> b == sp(r@),
            forall|r: &R| f.requires((r,)),
            forall|r: &R, s: Option<R>| f.ensures((r,), s) ==> option_view(s) == sf(r@),
            forall|j: int| 0 <= j < rv.len() ==> !(sp(#[trigger] rv[j]) && sf(rv[j]) is None),
            forall|j: int| i <= j < rows@.len() ==> #[trigger] rows@[j] == before[j],
            forall|j: int|
                0 <= j < i ==> (#[trigger] rows@[j])@ == (if sp(rv[j]) {
                    sf(rv[j])->0
                } else {
                    rv[j]
                }),
        decreases rows@.len() - i,
    {
        proof {
            assert(rv.take(i + 1) =~= rv.take(i as int).push(rv[i as int]));
            lemma_filter_push(rv.take(i as int), rv[i as int], sp);
            assert(rows@[i as int] == before[i as int]);
        }
        if p(&rows[i]) {
            match f(&rows[i]) {
                Some(replacement) => {
                    rows.set(i, replacement);
                },
                None => {
                    assert(false);
                },
            }
            changed = changed + 1;
        }
        i = i + 1;
    }
    proof {
        assert(rv.take(i as int) =~= rv);
        assert(!any(rv, stuck));
        assert(rows_view(rows@) =~= updated(rv, sp, |v: R::V| sf(v)->0));
    }
    Some(changed)
}

/// Delete every row that satisfies the predicate and count the deleted rows.
pub fn remove_rows<R: View, P: Fn(&R) -> bool>(
    rows: &mut Vec<R>,
    p: P,
    Ghost(sp): Ghost<spec_fn(R::V) -> bool>,
) -> (removed: usize)
    requires
        forall|r: &R| p.requires((r,)),
        forall|r: &R, b: bool| p.ensures((r,), b) ==> b == sp(r@),
    ensures
        rows_view(final(rows)@) == without(rows_view(old(rows)@), sp),
        removed == count(rows_view(old(rows)@), sp),
{
    let ghost rv = rows_view(rows@);
    let ghost keep = |v: R::V| !sp(v);
    let total: usize = rows.len();
    let mut done: usize = 0;
    let mut i: usize = 0;
    proof {
        lemma_filter_none(rv.take(0), sp);
        lemma_filter_none(rv.take(0), keep);
    }
    while done < total
        invariant
            done <= total,
            total == rv.len(),
            i <= done,
            rows@.len() == total - done + i,
            keep == (|v: R::V| !sp(v)),
            forall|r: &R| p.requires((r,)),
            forall|r: &R, b: bool| p.ensures((r,), b) ==> b == sp(r@),
            rows_view(rows@).take(i as int) == rv.take(done as int).filter(keep),
            forall|j: int| i <= j < rows@.len() ==> (#[trigger] rows@[j])@ == rv[j - i + done],
            done - i == rv.take(done as int).filter(sp).len(),
        decreases total - done,
    {
        let ghost step = rows@;
        proof {
            assert(rv.take(done + 1) =~= rv.take(done as int).push(rv[done as int]));
            lemma_filter_push(rv.take(done as int), rv[done as int], sp);
            lemma_filter_push(rv.take(done as int), rv[done as int], keep);
            assert(rows@[i as int]@ == rv[done as int]);
        }
        if p(&rows[i]) {
            rows.remove(i);
            proof {
                assert(rows_view(rows@).take(i as int) =~= rows_view(step).take(i as int));
            }
        } else {
            proof {
                assert(rows_view(rows@).take(i + 1) =~= rows_view(rows@).take(i as int).push(
                    rv[done as int],
                ));
            }
            i = i + 1;
        }
        done = done + 1;
    }
    proof {
        assert(rv.take(done as int) =~= rv);
        assert(rows_view(rows@).take(i as int) =~= rows_view(rows@));
    }
    total - i
}

/// Collect the rows that satisfy the predicate, each turned into a record.
pub fn select_rows<R: View, T: View, P: Fn(&R) -> bool, F: Fn(&R) -> T>(
    rows: &Vec<R>,
    p: P,
    f: F,
    Ghost(sp): Ghost<spec_fn(R::V) -> bool>,
    Ghost(sf): Ghost<spec_fn(R::V) -> T::V>,
) -> (found: Vec<T>)
    requires
        forall|r: &R| p.requires((r,)),
        forall|r: &R, b: bool| p.ensures((r,), b) ==> b == sp(r@),
        forall|r: &R| f.requires((r,)),
        forall|r: &R, t: T| f.ensures((r,), t) ==> t@ == sf(r@),
    ensures
        rows_view(found@) == selected(rows_view(rows@), sp, sf),
{
    let ghost rv = rows_view(rows@);
    let mut found: Vec<T> = Vec::new();
    let mut i: usize = 0;
    proof {
        lemma_filter_none(rv.take(0), sp);
        assert(rows_view(found@) =~= selected(rv.take(0), sp, sf));
    }
    while i < rows.len()
        invariant
            i <= rows@.len(),
            rv == rows_view(rows@),
            rows_view(found@) == selected(rv.take(i as int), sp, sf),
            forall|r: &R| p.requires((r,)),
            forall|r: &R, b: bool| p.ensures((r,), b) ==> b == sp(r@),
            forall|r: &R| f.requires((r,)),
            forall|r: &R, t: T| f.ensures((r,), t) ==> t@ == sf(r@),
        decreases rows@.len() - i,
    {
        let ghost step = found@;
        proof {
            assert(rv.take(i + 1) =~= rv.take(i as int).push(rv[i as int]));
            lemma_filter_push(rv.take(i as int), rv[i as int], sp);
        }
        if p(&rows[i]) {
            let record = f(&rows[i]);
            found.push(record);
            proof {
                assert(rows_view(found@) =~= rows_view(step).push(sf(rv[i as int])));
                assert(selected(rv.take(i + 1), sp, sf) =~= selected(
                    rv.take(i as int),
                    sp,
                    sf,
                ).push(sf(rv[i as int])));
            }
        }
        i = i + 1;
    }
    proof {
        assert(rv.take(i as int) =~= rv);
    }
    found
}

/// A row placed at `at` stands where `placed` puts it, when no row from `at` on
/// may come before it and the row at `at - 1` may.
proof fn lemma_placed_at<V>(sorted: Seq<V>, v: V, before: spec_fn(V, V) -> bool, at: int)
    requires
        0 <= at <= sorted.len(),
        at > 0 ==> !before(v, sorted[at - 1]),
        forall|j: int| at <= j < sorted.len() ==> before(v, #[trigger] sorted[j]),
    ensures
        placed(sorted, v, before) == sorted.insert(at, v),
    decreases sorted.len(),
{
    if at == sorted.len() {
        assert(sorted.insert(at, v) =~= sorted.push(v));
    } else {
        lemma_placed_at(sorted.drop_last(), v, before, at);
        assert(sorted.insert(at, v) =~= sorted.drop_last().insert(at, v).push(sorted.last()));
    }
}

/// Order the rows by insertion.
pub fn order_rows<R: View, B: Fn(&R, &R) -> bool>(
    rows: Vec<R>,
    before: B,
    Ghost(sb): Ghost<spec_fn(R::V, R::V) -> bool>,
) -> (sorted: Vec<R>)
    requires
        forall|r: &R, s: &R| before.requires((r, s)),
        forall|r: &R, s: &R, b: bool| before.ensures((r, s), b) ==> b == sb(r@, s@),
    ensures
        rows_view(sorted@) == ordered(rows_view(rows@), sb),
{
    let ghost rv = rows_view(rows@);
    let mut rest: Vec<R> = rows;
    let mut reversed: Vec<R> = Vec::new();
    while rest.len() > 0
        invariant
            rv == rows_view(rest@) + rows_view(reversed@).reverse(),
        decreases rest@.len(),
    {
        let ghost before_pop = rest@;
        let ghost before_push = reversed@;
        match rest.pop() {
            Some(row) => {
                reversed.push(row);
                proof {
                    assert(before_pop =~= rest@.push(row));
                    assert(rows_view(reversed@) =~= rows_view(before_push).push(row@));
                    assert(rows_view(rest@) + rows_view(reversed@).reverse() =~= rows_view(
                        before_pop,
                    ) + rows_view(before_push).reverse());
                }
            },
            None => {
                assert(false);
            },
        }
    }
    let mut sorted: Vec<R> = Vec::new();
    proof {
        assert(rows_view(rest@) + rows_view(reversed@).reverse() =~= rows_view(
            reversed@,
        ).reverse());
        assert(rows_view(sorted@) =~= ordered(rv.take(0), sb));
    }
    while reversed.len() > 0
        invariant
            rv.len() >= reversed@.len(),
            forall|j: int|
                0 <= j < reversed@.len() ==> (#[trigger] reversed@[j])@ == rv[rv.len() - 1 - j],
            rows_view(sorted@) == ordered(rv.take(rv.len() - reversed@.len()), sb),
            forall|r: &R, s: &R| before.requires((r, s)),
            forall|r: &R, s: &R, b: bool| before.ensures((r, s), b) ==> b == sb(r@, s@),
        decreases reversed@.len(),
    {
        let ghost done = rv.len() - reversed@.len();
        let ghost step = sorted@;
        proof {
            assert(reversed@[reversed@.len() - 1]@ == rv[done]);
            assert(rv.take(done + 1).drop_last() =~= rv.take(done));
        }
        match reversed.pop() {
            Some(row) => {
                let mut at: usize = sorted.len();
                while at > 0 && before(&row, &sorted[at - 1])
                    invariant
                        at <= sorted@.len(),
                        forall|r: &R, s: &R| before.requires((r, s)),
                        forall|r: &R, s: &R, b: bool|
                            before.ensures((r, s), b) ==> b == sb(r@, s@),
                        forall|j: int|
                            at <= j < sorted@.len() ==> sb(row@, (#[trigger] sorted@[j])@),
                    ensures
                        at <= sorted@.len(),
                        at > 0 ==> !sb(row@, sorted@[at - 1]@),
                        forall|j: int|
                            at <= j < sorted@.len() ==> sb(row@, (#[trigger] sorted@[j])@),
                    decreases at,
                {
                    at = at - 1;
                }
                let ghost placed_row = row@;
                proof {
                    lemma_placed_at(rows_view(sorted@), row@, sb, at as int);
                }
                sorted.insert(at, row);
                proof {
                    assert(rows_view(sorted@) =~= rows_view(step).insert(at as int, placed_row));
                }
            },
            None => {
                assert(false);
            },
        }
    }
    proof {
        assert(rv.take(rv.len() as int) =~= rv);
    }
    sorted
}

/// Keep at most `limit` rows.
pub fn page_rows<R: View>(rows: Vec<R>, limit: usize) -> (kept: Vec<R>)
    ensures
        rows_view(kept@) == page(rows_view(rows@), limit as int),
{
    let ghost before = rows@;
    let mut kept: Vec<R> = rows;
    if kept.len() > limit {
        kept.truncate(limit);
        proof {
            assert(rows_view(kept@) =~= rows_view(before).take(limit as int));
        }
    }
    kept
}

/// A copy of an optional value.
pub fn copy_option<R: Duplicate>(value: &Option<R>) -> (copy: Option<R>)
    ensures
        option_view(copy) == option_view(*value),
{
    match value {
        Some(inner) => Some(inner.duplicate()),
        None => None,
    }
}

/// Append a row.
pub fn push_row<R: View>(rows: &mut Vec<R>, row: R)
    ensures
        rows_view(final(rows)@) == rows_view(old(rows)@).push(row@),
{
    let ghost before = rows_view(rows@);
    let ghost pushed = row@;
    rows.push(row);
    proof {
        assert(rows_view(rows@) =~= before.push(pushed));
    }
}

/// Copy a table.
pub fn copy_rows<R: Duplicate>(rows: &Vec<R>) -> (copy: Vec<R>)
    ensures
        rows_view(copy@) == rows_view(rows@),
{
    let mut copy: Vec<R> = Vec::new();
    let mut i: usize = 0;
    while i < rows.len()
        invariant
            i <= rows@.len(),
            copy@.len() == i,
            forall|j: int| 0 <= j < i ==> (#[trigger] copy@[j])@ == rows@[j]@,
        decreases rows@.len() - i,
    {
        copy.push(rows[i].duplicate());
        i = i + 1;
    }
    proof {
        assert(rows_view(copy@) =~= rows_view(rows@));
    }
    copy
}

} // verus!
