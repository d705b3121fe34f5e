//! What each step of a browser session does to it, by what the session says.

use crate::clock::ClockReadingView;
use crate::error::StoreError;
use crate::keys::{operator_id, session_id};
use crate::moment_laws::{lemma_runs, mark, runs, runs_twice};
use crate::operators::{active_operator, operator_with};
use crate::records::{LocalOperatorView, LocalSessionView};
use crate::relation::{any, count};
use crate::relation_laws::{
    lemma_at_most_one, lemma_none, lemma_sole, lemma_unique_push, lemma_unique_replaced, unique,
};
use crate::sessions::{
    owned_session, owner_of, refreshed_by, revocable_session, rotatable_session, session_with,
    usable_refresh, usable_session,
};
use crate::store::StoreView;
use crate::tables::SessionRowView;
use vstd::prelude::*;

verus! {

/// Whether a session can be used at a moment: it is not revoked, its deadline is ahead,
/// and it was seen in the last twelve hours.
pub open spec fn is_open(row: SessionRowView, now_ms: i64) -> bool {
    row.revoked_at_ms is None && row.expires_at_ms > now_ms && row.last_seen_at_ms + 43_200_000
        > now_ms
}

/// A session as it is told: until its deadline, or until it was idle for twelve hours.
pub open spec fn session_told(row: SessionRowView, operator: LocalOperatorView) -> LocalSessionView {
    LocalSessionView {
        session_id: row.id,
        operator,
        csrf_secret: row.csrf_secret,
        expires_at_ms: if row.last_seen_at_ms + 43_200_000 < row.expires_at_ms {
            (row.last_seen_at_ms + 43_200_000) as i64
        } else {
            row.expires_at_ms
        },
    }
}

proof fn lemma_owner(state: StoreView, row: SessionRowView, j: int)
    requires
        unique(state.operators, operator_id()),
        0 <= j < state.operators.len(),
        state.operators[j].operator.id == row.operator_id,
    ensures
        any(state.operators, owner_of(row, true)) == (state.operators[j].operator.disabled_at_ms
            is None),
        any(state.operators, active_operator(row.operator_id)) == (
        state.operators[j].operator.disabled_at_ms is None),
        count(state.operators, active_operator(row.operator_id)) == if (
        state.operators[j].operator.disabled_at_ms is None) {
            1nat
        } else {
            0
        },
        any(state.operators, owner_of(row, false)),
        state.operators[j].operator.disabled_at_ms is None ==> crate::relation::first(
            state.operators,
            owner_of(row, true),
        ) == Some(state.operators[j]),
        crate::relation::first(state.operators, owner_of(row, false)) == Some(state.operators[j]),
{
    lemma_sole(state.operators, operator_id(), active_operator(row.operator_id), j);
    lemma_sole(state.operators, operator_id(), operator_with(row.operator_id), j);
}

/// A browser session is read under its identifier while it can be used and its operator
/// is not disabled.
pub proof fn a_session_is_read_while_it_is_open(
    state: StoreView,
    c: ClockReadingView,
    id: Seq<char>,
    i: int,
    j: int,
)
    requires
        unique(state.operator_sessions, session_id()),
        unique(state.operators, operator_id()),
        runs(state, c),
        0 <= i < state.operator_sessions.len(),
        state.operator_sessions[i].id == id,
        0 <= j < state.operators.len(),
        state.operators[j].operator.id == state.operator_sessions[i].operator_id,
    ensures
        ({
            let row = state.operator_sessions[i];
            let operator = state.operators[j].operator;
            state.browser_session_by_id(c, id) == (
                state.checkpoint_clock(c).0,
                Ok::<Option<LocalSessionView>, StoreError>(
                    if row.kind == "browser"@ && is_open(row, c.now_ms) && operator.disabled_at_ms
                        is None {
                        Some(session_told(row, operator))
                    } else {
                        None
                    },
                ),
            )
        }),
{
    lemma_runs(state, c);
    lemma_owner(state, state.operator_sessions[i], j);
    lemma_sole(
        state.operator_sessions,
        session_id(),
        owned_session(state.operators, usable_session(id, Some(c.now_ms)), true),
        i,
    );
}

/// A browser session is read under its refresh hash while it can be used and its
/// operator is not disabled. What it is at all is read whatever it is.
pub proof fn a_session_is_read_under_its_refresh_hash(
    state: StoreView,
    c: ClockReadingView,
    hash: Seq<char>,
    i: int,
    j: int,
)
    requires
        unique(state.operators, operator_id()),
        runs(state, c),
        0 <= i < state.operator_sessions.len(),
        state.operator_sessions[i].refresh_hash == hash,
        forall|k: int|
            0 <= k < state.operator_sessions.len() && k != i ==> (
            #[trigger] state.operator_sessions[k]).refresh_hash != hash,
        0 <= j < state.operators.len(),
        state.operators[j].operator.id == state.operator_sessions[i].operator_id,
    ensures
        ({
            let s = state.checkpoint_clock(c).0;
            let row = state.operator_sessions[i];
            let operator = state.operators[j].operator;
            &&& state.browser_session_by_refresh_hash(c, hash) == (
                s,
                Ok::<Option<LocalSessionView>, StoreError>(
                    if row.kind == "browser"@ && is_open(row, c.now_ms) && operator.disabled_at_ms
                        is None {
                        Some(session_told(row, operator))
                    } else {
                        None
                    },
                ),
            )
            &&& state.browser_session_for_refresh_hash(c, hash) == (
                s,
                Ok::<Option<LocalSessionView>, StoreError>(
                    if row.kind == "browser"@ {
                        Some(session_told(row, operator))
                    } else {
                        None
                    },
                ),
            )
        }),
{
    lemma_runs(state, c);
    lemma_owner(state, state.operator_sessions[i], j);
    lemma_at_most_one(
        state.operator_sessions,
        owned_session(state.operators, usable_refresh(hash, Some(c.now_ms)), true),
        i,
    );
    lemma_at_most_one(
        state.operator_sessions,
        owned_session(state.operators, refreshed_by(hash), false),
        i,
    );
}

/// Sessions that nobody has are not read, touched or revoked.
pub proof fn an_absent_session_is_out_of_reach(
    state: StoreView,
    c: ClockReadingView,
    id: Seq<char>,
    hash: Seq<char>,
)
    requires
        runs(state, c),
    ensures
        ({
            let s = state.checkpoint_clock(c).0;
            let nothing = (s, Ok::<Option<LocalSessionView>, StoreError>(None));
            &&& (forall|q: int|
                0 <= q < state.operator_sessions.len()
                    ==> (#[trigger] state.operator_sessions[q]).id != id) ==> {
                &&& state.browser_session_by_id(c, id) == nothing
                &&& state.touch_browser_session(c, id) == (s, Ok::<bool, StoreError>(false))
                &&& state.revoke_browser_session(c, id) == (s, Ok::<bool, StoreError>(false))
            }
            &&& (forall|q: int|
                0 <= q < state.operator_sessions.len()
                    ==> (#[trigger] state.operator_sessions[q]).refresh_hash != hash) ==> {
                &&& state.browser_session_by_refresh_hash(c, hash) == nothing
                &&& state.browser_session_for_refresh_hash(c, hash) == nothing
            }
        }),
{
    lemma_runs(state, c);
    let rows = state.operator_sessions;
    let now = Some(c.now_ms);
    if forall|q: int|
        0 <= q < state.operator_sessions.len()
            ==> (#[trigger] state.operator_sessions[q]).id != id {
        lemma_none(rows, owned_session(state.operators, usable_session(id, now), true));
        lemma_none(rows, revocable_session(id, now));
    }
    if forall|q: int|
        0 <= q < state.operator_sessions.len()
            ==> (#[trigger] state.operator_sessions[q]).refresh_hash != hash {
        lemma_none(rows, owned_session(state.operators, usable_refresh(hash, now), true));
        lemma_none(rows, owned_session(state.operators, refreshed_by(hash), false));
    }
}

/// A browser session is touched while it can be used and its operator is not disabled:
/// it was then seen now. It is revoked, now, where it is not revoked yet. Nothing else
/// changes.
pub proof fn a_session_is_touched_and_revoked(
    state: StoreView,
    c: ClockReadingView,
    id: Seq<char>,
    i: int,
    j: int,
)
    requires
        unique(state.operator_sessions, session_id()),
        unique(state.operators, operator_id()),
        runs(state, c),
        0 <= i < state.operator_sessions.len(),
        state.operator_sessions[i].id == id,
        0 <= j < state.operators.len(),
        state.operators[j].operator.id == state.operator_sessions[i].operator_id,
    ensures
        ({
            let s = state.checkpoint_clock(c).0;
            let row = state.operator_sessions[i];
            &&& state.touch_browser_session(c, id) == if row.kind == "browser"@ && is_open(
                row,
                c.now_ms,
            ) && state.operators[j].operator.disabled_at_ms is None {
                (
                    StoreView {
                        operator_sessions: state.operator_sessions.update(
                            i,
                            SessionRowView { last_seen_at_ms: c.now_ms, ..row },
                        ),
                        ..s
                    },
                    Ok::<bool, StoreError>(true),
                )
            } else {
                (s, Ok::<bool, StoreError>(false))
            }
            &&& state.revoke_browser_session(c, id) == if row.kind == "browser"@
                && row.revoked_at_ms is None {
                (
                    StoreView {
                        operator_sessions: state.operator_sessions.update(
                            i,
                            SessionRowView { revoked_at_ms: Some(c.now_ms), ..row },
                        ),
                        ..s
                    },
                    Ok::<bool, StoreError>(true),
                )
            } else {
                (s, Ok::<bool, StoreError>(false))
            }
        }),
{
    lemma_runs(state, c);
    let now = Some(c.now_ms);
    lemma_owner(state, state.operator_sessions[i], j);
    lemma_sole(
        state.operator_sessions,
        session_id(),
        owned_session(state.operators, usable_session(id, now), true),
        i,
    );
    lemma_sole(state.operator_sessions, session_id(), revocable_session(id, now), i);
}

/// The session that is opened for an operator.
pub open spec fn opened_session(
    id: Seq<char>,
    operator: Seq<char>,
    hash: Seq<char>,
    csrf_secret: Seq<char>,
    rotated_from: Option<Seq<char>>,
    family: Seq<char>,
    now_ms: i64,
    deadline: int,
) -> SessionRowView {
    SessionRowView {
        id,
        operator_id: operator,
        refresh_hash: hash,
        csrf_secret,
        kind: "browser"@,
        created_at_ms: now_ms,
        expires_at_ms: deadline as i64,
        rotated_from,
        family_id: family,
        last_seen_at_ms: now_ms,
        revoked_at_ms: None,
    }
}

/// An operator who is not disabled is given a browser session: it is the first of its
/// family, seen now, until its time to live is over. Nobody else is given one.
pub proof fn a_session_is_opened_for_an_active_operator(
    state: StoreView,
    c: ClockReadingView,
    follow_up: ClockReadingView,
    id: Seq<char>,
    csrf_secret: Seq<char>,
    operator: Seq<char>,
    hash: Seq<char>,
    ttl_seconds: u64,
    j: int,
)
    requires
        unique(state.operator_sessions, session_id()),
        unique(state.operators, operator_id()),
        runs_twice(state, c, follow_up),
        0 <= j < state.operators.len(),
        state.operators[j].operator.id == operator,
    ensures
        ({
            let (after, reply) = state.open_browser_session(
                c,
                follow_up,
                id,
                csrf_secret,
                operator,
                hash,
                ttl_seconds,
            );
            let rows = state.operator_sessions;
            let deadline = c.now_ms + ttl_seconds * 1_000;
            let row = opened_session(
                id,
                operator,
                hash,
                csrf_secret,
                None,
                id,
                c.now_ms,
                deadline,
            );
            if hash.len() == 0 {
                after.operator_sessions == rows
                    && reply == Err::<Option<LocalSessionView>, StoreError>(
                    StoreError::InvalidInput("refresh hash"),
                )
            } else if ttl_seconds == 0 || ttl_seconds * 1_000 > i64::MAX {
                after.operator_sessions == rows
                    && reply == Err::<Option<LocalSessionView>, StoreError>(
                    StoreError::InvalidInput("refresh TTL"),
                )
            } else if state.operators[j].operator.disabled_at_ms is Some {
                after.operator_sessions == rows
                    && reply == Ok::<Option<LocalSessionView>, StoreError>(None)
            } else if deadline > i64::MAX || exists|q: int|
                0 <= q < state.operator_sessions.len()
                    && (#[trigger] state.operator_sessions[q]).id == id {
                after.operator_sessions == rows && reply is Err
            } else {
                &&& after.operator_sessions == rows.push(row)
                &&& reply == Ok::<Option<LocalSessionView>, StoreError>(
                    if is_open(row, follow_up.now_ms) {
                        Some(session_told(row, state.operators[j].operator))
                    } else {
                        None
                    },
                )
            }
        }),
{
    lemma_runs(state, c);
    let s = state.checkpoint_clock(c).0;
    lemma_runs(s, follow_up);
    let rows = state.operator_sessions;
    let deadline = c.now_ms + ttl_seconds * 1_000;
    let row = opened_session(id, operator, hash, csrf_secret, None, id, c.now_ms, deadline);
    lemma_owner(state, row, j);
    assert({
        let taken = session_with(id);
        any(state.operator_sessions, taken) == (exists|q: int|
            0 <= q < state.operator_sessions.len()
                && (#[trigger] state.operator_sessions[q]).id == id)
    }) by {
        let taken = session_with(id);
        if exists|q: int|
            0 <= q < state.operator_sessions.len()
                && (#[trigger] state.operator_sessions[q]).id == id {
            let q = choose|q: int|
                0 <= q < state.operator_sessions.len()
                    && (#[trigger] state.operator_sessions[q]).id == id;
            assert(taken(state.operator_sessions[q]));
        }
        if any(state.operator_sessions, taken) {
            let q = choose|q: int|
                0 <= q < state.operator_sessions.len()
                    && taken(#[trigger] state.operator_sessions[q]);
            assert(state.operator_sessions[q].id == id);
        }
    };
    if !any(rows, session_with(id)) && deadline <= i64::MAX {
        let mid = StoreView { operator_sessions: rows.push(row), ..s };
        lemma_runs(mid, follow_up);
        assert(!any(rows, |r: SessionRowView| session_id()(r) == session_id()(row))) by {
            if any(rows, |r: SessionRowView| session_id()(r) == session_id()(row)) {
                let q = choose|q: int|
                    0 <= q < rows.len()
                        && (|r: SessionRowView| session_id()(r) == session_id()(row))(
                        #[trigger] rows[q],
                    );
                assert(session_with(id)(rows[q]));
            }
        }
        lemma_unique_push(rows, session_id(), row);
        assert(mid.operator_sessions[rows.len() as int] == row);
        a_session_is_read_while_it_is_open(mid, follow_up, id, rows.len() as int, j);
    }
}

/// Nobody is given a session for an operator whom nobody stored.
pub proof fn no_session_is_opened_for_an_absent_operator(
    state: StoreView,
    c: ClockReadingView,
    follow_up: ClockReadingView,
    id: Seq<char>,
    csrf_secret: Seq<char>,
    operator: Seq<char>,
    hash: Seq<char>,
    ttl_seconds: u64,
)
    requires
        runs(state, c),
        hash.len() > 0,
        0 < ttl_seconds * 1_000 <= i64::MAX,
        forall|q: int|
            0 <= q < state.operators.len()
                ==> (#[trigger] state.operators[q]).operator.id != operator,
    ensures
        state.open_browser_session(
            c,
            follow_up,
            id,
            csrf_secret,
            operator,
            hash,
            ttl_seconds,
        ) == (state.checkpoint_clock(c).0, Ok::<Option<LocalSessionView>, StoreError>(None)),
{
    lemma_runs(state, c);
    lemma_none(state.operators, active_operator(operator));
}

/// Whether the open sessions of a family were revoked at a moment, and no other one was
/// touched.
pub open spec fn family_revoked(
    before: Seq<SessionRowView>,
    after: Seq<SessionRowView>,
    family: Seq<char>,
    at_ms: i64,
) -> bool {
    &&& after.len() == before.len()
    &&& forall|k: int|
        0 <= k < before.len() ==> #[trigger] after[k] == if before[k].family_id == family
            && before[k].revoked_at_ms is None {
            SessionRowView { revoked_at_ms: Some(at_ms), ..before[k] }
        } else {
            before[k]
        }
}

/// The rotation of the browser session that has a refresh hash, and alone has it.
///
/// Where the session was revoked before, the hash was used twice: every open session of
/// the family is revoked. Where the session is over, nothing changes. Otherwise the
/// session is revoked, and where its operator is not disabled, a new one takes its
/// place, for the same operator, with the same secret, in the same family, under the
/// new hash, from now until its time to live is over.
#[verifier::rlimit(60)]
pub proof fn a_rotation_replaces_an_open_session(
    state: StoreView,
    c: ClockReadingView,
    follow_up: ClockReadingView,
    id: Seq<char>,
    old_hash: Seq<char>,
    new_hash: Seq<char>,
    ttl_seconds: u64,
    i: int,
    j: int,
)
    requires
        unique(state.operator_sessions, session_id()),
        unique(state.operators, operator_id()),
        runs_twice(state, c, follow_up),
        c.later_ms >= mark(state, c),
        0 <= i < state.operator_sessions.len(),
        state.operator_sessions[i].refresh_hash == old_hash,
        forall|k: int|
            0 <= k < state.operator_sessions.len() && k != i ==> (
            #[trigger] state.operator_sessions[k]).refresh_hash != old_hash,
        0 <= j < state.operators.len(),
        state.operators[j].operator.id == state.operator_sessions[i].operator_id,
    ensures
        ({
            let (after, reply) = state.rotate_browser_session_to(
                c,
                follow_up,
                id,
                old_hash,
                new_hash,
                ttl_seconds,
            );
            let rows = state.operator_sessions;
            let row = rows[i];
            let deadline = c.later_ms + ttl_seconds * 1_000;
            let retired = SessionRowView {
                revoked_at_ms: Some(c.later_ms),
                last_seen_at_ms: c.later_ms,
                ..row
            };
            let fresh = opened_session(
                id,
                row.operator_id,
                new_hash,
                row.csrf_secret,
                Some(row.id),
                row.family_id,
                c.later_ms,
                deadline,
            );
            if new_hash.len() == 0 {
                after.operator_sessions == rows
                    && reply == Err::<Option<LocalSessionView>, StoreError>(
                    StoreError::InvalidInput("refresh hash"),
                )
            } else if ttl_seconds == 0 || ttl_seconds * 1_000 > i64::MAX {
                after.operator_sessions == rows
                    && reply == Err::<Option<LocalSessionView>, StoreError>(
                    StoreError::InvalidInput("refresh TTL"),
                )
            } else if row.kind != "browser"@ {
                after.operator_sessions == rows
                    && reply == Ok::<Option<LocalSessionView>, StoreError>(None)
            } else if row.revoked_at_ms is Some {
                &&& family_revoked(rows, after.operator_sessions, row.family_id, c.later_ms)
                &&& reply == Ok::<Option<LocalSessionView>, StoreError>(None)
            } else if !is_open(row, c.now_ms) {
                after.operator_sessions == rows
                    && reply == Ok::<Option<LocalSessionView>, StoreError>(None)
            } else if !is_open(row, c.later_ms) {
                &&& family_revoked(rows, after.operator_sessions, row.family_id, c.later_ms)
                &&& reply == Ok::<Option<LocalSessionView>, StoreError>(None)
            } else if state.operators[j].operator.disabled_at_ms is Some {
                &&& after.operator_sessions == rows.update(i, retired)
                &&& reply == Ok::<Option<LocalSessionView>, StoreError>(None)
            } else if deadline > i64::MAX || exists|q: int|
                0 <= q < state.operator_sessions.len()
                    && (#[trigger] state.operator_sessions[q]).id == id {
                after.operator_sessions == rows && reply is Err
            } else {
                &&& after.operator_sessions == rows.update(i, retired).push(fresh)
                &&& reply == Ok::<Option<LocalSessionView>, StoreError>(
                    if is_open(fresh, follow_up.now_ms) {
                        Some(session_told(fresh, state.operators[j].operator))
                    } else {
                        None
                    },
                )
            }
        }),
{
    lemma_runs(state, c);
    let s = state.checkpoint_clock(c).0;
    lemma_runs(s, follow_up);
    crate::moment_laws::the_checkpoint_passes_exactly_for_a_trusted_reading(state, c);
    assert(s.now(c.later_ms) == Some(c.later_ms));
    let rows = state.operator_sessions;
    let row = rows[i];
    let deadline = c.later_ms + ttl_seconds * 1_000;
    lemma_at_most_one(rows, refreshed_by(old_hash), i);
    let hit = rotatable_session(row.id, Some(c.later_ms));
    lemma_sole(rows, session_id(), hit, i);
    lemma_owner(state, row, j);
    assert({
        let taken = session_with(id);
        any(state.operator_sessions, taken) == (exists|q: int|
            0 <= q < state.operator_sessions.len()
                && (#[trigger] state.operator_sessions[q]).id == id)
    }) by {
        let taken = session_with(id);
        if exists|q: int|
            0 <= q < state.operator_sessions.len()
                && (#[trigger] state.operator_sessions[q]).id == id {
            let q = choose|q: int|
                0 <= q < state.operator_sessions.len()
                    && (#[trigger] state.operator_sessions[q]).id == id;
            assert(taken(state.operator_sessions[q]));
        }
        if any(state.operator_sessions, taken) {
            let q = choose|q: int|
                0 <= q < state.operator_sessions.len()
                    && taken(#[trigger] state.operator_sessions[q]);
            assert(state.operator_sessions[q].id == id);
        }
    };
    let retired = SessionRowView {
        revoked_at_ms: Some(c.later_ms),
        last_seen_at_ms: c.later_ms,
        ..row
    };
    let fresh = opened_session(
        id,
        row.operator_id,
        new_hash,
        row.csrf_secret,
        Some(row.id),
        row.family_id,
        c.later_ms,
        deadline,
    );
    lemma_owner(state, fresh, j);
    if hit(row) && !any(rows, session_with(id)) && deadline <= i64::MAX {
        let kept = rows.update(i, retired);
        let mid = StoreView { operator_sessions: kept.push(fresh), ..s };
        lemma_runs(mid, follow_up);
        lemma_unique_replaced(rows, session_id(), i, retired);
        assert(!any(kept, |r: SessionRowView| session_id()(r) == session_id()(fresh))) by {
            if any(kept, |r: SessionRowView| session_id()(r) == session_id()(fresh)) {
                let q = choose|q: int|
                    0 <= q < kept.len() && (|r: SessionRowView|
                        session_id()(r) == session_id()(fresh))(#[trigger] kept[q]);
                assert(rows[q].id == id);
                assert(session_with(id)(rows[q]));
            }
        }
        lemma_unique_push(kept, session_id(), fresh);
        assert(mid.operator_sessions[kept.len() as int] == fresh);
        a_session_is_read_while_it_is_open(mid, follow_up, id, kept.len() as int, j);
    }
}

/// Opening and rotating sessions changes nothing but sessions.
pub proof fn session_steps_touch_only_sessions(
    state: StoreView,
    c: ClockReadingView,
    follow_up: ClockReadingView,
    id: Seq<char>,
    csrf_secret: Seq<char>,
    operator: Seq<char>,
    old_hash: Seq<char>,
    new_hash: Seq<char>,
    ttl_seconds: u64,
)
    requires
        runs_twice(state, c, follow_up),
    ensures
        ({
            let only = |after: StoreView|
                after == (StoreView {
                    operator_sessions: after.operator_sessions,
                    ..crate::moment_laws::timed(state, after)
                });
            &&& only(
                state.open_browser_session(
                    c,
                    follow_up,
                    id,
                    csrf_secret,
                    operator,
                    new_hash,
                    ttl_seconds,
                ).0,
            )
            &&& only(
                state.rotate_browser_session_to(
                    c,
                    follow_up,
                    id,
                    old_hash,
                    new_hash,
                    ttl_seconds,
                ).0,
            )
        }),
{
}

} // verus!
