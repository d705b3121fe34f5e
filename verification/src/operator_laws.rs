//! What holds of operators and their sessions.

use crate::clock::{session_revoked_at, ClockReadingView};
use crate::error::StoreError;
use crate::keys::{operator_id, session_id, token_hash};
use crate::operators::{
    active_admin, active_operator, operator_edited, other_admin, token_used, usable_token,
};
use crate::relation::{any, first, lemma_any_counted, updated, without};
use crate::relation_laws::{
    lemma_filter_members, lemma_first_satisfies, lemma_unique_first, unique,
};
use crate::secret_laws::finds_nothing;
use crate::sessions::{
    is_usable, other_session_of, owned_session, owner_of, refreshed_by, revocable_session,
    rotatable_session, session_of_family, session_of_operator, session_rotated, usable_refresh,
    usable_session,
};
use crate::store::StoreView;
use crate::tables::{OperatorRowView, SessionRowView};
use vstd::prelude::*;

verus! {

/// The refresh hash of a session's row.
pub open spec fn refresh_hash() -> spec_fn(SessionRowView) -> Seq<char> {
    |row: SessionRowView| row.refresh_hash
}

/// Where an administrator can act, one can act after an operator was edited or
/// deleted: the last one keeps its role and stays.
pub proof fn the_last_administrator_stays(
    state: StoreView,
    c: ClockReadingView,
    id: Seq<char>,
    display_name: Seq<char>,
    role: Seq<char>,
)
    requires
        unique(state.operators, operator_id()),
        any(state.operators, active_admin()),
        state.checkpoint_clock(c).1 is Ok,
    ensures
        any(state.update_local_operator(c, id, display_name, role).0.operators, active_admin()),
        any(state.delete_local_operator(c, id).0.operators, active_admin()),
{
    let rows = state.operators;
    let admin = active_admin();
    let hit = active_operator(id);
    let other = other_admin(id);
    let f = operator_edited(display_name, role);
    let i = choose|i: int| 0 <= i < rows.len() && admin(#[trigger] rows[i]);
    lemma_any_counted(rows, hit);
    lemma_any_counted(rows, other);
    let edited = updated(rows, hit, f);
    let left = without(rows, hit);
    lemma_filter_members(rows, |row: OperatorRowView| !hit(row));
    if rows[i].operator.id != id {
        assert(edited[i] == rows[i]);
        assert(admin(edited[i]));
        assert(left.contains(rows[i]));
        let k = choose|k: int| 0 <= k < left.len() && left[k] == rows[i];
        assert(admin(left[k]));
    } else {
        assert(hit(rows[i]));
        let j = lemma_unique_first(rows, operator_id(), id, hit);
        if j < i {
            assert(operator_id()(rows[j]) != operator_id()(rows[i]));
        } else if i < j {
            assert(operator_id()(rows[i]) != operator_id()(rows[j]));
        }
        if any(rows, other) {
            let k = choose|k: int| 0 <= k < rows.len() && other(#[trigger] rows[k]);
            assert(edited[k] == rows[k]);
            assert(admin(edited[k]));
            assert(left.contains(rows[k]));
            let m = choose|m: int| 0 <= m < left.len() && left[m] == rows[k];
            assert(admin(left[m]));
        } else if role == "admin"@ {
            assert(admin(edited[i]));
        }
    }
}

/// There is at most one first administrator: once one was made, neither another
/// call nor a token makes one, and no token is issued.
pub proof fn bootstrapping_happens_once(
    state: StoreView,
    c: ClockReadingView,
    id: Seq<char>,
    username: Seq<char>,
    display_name: Seq<char>,
    password_hash: Seq<char>,
    token: Seq<char>,
    ttl_seconds: u64,
)
    requires
        any(state.operators, active_admin()),
        state.checkpoint_clock(c).1 is Ok,
    ensures
        state.bootstrap_local_operator(c, id, username, display_name, password_hash) == (
            state.checkpoint_clock(c).0,
            Ok::<bool, StoreError>(false),
        ),
        state.bootstrap_operator_with_token(
            c,
            token,
            id,
            username,
            display_name,
            password_hash,
        ) == (state.checkpoint_clock(c).0, Ok::<bool, StoreError>(false)),
        state.issue_bootstrap_token(c, token, ttl_seconds).0 == state.checkpoint_clock(c).0,
{
}

/// Bootstrapping makes an administrator that can act.
pub proof fn bootstrapping_makes_an_administrator(
    state: StoreView,
    c: ClockReadingView,
    id: Seq<char>,
    username: Seq<char>,
    display_name: Seq<char>,
    password_hash: Seq<char>,
)
    requires
        state.bootstrap_local_operator(c, id, username, display_name, password_hash).1 == Ok::<
            bool,
            StoreError,
        >(true),
    ensures
        any(
            state.bootstrap_local_operator(
                c,
                id,
                username,
                display_name,
                password_hash,
            ).0.operators,
            active_admin(),
        ),
{
    let after = state.bootstrap_local_operator(c, id, username, display_name, password_hash).0;
    assert(active_admin()(after.operators[after.operators.len() - 1]));
}

/// A bootstrap token works once: after it was used, no moment makes it usable
/// again, whoever the operators are.
pub proof fn a_bootstrap_token_works_once(
    state: StoreView,
    c: ClockReadingView,
    token: Seq<char>,
    id: Seq<char>,
    username: Seq<char>,
    display_name: Seq<char>,
    password_hash: Seq<char>,
    later: Option<i64>,
)
    requires
        unique(state.bootstrap_tokens, token_hash()),
        state.bootstrap_operator_with_token(
            c,
            token,
            id,
            username,
            display_name,
            password_hash,
        ).1 == Ok::<bool, StoreError>(true),
    ensures
        ({
            let after = state.bootstrap_operator_with_token(
                c,
                token,
                id,
                username,
                display_name,
                password_hash,
            ).0;
            &&& !any(after.bootstrap_tokens, usable_token(token, later))
            &&& any(after.operators, active_admin())
        }),
{
    let after = state.bootstrap_operator_with_token(
        c,
        token,
        id,
        username,
        display_name,
        password_hash,
    ).0;
    let now = state.checkpoint_clock(c).0.now(c.now_ms);
    let rows = state.bootstrap_tokens;
    let hit = usable_token(token, now);
    let again = usable_token(token, later);
    let changed = updated(rows, hit, token_used(now));
    assert(after.bootstrap_tokens == changed);
    let i = lemma_unique_first(rows, token_hash(), token, hit);
    assert forall|k: int| 0 <= k < changed.len() implies !again(#[trigger] changed[k]) by {
        if k < i {
            assert(token_hash()(rows[k]) != token_hash()(rows[i]));
        } else if i < k {
            assert(token_hash()(rows[i]) != token_hash()(rows[k]));
        }
    }
    assert(active_admin()(after.operators[after.operators.len() - 1]));
}

/// Rewriting every row that a predicate picks, so that it picks them no more,
/// leaves none that it picks.
proof fn lemma_none_left<V>(rows: Seq<V>, p: spec_fn(V) -> bool, f: spec_fn(V) -> V)
    requires
        forall|v: V| #[trigger] p(v) ==> !p(f(v)),
    ensures
        !any(updated(rows, p, f), p),
{
    let after = updated(rows, p, f);
    assert forall|i: int| 0 <= i < after.len() implies !p(#[trigger] after[i]) by {
        assert(after[i] == if p(rows[i]) {
            f(rows[i])
        } else {
            rows[i]
        });
    }
}

/// A password that was reset leaves the operator no open session; one that was
/// changed leaves it the session that changed it.
pub proof fn a_new_password_ends_sessions(
    state: StoreView,
    c: ClockReadingView,
    id: Seq<char>,
    current_session_id: Seq<char>,
    password_hash: Seq<char>,
)
    requires
        state.checkpoint_clock(c).1 is Ok,
        c.now_ms >= state.checkpoint_clock(c).0.clock.last_observed_ms,
    ensures
        state.reset_local_operator_password(c, id, password_hash).1 == Ok::<bool, StoreError>(true)
            ==> !any(
            state.reset_local_operator_password(c, id, password_hash).0.operator_sessions,
            session_of_operator(id),
        ),
        state.change_operator_password(c, id, current_session_id, password_hash).1 == Ok::<
            bool,
            StoreError,
        >(true) ==> !any(
            state.change_operator_password(
                c,
                id,
                current_session_id,
                password_hash,
            ).0.operator_sessions,
            other_session_of(id, current_session_id),
        ),
{
    let now = state.checkpoint_clock(c).0.now(c.now_ms);
    let rows = state.operator_sessions;
    lemma_none_left(rows, session_of_operator(id), session_revoked_at(now));
    lemma_none_left(rows, other_session_of(id, current_session_id), session_revoked_at(now));
}

/// A refresh hash that was rotated away and comes back revokes every session of
/// its family, and yields no session.
pub proof fn a_replayed_refresh_hash_revokes_its_family(
    state: StoreView,
    c: ClockReadingView,
    follow_up: ClockReadingView,
    session: Seq<char>,
    old_hash: Seq<char>,
    new_hash: Seq<char>,
    ttl_seconds: u64,
    i: int,
)
    requires
        unique(state.operator_sessions, refresh_hash()),
        0 <= i < state.operator_sessions.len(),
        refreshed_by(old_hash)(state.operator_sessions[i]),
        state.operator_sessions[i].revoked_at_ms is Some,
        state.checkpoint_clock(c).1 is Ok,
        c.now_ms >= state.checkpoint_clock(c).0.clock.last_observed_ms,
        c.later_ms >= state.checkpoint_clock(c).0.clock.last_observed_ms,
        new_hash.len() > 0,
        crate::limits::milliseconds(ttl_seconds) is Some,
    ensures
        ({
            let (after, reply) = state.rotate_browser_session_to(
                c,
                follow_up,
                session,
                old_hash,
                new_hash,
                ttl_seconds,
            );
            &&& finds_nothing(reply)
            &&& !any(
                after.operator_sessions,
                session_of_family(state.operator_sessions[i].family_id),
            )
        }),
{
    let rows = state.operator_sessions;
    let later = state.checkpoint_clock(c).0.now(c.later_ms);
    crate::relation_laws::lemma_unique_hit(
        rows,
        refresh_hash(),
        old_hash,
        refreshed_by(old_hash),
        i,
    );
    lemma_none_left(rows, session_of_family(rows[i].family_id), session_revoked_at(later));
}

/// A rotation retires the old refresh hash: it opens no session at any later
/// reading.
pub proof fn a_rotation_retires_the_old_hash(
    state: StoreView,
    c: ClockReadingView,
    follow_up: ClockReadingView,
    session: Seq<char>,
    old_hash: Seq<char>,
    new_hash: Seq<char>,
    ttl_seconds: u64,
    later: ClockReadingView,
)
    requires
        unique(state.operator_sessions, refresh_hash()),
        unique(state.operator_sessions, session_id()),
        old_hash != new_hash,
        state.rotate_browser_session_to(
            c,
            follow_up,
            session,
            old_hash,
            new_hash,
            ttl_seconds,
        ).1 matches Ok(Some(_)),
        state.rotate_browser_session_to(
            c,
            follow_up,
            session,
            old_hash,
            new_hash,
            ttl_seconds,
        ).0.checkpoint_clock(later).1 is Ok,
    ensures
        finds_nothing(
            state.rotate_browser_session_to(
                c,
                follow_up,
                session,
                old_hash,
                new_hash,
                ttl_seconds,
            ).0.browser_session_by_refresh_hash(later, old_hash).1,
        ),
{
    let s = state.checkpoint_clock(c).0;
    let then = s.now(c.later_ms);
    let rows = state.operator_sessions;
    lemma_first_satisfies(rows, refreshed_by(old_hash));
    lemma_any_counted(rows, refreshed_by(old_hash));
    let i = lemma_unique_first(rows, refresh_hash(), old_hash, refreshed_by(old_hash));
    let after = state.rotate_browser_session_to(
        c,
        follow_up,
        session,
        old_hash,
        new_hash,
        ttl_seconds,
    ).0;
    let hit = rotatable_session(rows[i].id, then);
    lemma_any_counted(rows, hit);
    let k = lemma_unique_first(rows, session_id(), rows[i].id, hit);
    if k < i {
        assert(session_id()(rows[k]) != session_id()(rows[i]));
    } else if i < k {
        assert(session_id()(rows[i]) != session_id()(rows[k]));
    }
    let rotated = updated(rows, hit, session_rotated(then));
    let now_rows = after.operator_sessions;
    assert(now_rows == rotated.push(now_rows.last()));
    let open = usable_refresh(old_hash, after.checkpoint_clock(later).0.now(later.now_ms));
    let owned = owned_session(after.operators, open, true);
    assert forall|j: int| 0 <= j < now_rows.len() implies !owned(#[trigger] now_rows[j]) by {
        if j < rows.len() {
            assert(now_rows[j] == rotated[j]);
            if j < i {
                assert(refresh_hash()(rows[j]) != refresh_hash()(rows[i]));
            } else if i < j {
                assert(refresh_hash()(rows[i]) != refresh_hash()(rows[j]));
            } else {
                assert(rotated[i].revoked_at_ms == then);
            }
        }
    }
    assert(!any(now_rows, owned));
    lemma_any_counted(now_rows, owned);
}

/// A session that can be read is not revoked, its end is ahead, and its operator
/// is not disabled.
pub proof fn only_usable_sessions_are_read(
    state: StoreView,
    c: ClockReadingView,
    session: Seq<char>,
)
    requires
        state.checkpoint_clock(c).1 is Ok,
        state.browser_session_by_id(c, session).1 matches Ok(Some(_)),
    ensures
        state.browser_session_by_id(c, session).1 matches Ok(Some(found)) && found.session_id
            == session && found.expires_at_ms > c.now_ms && found.operator.disabled_at_ms is None,
{
    let now = state.checkpoint_clock(c).0.now(c.now_ms);
    let owned = owned_session(state.operators, usable_session(session, now), true);
    lemma_first_satisfies(state.operator_sessions, owned);
    let row = first(state.operator_sessions, owned)->0;
    lemma_first_satisfies(state.operators, owner_of(row, true));
    assert(is_usable(row, now));
}

/// A session that was revoked is never read again.
pub proof fn a_revoked_session_stays_revoked(
    state: StoreView,
    c: ClockReadingView,
    session: Seq<char>,
    later: ClockReadingView,
)
    requires
        state.revoke_browser_session(c, session).1 == Ok::<bool, StoreError>(true),
        state.revoke_browser_session(c, session).0.checkpoint_clock(later).1 is Ok,
        unique(state.operator_sessions, session_id()),
    ensures
        finds_nothing(
            state.revoke_browser_session(c, session).0.browser_session_by_id(later, session).1,
        ),
{
    let now = state.checkpoint_clock(c).0.now(c.now_ms);
    let rows = state.operator_sessions;
    let hit = revocable_session(session, now);
    lemma_any_counted(rows, hit);
    let i = lemma_unique_first(rows, session_id(), session, hit);
    let after = state.revoke_browser_session(c, session).0;
    let changed = after.operator_sessions;
    let open = usable_session(session, after.checkpoint_clock(later).0.now(later.now_ms));
    let owned = owned_session(after.operators, open, true);
    assert forall|j: int| 0 <= j < changed.len() implies !owned(#[trigger] changed[j]) by {
        if j < i {
            assert(session_id()(rows[j]) != session_id()(rows[i]));
        } else if i < j {
            assert(session_id()(rows[i]) != session_id()(rows[j]));
        } else {
            assert(changed[i].revoked_at_ms == now);
        }
    }
    assert(!any(changed, owned));
    lemma_any_counted(changed, owned);
}

} // verus!
