//! What each step of an operator does to it, by what the operators say.

use crate::clock::ClockReadingView;
use crate::error::{DatabaseFault, StoreError};
use crate::keys::{operator_id, token_hash};
use crate::moment_laws::{lemma_runs, runs};
use crate::operators::{
    active_admin, active_operator, operator_named, operator_with, other_admin, token_with,
    usable_token,
};
use crate::records::LocalOperatorView;
use crate::relation::{any, count};
use crate::relation_laws::{lemma_at_most_one, lemma_none, lemma_sole, unique};
use crate::sessions::{other_session_of, session_of_operator};
use crate::store::StoreView;
use crate::tables::{BootstrapTokenRowView, OperatorRowView, SessionRowView};
use vstd::prelude::*;

verus! {

/// Whether an operator is an administrator who is not disabled.
pub open spec fn is_admin(row: OperatorRowView) -> bool {
    row.operator.role == "admin"@ && row.operator.disabled_at_ms is None
}

/// Whether there is an administrator who is not disabled.
pub open spec fn has_admin(state: StoreView) -> bool {
    exists|j: int| 0 <= j < state.operators.len() && is_admin(#[trigger] state.operators[j])
}

proof fn lemma_has_admin(state: StoreView)
    ensures
        any(state.operators, active_admin()) == has_admin(state),
{
    if has_admin(state) {
        let j = choose|j: int|
            0 <= j < state.operators.len() && is_admin(#[trigger] state.operators[j]);
        assert(active_admin()(state.operators[j]));
    }
    if any(state.operators, active_admin()) {
        let j = choose|j: int|
            0 <= j < state.operators.len() && active_admin()(#[trigger] state.operators[j]);
        assert(is_admin(state.operators[j]));
    }
}

/// Whether there is an administrator who is not disabled besides one operator.
pub open spec fn has_other_admin(state: StoreView, id: Seq<char>) -> bool {
    exists|j: int|
        0 <= j < state.operators.len() && is_admin(#[trigger] state.operators[j])
            && state.operators[j].operator.id != id
}

proof fn lemma_has_other_admin(state: StoreView, id: Seq<char>)
    ensures
        (count(state.operators, other_admin(id)) == 0) == !has_other_admin(state, id),
{
    let other = other_admin(id);
    crate::relation::lemma_any_counted(state.operators, other);
    if has_other_admin(state, id) {
        let j = choose|j: int|
            0 <= j < state.operators.len() && is_admin(#[trigger] state.operators[j])
                && state.operators[j].operator.id != id;
        assert(other(state.operators[j]));
    }
    if any(state.operators, other) {
        let j = choose|j: int|
            0 <= j < state.operators.len() && other(#[trigger] state.operators[j]);
        assert(is_admin(state.operators[j]));
    }
}

/// The first administrator is made where there is none: under the given names and
/// password, which has to be changed, now. Where there is one, nothing changes.
pub proof fn the_first_administrator_is_made_once(
    state: StoreView,
    c: ClockReadingView,
    id: Seq<char>,
    username: Seq<char>,
    display_name: Seq<char>,
    password_hash: Seq<char>,
)
    requires
        runs(state, c),
    ensures
        ({
            let s = state.checkpoint_clock(c).0;
            &&& state.has_active_admin(c) == (s, Ok::<bool, StoreError>(has_admin(state)))
            &&& state.bootstrap_local_operator(c, id, username, display_name, password_hash)
                == if has_admin(state) {
                (s, Ok::<bool, StoreError>(false))
            } else if exists|q: int|
                0 <= q < state.operators.len()
                    && (#[trigger] state.operators[q]).operator.id == id {
                (s, Err::<bool, StoreError>(StoreError::Database(DatabaseFault::DuplicateKey)))
            } else {
                (
                    StoreView {
                        operators: state.operators.push(
                            OperatorRowView {
                                operator: LocalOperatorView {
                                    id,
                                    username,
                                    display_name,
                                    password_hash,
                                    role: "admin"@,
                                    must_change_password: true,
                                    disabled_at_ms: None,
                                },
                                created_at_ms: c.now_ms,
                            },
                        ),
                        ..s
                    },
                    Ok::<bool, StoreError>(true),
                )
            }
        }),
{
    lemma_runs(state, c);
    lemma_has_admin(state);
    assert({
        let taken = operator_with(id);
        any(state.operators, taken) == (exists|q: int|
            0 <= q < state.operators.len() && (#[trigger] state.operators[q]).operator.id == id)
    }) by {
        let taken = operator_with(id);
        if exists|q: int|
            0 <= q < state.operators.len() && (#[trigger] state.operators[q]).operator.id == id {
            let q = choose|q: int|
                0 <= q < state.operators.len() && (#[trigger] state.operators[q]).operator.id == id;
            assert(taken(state.operators[q]));
        }
        if any(state.operators, taken) {
            let q = choose|q: int|
                0 <= q < state.operators.len() && taken(#[trigger] state.operators[q]);
            assert(state.operators[q].operator.id == id);
        }
    };
}

/// A bootstrap token is issued where there is no administrator: unused, from now until
/// its time to live is over. Where there is one, nothing changes.
pub proof fn a_bootstrap_token_is_issued_before_the_first_administrator(
    state: StoreView,
    c: ClockReadingView,
    hash: Seq<char>,
    ttl_seconds: u64,
)
    requires
        runs(state, c),
    ensures
        ({
            let s = state.checkpoint_clock(c).0;
            let deadline = c.now_ms + ttl_seconds * 1_000;
            let (after, reply) = state.issue_bootstrap_token(c, hash, ttl_seconds);
            if ttl_seconds == 0 || ttl_seconds * 1_000 > i64::MAX {
                after == s
                    && reply == Err::<bool, StoreError>(
                        StoreError::InvalidInput("bootstrap token TTL"),
                    )
            } else if has_admin(state) {
                after == s && reply == Ok::<bool, StoreError>(false)
            } else if deadline > i64::MAX || exists|q: int|
                0 <= q < state.bootstrap_tokens.len()
                    && (#[trigger] state.bootstrap_tokens[q]).token_hash == hash {
                after == s && reply is Err
            } else {
                &&& reply == Ok::<bool, StoreError>(true)
                &&& after == (StoreView {
                    bootstrap_tokens: state.bootstrap_tokens.push(
                        BootstrapTokenRowView {
                            token_hash: hash,
                            expires_at_ms: deadline as i64,
                            used_at_ms: None,
                        },
                    ),
                    ..s
                })
            }
        }),
{
    lemma_runs(state, c);
    lemma_has_admin(state);
    assert({
        let taken = token_with(hash);
        any(state.bootstrap_tokens, taken) == (exists|q: int|
            0 <= q < state.bootstrap_tokens.len()
                && (#[trigger] state.bootstrap_tokens[q]).token_hash == hash)
    }) by {
        let taken = token_with(hash);
        if exists|q: int|
            0 <= q < state.bootstrap_tokens.len()
                && (#[trigger] state.bootstrap_tokens[q]).token_hash == hash {
            let q = choose|q: int|
                0 <= q < state.bootstrap_tokens.len()
                    && (#[trigger] state.bootstrap_tokens[q]).token_hash == hash;
            assert(taken(state.bootstrap_tokens[q]));
        }
        if any(state.bootstrap_tokens, taken) {
            let q = choose|q: int|
                0 <= q < state.bootstrap_tokens.len()
                    && taken(#[trigger] state.bootstrap_tokens[q]);
            assert(state.bootstrap_tokens[q].token_hash == hash);
        }
    };
}

/// A bootstrap token makes the first administrator, once, until its deadline: under the
/// given names and password, now. The token is then used. Where there is an
/// administrator, or the token is used or lapsed, nothing changes.
pub proof fn a_bootstrap_token_makes_the_first_administrator(
    state: StoreView,
    c: ClockReadingView,
    hash: Seq<char>,
    id: Seq<char>,
    username: Seq<char>,
    display_name: Seq<char>,
    password_hash: Seq<char>,
    i: int,
)
    requires
        unique(state.bootstrap_tokens, token_hash()),
        runs(state, c),
        0 <= i < state.bootstrap_tokens.len(),
        state.bootstrap_tokens[i].token_hash == hash,
    ensures
        ({
            let s = state.checkpoint_clock(c).0;
            let token = state.bootstrap_tokens[i];
            state.bootstrap_operator_with_token(
                c,
                hash,
                id,
                username,
                display_name,
                password_hash,
            ) == if has_admin(state) || token.used_at_ms is Some || token.expires_at_ms
                <= c.now_ms {
                (s, Ok::<bool, StoreError>(false))
            } else if exists|q: int|
                0 <= q < state.operators.len()
                    && (#[trigger] state.operators[q]).operator.id == id {
                (s, Err::<bool, StoreError>(StoreError::Database(DatabaseFault::DuplicateKey)))
            } else {
                (
                    StoreView {
                        bootstrap_tokens: state.bootstrap_tokens.update(
                            i,
                            BootstrapTokenRowView { used_at_ms: Some(c.now_ms), ..token },
                        ),
                        operators: state.operators.push(
                            OperatorRowView {
                                operator: LocalOperatorView {
                                    id,
                                    username,
                                    display_name,
                                    password_hash,
                                    role: "admin"@,
                                    must_change_password: false,
                                    disabled_at_ms: None,
                                },
                                created_at_ms: c.now_ms,
                            },
                        ),
                        ..s
                    },
                    Ok::<bool, StoreError>(true),
                )
            }
        }),
{
    lemma_runs(state, c);
    lemma_has_admin(state);
    lemma_sole(
        state.bootstrap_tokens,
        token_hash(),
        usable_token(hash, Some(c.now_ms)),
        i,
    );
    assert({
        let taken = operator_with(id);
        any(state.operators, taken) == (exists|q: int|
            0 <= q < state.operators.len() && (#[trigger] state.operators[q]).operator.id == id)
    }) by {
        let taken = operator_with(id);
        if exists|q: int|
            0 <= q < state.operators.len() && (#[trigger] state.operators[q]).operator.id == id {
            let q = choose|q: int|
                0 <= q < state.operators.len() && (#[trigger] state.operators[q]).operator.id == id;
            assert(taken(state.operators[q]));
        }
        if any(state.operators, taken) {
            let q = choose|q: int|
                0 <= q < state.operators.len() && taken(#[trigger] state.operators[q]);
            assert(state.operators[q].operator.id == id);
        }
    };
}

/// A token that was never issued makes no administrator.
pub proof fn an_absent_token_makes_no_administrator(
    state: StoreView,
    c: ClockReadingView,
    hash: Seq<char>,
    id: Seq<char>,
    username: Seq<char>,
    display_name: Seq<char>,
    password_hash: Seq<char>,
)
    requires
        runs(state, c),
        forall|q: int|
            0 <= q < state.bootstrap_tokens.len()
                ==> (#[trigger] state.bootstrap_tokens[q]).token_hash != hash,
    ensures
        state.bootstrap_operator_with_token(c, hash, id, username, display_name, password_hash)
            == (state.checkpoint_clock(c).0, Ok::<bool, StoreError>(false)),
{
    lemma_runs(state, c);
    lemma_none(state.bootstrap_tokens, usable_token(hash, Some(c.now_ms)));
}

/// An operator is created as described, in one of the three roles, now, not disabled,
/// with a password that may stay. Another role, or an identifier that is taken, changes
/// nothing.
pub proof fn an_operator_is_created_in_one_of_three_roles(
    state: StoreView,
    c: ClockReadingView,
    id: Seq<char>,
    username: Seq<char>,
    display_name: Seq<char>,
    role: Seq<char>,
    password_hash: Seq<char>,
)
    requires
        runs(state, c),
    ensures
        ({
            let s = state.checkpoint_clock(c).0;
            state.create_local_operator(c, id, username, display_name, role, password_hash)
                == if role != "admin"@ && role != "operator"@ && role != "viewer"@ {
                (s, Err::<(), StoreError>(StoreError::InvalidInput("operator role")))
            } else if exists|q: int|
                0 <= q < state.operators.len()
                    && (#[trigger] state.operators[q]).operator.id == id {
                (s, Err::<(), StoreError>(StoreError::Database(DatabaseFault::DuplicateKey)))
            } else {
                (
                    StoreView {
                        operators: state.operators.push(
                            OperatorRowView {
                                operator: LocalOperatorView {
                                    id,
                                    username,
                                    display_name,
                                    password_hash,
                                    role,
                                    must_change_password: false,
                                    disabled_at_ms: None,
                                },
                                created_at_ms: c.now_ms,
                            },
                        ),
                        ..s
                    },
                    Ok::<(), StoreError>(()),
                )
            }
        }),
{
    lemma_runs(state, c);
    assert({
        let taken = operator_with(id);
        any(state.operators, taken) == (exists|q: int|
            0 <= q < state.operators.len() && (#[trigger] state.operators[q]).operator.id == id)
    }) by {
        let taken = operator_with(id);
        if exists|q: int|
            0 <= q < state.operators.len() && (#[trigger] state.operators[q]).operator.id == id {
            let q = choose|q: int|
                0 <= q < state.operators.len() && (#[trigger] state.operators[q]).operator.id == id;
            assert(taken(state.operators[q]));
        }
        if any(state.operators, taken) {
            let q = choose|q: int|
                0 <= q < state.operators.len() && taken(#[trigger] state.operators[q]);
            assert(state.operators[q].operator.id == id);
        }
    };
}

/// An operator is read under the identifier and under the name, whatever the status.
pub proof fn an_operator_is_read_as_stored(state: StoreView, c: ClockReadingView, i: int)
    requires
        unique(state.operators, operator_id()),
        runs(state, c),
        0 <= i < state.operators.len(),
    ensures
        ({
            let operator = state.operators[i].operator;
            let found = (
                state.checkpoint_clock(c).0,
                Ok::<Option<LocalOperatorView>, StoreError>(Some(operator)),
            );
            &&& state.read_operator(c, operator_with(operator.id)) == found
            &&& (forall|j: int|
                0 <= j < state.operators.len() && j != i ==> (
                #[trigger] state.operators[j]).operator.username != operator.username)
                ==> state.read_operator(c, operator_named(operator.username)) == found
        }),
{
    lemma_runs(state, c);
    let operator = state.operators[i].operator;
    lemma_sole(state.operators, operator_id(), operator_with(operator.id), i);
    if forall|j: int|
        0 <= j < state.operators.len() && j != i ==> (
        #[trigger] state.operators[j]).operator.username != operator.username {
        lemma_at_most_one(state.operators, operator_named(operator.username), i);
    }
}

/// An operator whom nobody stored is not read, edited or deleted, and gets no password.
pub proof fn an_absent_operator_is_out_of_reach(
    state: StoreView,
    c: ClockReadingView,
    id: Seq<char>,
    display_name: Seq<char>,
    session: Seq<char>,
    password_hash: Seq<char>,
)
    requires
        runs(state, c),
        password_hash.len() > 0,
        forall|q: int|
            0 <= q < state.operators.len() ==> (#[trigger] state.operators[q]).operator.id != id,
    ensures
        ({
            let s = state.checkpoint_clock(c).0;
            &&& state.read_operator(c, operator_with(id)) == (
                s,
                Ok::<Option<LocalOperatorView>, StoreError>(None),
            )
            &&& state.update_local_operator(c, id, display_name, "viewer"@) == (
                s,
                Ok::<Option<bool>, StoreError>(None),
            )
            &&& state.delete_local_operator(c, id) == (s, Ok::<Option<bool>, StoreError>(None))
            &&& state.change_operator_password(c, id, session, password_hash) == (
                s,
                Ok::<bool, StoreError>(false),
            )
            &&& state.reset_local_operator_password(c, id, password_hash) == (
                s,
                Ok::<bool, StoreError>(false),
            )
        }),
{
    lemma_runs(state, c);
    lemma_none(state.operators, operator_with(id));
    lemma_none(state.operators, active_operator(id));
}

/// A name that nobody has is not read.
pub proof fn an_absent_name_is_not_read(state: StoreView, c: ClockReadingView, username: Seq<char>)
    requires
        runs(state, c),
        forall|q: int|
            0 <= q < state.operators.len()
                ==> (#[trigger] state.operators[q]).operator.username != username,
    ensures
        state.read_operator(c, operator_named(username)) == (
            state.checkpoint_clock(c).0,
            Ok::<Option<LocalOperatorView>, StoreError>(None),
        ),
{
    lemma_runs(state, c);
    lemma_none(state.operators, operator_named(username));
}

/// An operator who is not disabled gets another display name and one of the three
/// roles, and is deleted, but the last administrator stays an administrator. Nothing
/// else changes.
pub proof fn an_operator_is_edited_and_deleted_but_not_the_last_administrator(
    state: StoreView,
    c: ClockReadingView,
    id: Seq<char>,
    display_name: Seq<char>,
    role: Seq<char>,
    i: int,
)
    requires
        unique(state.operators, operator_id()),
        runs(state, c),
        0 <= i < state.operators.len(),
        state.operators[i].operator.id == id,
    ensures
        ({
            let s = state.checkpoint_clock(c).0;
            let row = state.operators[i];
            let last = row.operator.role == "admin"@ && !has_other_admin(state, id);
            &&& state.update_local_operator(c, id, display_name, role) == if role != "admin"@
                && role != "operator"@ && role != "viewer"@ {
                (s, Err::<Option<bool>, StoreError>(StoreError::InvalidInput("operator role")))
            } else if row.operator.disabled_at_ms is Some {
                (s, Ok::<Option<bool>, StoreError>(None))
            } else if role != "admin"@ && last {
                (s, Ok::<Option<bool>, StoreError>(Some(false)))
            } else {
                (
                    StoreView {
                        operators: state.operators.update(
                            i,
                            OperatorRowView {
                                operator: LocalOperatorView { display_name, role, ..row.operator },
                                ..row
                            },
                        ),
                        ..s
                    },
                    Ok::<Option<bool>, StoreError>(Some(true)),
                )
            }
            &&& state.delete_local_operator(c, id) == if row.operator.disabled_at_ms is Some {
                (s, Ok::<Option<bool>, StoreError>(None))
            } else if last {
                (s, Ok::<Option<bool>, StoreError>(Some(false)))
            } else {
                (
                    StoreView { operators: state.operators.remove(i), ..s },
                    Ok::<Option<bool>, StoreError>(Some(true)),
                )
            }
        }),
{
    lemma_runs(state, c);
    lemma_sole(state.operators, operator_id(), active_operator(id), i);
    lemma_has_other_admin(state, id);
}

/// Whether the open sessions of an operator were revoked at a moment, but one, and no
/// other session was touched.
pub open spec fn signed_out(
    before: Seq<SessionRowView>,
    after: Seq<SessionRowView>,
    operator: Seq<char>,
    spared: Option<Seq<char>>,
    at_ms: i64,
) -> bool {
    &&& after.len() == before.len()
    &&& forall|j: int|
        0 <= j < before.len() ==> #[trigger] after[j] == if before[j].operator_id == operator
            && before[j].revoked_at_ms is None && (spared is None || before[j].id != spared->0) {
            SessionRowView { revoked_at_ms: Some(at_ms), ..before[j] }
        } else {
            before[j]
        }
}

/// An operator who is not disabled changes the password, which ends the other sessions,
/// or has it reset, which ends all of them and asks for another password. Nothing else
/// changes.
pub proof fn a_new_password_signs_out(
    state: StoreView,
    c: ClockReadingView,
    id: Seq<char>,
    session: Seq<char>,
    password_hash: Seq<char>,
    i: int,
)
    requires
        unique(state.operators, operator_id()),
        runs(state, c),
        0 <= i < state.operators.len(),
        state.operators[i].operator.id == id,
    ensures
        ({
            let s = state.checkpoint_clock(c).0;
            let row = state.operators[i];
            let (changed, change) = state.change_operator_password(c, id, session, password_hash);
            let (renewed, reset) = state.reset_local_operator_password(c, id, password_hash);
            if password_hash.len() == 0 {
                &&& changed == s
                    && change == Err::<bool, StoreError>(StoreError::InvalidInput("password hash"))
                &&& renewed == s
                    && reset == Err::<bool, StoreError>(StoreError::InvalidInput("password hash"))
            } else if row.operator.disabled_at_ms is Some {
                &&& changed == s && change == Ok::<bool, StoreError>(false)
                &&& renewed == s && reset == Ok::<bool, StoreError>(false)
            } else {
                &&& change == Ok::<bool, StoreError>(true)
                &&& changed == (StoreView {
                    operators: state.operators.update(
                        i,
                        OperatorRowView {
                            operator: LocalOperatorView {
                                password_hash,
                                must_change_password: false,
                                ..row.operator
                            },
                            ..row
                        },
                    ),
                    operator_sessions: changed.operator_sessions,
                    ..s
                })
                &&& signed_out(
                    state.operator_sessions,
                    changed.operator_sessions,
                    id,
                    Some(session),
                    c.now_ms,
                )
                &&& reset == Ok::<bool, StoreError>(true)
                &&& renewed == (StoreView {
                    operators: state.operators.update(
                        i,
                        OperatorRowView {
                            operator: LocalOperatorView {
                                password_hash,
                                must_change_password: true,
                                ..row.operator
                            },
                            ..row
                        },
                    ),
                    operator_sessions: renewed.operator_sessions,
                    ..s
                })
                &&& signed_out(
                    state.operator_sessions,
                    renewed.operator_sessions,
                    id,
                    None,
                    c.now_ms,
                )
            }
        }),
{
    lemma_runs(state, c);
    lemma_sole(state.operators, operator_id(), active_operator(id), i);
    assert forall|j: int| 0 <= j < state.operator_sessions.len() implies other_session_of(
        id,
        session,
    )(#[trigger] state.operator_sessions[j]) == (state.operator_sessions[j].operator_id == id
        && state.operator_sessions[j].revoked_at_ms is None && state.operator_sessions[j].id
        != session) by {}
    assert forall|j: int| 0 <= j < state.operator_sessions.len() implies session_of_operator(id)(
        #[trigger] state.operator_sessions[j],
    ) == (state.operator_sessions[j].operator_id == id && state.operator_sessions[j].revoked_at_ms
        is None) by {}
}

} // verus!
