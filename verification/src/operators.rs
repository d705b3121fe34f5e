//! Local operators and how the first administrator comes to be.

use crate::clock::{ClockReading, ClockReadingView};
use crate::error::{DatabaseFault, StoreError};
use crate::limits::{
    deadline, is_unexpired, milliseconds, moment_after, positive_milliseconds, unexpired,
};
use crate::records::{LocalOperator, LocalOperatorView};
use crate::relation::{
    answer_option, answer_rows, any, any_row, count, count_rows, find_row, first, order_rows,
    ordered, push_row, remove_rows, select_rows, selected, update_rows, updated, without,
    Duplicate,
};
use crate::sessions::{other_session_of, session_of_operator};
use crate::store::{Store, StoreView};
use crate::tables::{
    BootstrapTokenRow, BootstrapTokenRowView, OperatorRow, OperatorRowView, SessionRow,
};
use crate::text::{before, same, text_before};
use vstd::prelude::*;

verus! {

/// The administrators that are not disabled.
pub open spec fn active_admin() -> spec_fn(OperatorRowView) -> bool {
    |row: OperatorRowView|
        row.operator.role == "admin"@ && row.operator.disabled_at_ms is None
}

/// The administrators that are not disabled, but for one operator.
pub open spec fn other_admin(id: Seq<char>) -> spec_fn(OperatorRowView) -> bool {
    |row: OperatorRowView|
        row.operator.id != id && row.operator.role == "admin"@ && row.operator.disabled_at_ms
            is None
}

/// The operator with an identifier.
pub open spec fn operator_with(id: Seq<char>) -> spec_fn(OperatorRowView) -> bool {
    |row: OperatorRowView| row.operator.id == id
}

/// The operator with a name.
pub open spec fn operator_named(username: Seq<char>) -> spec_fn(OperatorRowView) -> bool {
    |row: OperatorRowView| row.operator.username == username
}

/// The operator with an identifier, where it is not disabled.
pub open spec fn active_operator(id: Seq<char>) -> spec_fn(OperatorRowView) -> bool {
    |row: OperatorRowView| row.operator.id == id && row.operator.disabled_at_ms is None
}

/// Every operator.
pub open spec fn every_operator() -> spec_fn(OperatorRowView) -> bool {
    |row: OperatorRowView| true
}

/// The operator of a row.
pub open spec fn operator_of() -> spec_fn(OperatorRowView) -> LocalOperatorView {
    |row: OperatorRowView| row.operator
}

/// Operators by name and identifier.
pub open spec fn operator_order() -> spec_fn(LocalOperatorView, LocalOperatorView) -> bool {
    |a: LocalOperatorView, b: LocalOperatorView|
        text_before(a.username, b.username) || (a.username == b.username && text_before(
            a.id,
            b.id,
        ))
}

/// An operator with another password.
pub open spec fn password_replaced(
    password_hash: Seq<char>,
    must_change_password: bool,
) -> spec_fn(OperatorRowView) -> OperatorRowView {
    |row: OperatorRowView|
        OperatorRowView {
            operator: LocalOperatorView { password_hash, must_change_password, ..row.operator },
            ..row
        }
}

/// An operator with another name and role.
pub open spec fn operator_edited(display_name: Seq<char>, role: Seq<char>) -> spec_fn(
    OperatorRowView,
) -> OperatorRowView {
    |row: OperatorRowView|
        OperatorRowView {
            operator: LocalOperatorView { display_name, role, ..row.operator },
            ..row
        }
}

/// The token with a hash.
pub open spec fn token_with(token_hash: Seq<char>) -> spec_fn(BootstrapTokenRowView) -> bool {
    |row: BootstrapTokenRowView| row.token_hash == token_hash
}

/// The live unused token with a hash.
pub open spec fn usable_token(token_hash: Seq<char>, now: Option<i64>) -> spec_fn(
    BootstrapTokenRowView,
) -> bool {
    |row: BootstrapTokenRowView|
        row.token_hash == token_hash && row.used_at_ms is None && unexpired(
            row.expires_at_ms,
            now,
        )
}

/// A token that was used.
pub open spec fn token_used(at_ms: Option<i64>) -> spec_fn(
    BootstrapTokenRowView,
) -> BootstrapTokenRowView {
    |row: BootstrapTokenRowView| BootstrapTokenRowView { used_at_ms: at_ms, ..row }
}

/// Whether a text is a role.
pub open spec fn is_role(role: Seq<char>) -> bool {
    role == "admin"@ || role == "operator"@ || role == "viewer"@
}

impl StoreView {
    /// The state with one more operator.
    pub open spec fn insert_operator(
        self,
        operator: LocalOperatorView,
        now: Option<i64>,
    ) -> Result<StoreView, StoreError> {
        match now {
            None => Err(StoreError::Database(DatabaseFault::ClockBehind)),
            Some(created_at_ms) => if any(self.operators, operator_with(operator.id)) {
                Err(StoreError::Database(DatabaseFault::DuplicateKey))
            } else {
                Ok(
                    StoreView {
                        operators: self.operators.push(OperatorRowView { operator, created_at_ms }),
                        ..self
                    },
                )
            },
        }
    }

    /// Whether an administrator can act.
    pub open spec fn has_active_admin(self, c: ClockReadingView) -> (
        StoreView,
        Result<bool, StoreError>,
    ) {
        let (s, gate) = self.checkpoint_clock(c);
        match gate {
            Err(error) => (s, Err(error)),
            Ok(()) => (s, Ok(any(s.operators, active_admin()))),
        }
    }

    /// Create the first administrator, unless one can act.
    pub open spec fn bootstrap_local_operator(
        self,
        c: ClockReadingView,
        id: Seq<char>,
        username: Seq<char>,
        display_name: Seq<char>,
        password_hash: Seq<char>,
    ) -> (StoreView, Result<bool, StoreError>) {
        let (s, gate) = self.checkpoint_clock(c);
        match gate {
            Err(error) => (s, Err(error)),
            Ok(()) => if any(s.operators, active_admin()) {
                (s, Ok(false))
            } else {
                match s.insert_operator(
                    first_admin(id, username, display_name, password_hash, true),
                    s.now(c.now_ms),
                ) {
                    Err(error) => (s, Err(error)),
                    Ok(after) => (after, Ok(true)),
                }
            },
        }
    }

    /// Issue a bootstrap token, unless an administrator can act.
    pub open spec fn issue_bootstrap_token(
        self,
        c: ClockReadingView,
        token_hash: Seq<char>,
        ttl_seconds: u64,
    ) -> (StoreView, Result<bool, StoreError>) {
        let (s, gate) = self.checkpoint_clock(c);
        let now = s.now(c.now_ms);
        match (gate, milliseconds(ttl_seconds)) {
            (Err(error), _) => (s, Err(error)),
            (Ok(()), None) => (s, Err(StoreError::InvalidInput("bootstrap token TTL"))),
            (Ok(()), Some(ttl_ms)) => if any(s.operators, active_admin()) {
                (s, Ok(false))
            } else if now is None {
                (s, Err(StoreError::Database(DatabaseFault::ClockBehind)))
            } else {
                match moment_after(now, ttl_ms) {
                    None => (s, Err(StoreError::Database(DatabaseFault::OutOfRange))),
                    Some(expires_at_ms) => if any(s.bootstrap_tokens, token_with(token_hash)) {
                        (s, Err(StoreError::Database(DatabaseFault::DuplicateKey)))
                    } else {
                        (
                            StoreView {
                                bootstrap_tokens: s.bootstrap_tokens.push(
                                    BootstrapTokenRowView {
                                        token_hash,
                                        expires_at_ms,
                                        used_at_ms: None,
                                    },
                                ),
                                ..s
                            },
                            Ok(true),
                        )
                    },
                }
            },
        }
    }

    /// Create the first administrator with a live unused token.
    pub open spec fn bootstrap_operator_with_token(
        self,
        c: ClockReadingView,
        token_hash: Seq<char>,
        id: Seq<char>,
        username: Seq<char>,
        display_name: Seq<char>,
        password_hash: Seq<char>,
    ) -> (StoreView, Result<bool, StoreError>) {
        let (s, gate) = self.checkpoint_clock(c);
        let now = s.now(c.now_ms);
        let hit = usable_token(token_hash, now);
        match gate {
            Err(error) => (s, Err(error)),
            Ok(()) => if any(s.operators, active_admin()) || !any(s.bootstrap_tokens, hit) {
                (s, Ok(false))
            } else {
                match (StoreView {
                    bootstrap_tokens: updated(s.bootstrap_tokens, hit, token_used(now)),
                    ..s
                }).insert_operator(
                    first_admin(id, username, display_name, password_hash, false),
                    now,
                ) {
                    Err(error) => (s, Err(error)),
                    Ok(after) => (after, Ok(true)),
                }
            },
        }
    }

    /// Read the first operator that a predicate picks.
    pub open spec fn read_operator(
        self,
        c: ClockReadingView,
        wanted: spec_fn(OperatorRowView) -> bool,
    ) -> (StoreView, Result<Option<LocalOperatorView>, StoreError>) {
        let (s, gate) = self.checkpoint_clock(c);
        match gate {
            Err(error) => (s, Err(error)),
            Ok(()) => (
                s,
                Ok(
                    match first(s.operators, wanted) {
                        Some(row) => Some(row.operator),
                        None => None,
                    },
                ),
            ),
        }
    }

    /// List the operators.
    pub open spec fn list_local_operators(self, c: ClockReadingView) -> (
        StoreView,
        Result<Seq<LocalOperatorView>, StoreError>,
    ) {
        let (s, gate) = self.checkpoint_clock(c);
        match gate {
            Err(error) => (s, Err(error)),
            Ok(()) => (
                s,
                Ok(
                    ordered(
                        selected(s.operators, every_operator(), operator_of()),
                        operator_order(),
                    ),
                ),
            ),
        }
    }

    /// Create an operator.
    pub open spec fn create_local_operator(
        self,
        c: ClockReadingView,
        id: Seq<char>,
        username: Seq<char>,
        display_name: Seq<char>,
        role: Seq<char>,
        password_hash: Seq<char>,
    ) -> (StoreView, Result<(), StoreError>) {
        let (s, gate) = self.checkpoint_clock(c);
        match gate {
            Err(error) => (s, Err(error)),
            Ok(()) => if !is_role(role) {
                (s, Err(StoreError::InvalidInput("operator role")))
            } else {
                match s.insert_operator(
                    LocalOperatorView {
                        id,
                        username,
                        display_name,
                        password_hash,
                        role,
                        must_change_password: false,
                        disabled_at_ms: None,
                    },
                    s.now(c.now_ms),
                ) {
                    Err(error) => (s, Err(error)),
                    Ok(after) => (after, Ok(())),
                }
            },
        }
    }

    /// Whether an operator is the last administrator that can act.
    pub open spec fn is_last_admin(self, id: Seq<char>) -> bool {
        match first(self.operators, active_operator(id)) {
            Some(row) => row.operator.role == "admin"@ && count(self.operators, other_admin(id))
                == 0,
            None => false,
        }
    }

    /// Edit an operator: nothing where it does not exist, `false` where the
    /// last administrator would lose its role.
    pub open spec fn update_local_operator(
        self,
        c: ClockReadingView,
        id: Seq<char>,
        display_name: Seq<char>,
        role: Seq<char>,
    ) -> (StoreView, Result<Option<bool>, StoreError>) {
        let (s, gate) = self.checkpoint_clock(c);
        match gate {
            Err(error) => (s, Err(error)),
            Ok(()) => if !is_role(role) {
                (s, Err(StoreError::InvalidInput("operator role")))
            } else if first(s.operators, active_operator(id)) is None {
                (s, Ok(None))
            } else if role != "admin"@ && s.is_last_admin(id) {
                (s, Ok(Some(false)))
            } else {
                (
                    StoreView {
                        operators: updated(
                            s.operators,
                            active_operator(id),
                            operator_edited(display_name, role),
                        ),
                        ..s
                    },
                    Ok(
                        if count(s.operators, active_operator(id)) == 1 {
                            Some(true)
                        } else {
                            None
                        },
                    ),
                )
            },
        }
    }

    /// Delete an operator: nothing where it does not exist, `false` where it is
    /// the last administrator.
    pub open spec fn delete_local_operator(self, c: ClockReadingView, id: Seq<char>) -> (
        StoreView,
        Result<Option<bool>, StoreError>,
    ) {
        let (s, gate) = self.checkpoint_clock(c);
        match gate {
            Err(error) => (s, Err(error)),
            Ok(()) => if first(s.operators, active_operator(id)) is None {
                (s, Ok(None))
            } else if s.is_last_admin(id) {
                (s, Ok(Some(false)))
            } else {
                (
                    StoreView { operators: without(s.operators, active_operator(id)), ..s },
                    Ok(
                        if count(s.operators, active_operator(id)) == 1 {
                            Some(true)
                        } else {
                            None
                        },
                    ),
                )
            },
        }
    }

    /// The state after an operator's password is replaced, with the sessions
    /// that `stale` picks revoked where exactly one operator was meant.
    pub open spec fn replace_password(
        self,
        id: Seq<char>,
        password_hash: Seq<char>,
        must_change_password: bool,
        stale: spec_fn(crate::tables::SessionRowView) -> bool,
        now: Option<i64>,
    ) -> (StoreView, bool) {
        let replaced = StoreView {
            operators: updated(
                self.operators,
                active_operator(id),
                password_replaced(password_hash, must_change_password),
            ),
            ..self
        };
        if count(self.operators, active_operator(id)) != 1 {
            (replaced, false)
        } else {
            (
                StoreView {
                    operator_sessions: updated(
                        self.operator_sessions,
                        stale,
                        crate::clock::session_revoked_at(now),
                    ),
                    ..replaced
                },
                true,
            )
        }
    }

    /// Change an operator's password and revoke its other sessions.
    pub open spec fn change_operator_password(
        self,
        c: ClockReadingView,
        operator_id: Seq<char>,
        current_session_id: Seq<char>,
        new_password_hash: Seq<char>,
    ) -> (StoreView, Result<bool, StoreError>) {
        let (s, gate) = self.checkpoint_clock(c);
        match gate {
            Err(error) => (s, Err(error)),
            Ok(()) => if new_password_hash.len() == 0 {
                (s, Err(StoreError::InvalidInput("password hash")))
            } else {
                let (after, changed) = s.replace_password(
                    operator_id,
                    new_password_hash,
                    false,
                    other_session_of(operator_id, current_session_id),
                    s.now(c.now_ms),
                );
                (after, Ok(changed))
            },
        }
    }

    /// Reset an operator's password and revoke its sessions.
    pub open spec fn reset_local_operator_password(
        self,
        c: ClockReadingView,
        id: Seq<char>,
        password_hash: Seq<char>,
    ) -> (StoreView, Result<bool, StoreError>) {
        let (s, gate) = self.checkpoint_clock(c);
        match gate {
            Err(error) => (s, Err(error)),
            Ok(()) => if password_hash.len() == 0 {
                (s, Err(StoreError::InvalidInput("password hash")))
            } else {
                let (after, changed) = s.replace_password(
                    id,
                    password_hash,
                    true,
                    session_of_operator(id),
                    s.now(c.now_ms),
                );
                (after, Ok(changed))
            },
        }
    }
}

/// The first administrator.
pub open spec fn first_admin(
    id: Seq<char>,
    username: Seq<char>,
    display_name: Seq<char>,
    password_hash: Seq<char>,
    must_change_password: bool,
) -> LocalOperatorView {
    LocalOperatorView {
        id,
        username,
        display_name,
        password_hash,
        role: "admin"@,
        must_change_password,
        disabled_at_ms: None,
    }
}

fn valid_role(role: &str) -> (valid: bool)
    ensures
        valid == is_role(role@),
{
    same(role, "admin") || same(role, "operator") || same(role, "viewer")
}

fn is_active_operator(row: &OperatorRow, id: &str) -> (yes: bool)
    ensures
        yes == active_operator(id@)(row@),
{
    same(&row.operator.id, id) && row.operator.disabled_at_ms.is_none()
}

fn build_operator(
    id: &str,
    username: &str,
    display_name: &str,
    password_hash: &str,
    role: &str,
    must_change_password: bool,
) -> (operator: LocalOperator)
    ensures
        operator@ == (LocalOperatorView {
            id: id@,
            username: username@,
            display_name: display_name@,
            password_hash: password_hash@,
            role: role@,
            must_change_password,
            disabled_at_ms: None,
        }),
{
    LocalOperator {
        id: id.to_owned(),
        username: username.to_owned(),
        display_name: display_name.to_owned(),
        password_hash: password_hash.to_owned(),
        role: role.to_owned(),
        must_change_password,
        disabled_at_ms: None,
    }
}

impl Store {
    fn insert_operator(&mut self, operator: LocalOperator, now: Option<i64>) -> (reply: Result<
        (),
        StoreError,
    >)
        ensures
            match old(self)@.insert_operator(operator@, now) {
                Ok(after) => reply is Ok && final(self)@ == after,
                Err(error) => reply == Err::<(), StoreError>(error) && final(self)@ == old(self)@,
            },
    {
        let created_at_ms: i64 = match now {
            Some(now_ms) => now_ms,
            None => {
                return Err(StoreError::Database(DatabaseFault::ClockBehind));
            },
        };
        let id = &operator.id;
        let taken = any_row(
            &self.operators,
            |row: &OperatorRow| -> (b: bool)
                ensures b == operator_with(id@)(row@)
                { same(&row.operator.id, id) },
            Ghost(operator_with(id@)),
        );
        if taken {
            return Err(StoreError::Database(DatabaseFault::DuplicateKey));
        }
        push_row(&mut self.operators, OperatorRow { operator, created_at_ms });
        Ok(())
    }

    fn admin_active(&self) -> (active: bool)
        ensures
            active == any(self@.operators, active_admin()),
    {
        any_row(
            &self.operators,
            |row: &OperatorRow| -> (b: bool)
                ensures b == active_admin()(row@)
                { same(&row.operator.role, "admin") && row.operator.disabled_at_ms.is_none() },
            Ghost(active_admin()),
        )
    }

    /// Whether an administrator can act.
    pub fn has_active_admin(&mut self, reading: &ClockReading) -> (reply: Result<bool, StoreError>)
        ensures
            (final(self)@, reply) == old(self)@.has_active_admin(reading@),
    {
        if let Err(error) = self.checkpoint_clock(reading) {
            return Err(error);
        }
        Ok(self.admin_active())
    }

    /// Create the first administrator, who has to change the password. Returns
    /// `false` where an administrator can act.
    pub fn bootstrap_local_operator(
        &mut self,
        reading: &ClockReading,
        id: &str,
        username: &str,
        display_name: &str,
        password_hash: &str,
    ) -> (reply: Result<bool, StoreError>)
        ensures
            (final(self)@, reply) == old(self)@.bootstrap_local_operator(
                reading@,
                id@,
                username@,
                display_name@,
                password_hash@,
            ),
    {
        if let Err(error) = self.checkpoint_clock(reading) {
            return Err(error);
        }
        if self.admin_active() {
            return Ok(false);
        }
        let now = self.now(reading.now_ms);
        let operator = build_operator(id, username, display_name, password_hash, "admin", true);
        match self.insert_operator(operator, now) {
            Ok(()) => Ok(true),
            Err(error) => Err(error),
        }
    }

    /// Issue a one-use token that creates the first administrator. Returns
    /// `false` where an administrator can act.
    pub fn issue_bootstrap_token(
        &mut self,
        reading: &ClockReading,
        token_hash: &str,
        ttl_seconds: u64,
    ) -> (reply: Result<bool, StoreError>)
        ensures
            (final(self)@, reply) == old(self)@.issue_bootstrap_token(
                reading@,
                token_hash@,
                ttl_seconds,
            ),
    {
        if let Err(error) = self.checkpoint_clock(reading) {
            return Err(error);
        }
        let ttl_ms: i64 = match positive_milliseconds(ttl_seconds, "bootstrap token TTL") {
            Ok(ttl_ms) => ttl_ms,
            Err(error) => {
                return Err(error);
            },
        };
        if self.admin_active() {
            return Ok(false);
        }
        let now = self.now(reading.now_ms);
        if now.is_none() {
            return Err(StoreError::Database(DatabaseFault::ClockBehind));
        }
        let expires_at_ms: i64 = match deadline(now, ttl_ms) {
            Some(expires_at_ms) => expires_at_ms,
            None => {
                return Err(StoreError::Database(DatabaseFault::OutOfRange));
            },
        };
        let taken = any_row(
            &self.bootstrap_tokens,
            |row: &BootstrapTokenRow| -> (b: bool)
                ensures b == token_with(token_hash@)(row@)
                { same(&row.token_hash, token_hash) },
            Ghost(token_with(token_hash@)),
        );
        if taken {
            return Err(StoreError::Database(DatabaseFault::DuplicateKey));
        }
        push_row(
            &mut self.bootstrap_tokens,
            BootstrapTokenRow {
                token_hash: token_hash.to_owned(),
                expires_at_ms,
                used_at_ms: None,
            },
        );
        Ok(true)
    }

    /// Create the first administrator with a token, which is used up. Returns
    /// `false` where an administrator can act or the token is not usable.
    pub fn bootstrap_operator_with_token(
        &mut self,
        reading: &ClockReading,
        token_hash: &str,
        id: &str,
        username: &str,
        display_name: &str,
        password_hash: &str,
    ) -> (reply: Result<bool, StoreError>)
        ensures
            (final(self)@, reply) == old(self)@.bootstrap_operator_with_token(
                reading@,
                token_hash@,
                id@,
                username@,
                display_name@,
                password_hash@,
            ),
    {
        if let Err(error) = self.checkpoint_clock(reading) {
            return Err(error);
        }
        if self.admin_active() {
            return Ok(false);
        }
        let now = self.now(reading.now_ms);
        let ghost hit = usable_token(token_hash@, now);
        let usable = any_row(
            &self.bootstrap_tokens,
            |row: &BootstrapTokenRow| -> (b: bool)
                ensures b == hit(row@)
                {
                    same(&row.token_hash, token_hash) && row.used_at_ms.is_none()
                        && is_unexpired(row.expires_at_ms, now)
                },
            Ghost(hit),
        );
        if !usable {
            return Ok(false);
        }
        let operator = build_operator(id, username, display_name, password_hash, "admin", false);
        if let Err(error) = self.insert_operator(operator, now) {
            return Err(error);
        }
        update_rows(
            &mut self.bootstrap_tokens,
            |row: &BootstrapTokenRow| -> (b: bool)
                ensures b == hit(row@)
                {
                    same(&row.token_hash, token_hash) && row.used_at_ms.is_none()
                        && is_unexpired(row.expires_at_ms, now)
                },
            |row: &BootstrapTokenRow| -> (next: BootstrapTokenRow)
                ensures next@ == token_used(now)(row@)
                {
                    let mut next = row.duplicate();
                    next.used_at_ms = now;
                    next
                },
            Ghost(hit),
            Ghost(token_used(now)),
        );
        Ok(true)
    }

    /// Read the operator with a name.
    pub fn operator_by_username(&mut self, reading: &ClockReading, username: &str) -> (reply:
        Result<Option<LocalOperator>, StoreError>)
        ensures
            (final(self)@, answer_option(reply)) == old(self)@.read_operator(
                reading@,
                operator_named(username@),
            ),
    {
        if let Err(error) = self.checkpoint_clock(reading) {
            return Err(error);
        }
        let found = find_row(
            &self.operators,
            |row: &OperatorRow| -> (b: bool)
                ensures b == operator_named(username@)(row@)
                { same(&row.operator.username, username) },
            Ghost(operator_named(username@)),
        );
        match found {
            Some(at) => Ok(Some(self.operators[at].operator.duplicate())),
            None => Ok(None),
        }
    }

    /// Read the operator with an identifier.
    pub fn operator_by_id(&mut self, reading: &ClockReading, id: &str) -> (reply: Result<
        Option<LocalOperator>,
        StoreError,
    >)
        ensures
            (final(self)@, answer_option(reply)) == old(self)@.read_operator(
                reading@,
                operator_with(id@),
            ),
    {
        if let Err(error) = self.checkpoint_clock(reading) {
            return Err(error);
        }
        let found = find_row(
            &self.operators,
            |row: &OperatorRow| -> (b: bool)
                ensures b == operator_with(id@)(row@)
                { same(&row.operator.id, id) },
            Ghost(operator_with(id@)),
        );
        match found {
            Some(at) => Ok(Some(self.operators[at].operator.duplicate())),
            None => Ok(None),
        }
    }

    /// List the operators by name.
    pub fn list_local_operators(&mut self, reading: &ClockReading) -> (reply: Result<
        Vec<LocalOperator>,
        StoreError,
    >)
        ensures
            (final(self)@, answer_rows(reply)) == old(self)@.list_local_operators(reading@),
    {
        if let Err(error) = self.checkpoint_clock(reading) {
            return Err(error);
        }
        let found = select_rows(
            &self.operators,
            |row: &OperatorRow| -> (b: bool)
                ensures b == every_operator()(row@)
                { true },
            |row: &OperatorRow| -> (operator: LocalOperator)
                ensures operator@ == operator_of()(row@)
                { row.operator.duplicate() },
            Ghost(every_operator()),
            Ghost(operator_of()),
        );
        let sorted = order_rows(
            found,
            |a: &LocalOperator, b: &LocalOperator| -> (less: bool)
                ensures less == operator_order()(a@, b@)
                {
                    before(&a.username, &b.username) || (same(&a.username, &b.username) && before(
                        &a.id,
                        &b.id,
                    ))
                },
            Ghost(operator_order()),
        );
        Ok(sorted)
    }

    /// Create an operator.
    pub fn create_local_operator(
        &mut self,
        reading: &ClockReading,
        id: &str,
        username: &str,
        display_name: &str,
        role: &str,
        password_hash: &str,
    ) -> (reply: Result<(), StoreError>)
        ensures
            (final(self)@, reply) == old(self)@.create_local_operator(
                reading@,
                id@,
                username@,
                display_name@,
                role@,
                password_hash@,
            ),
    {
        if let Err(error) = self.checkpoint_clock(reading) {
            return Err(error);
        }
        if !valid_role(role) {
            return Err(StoreError::InvalidInput("operator role"));
        }
        let now = self.now(reading.now_ms);
        let operator = build_operator(id, username, display_name, password_hash, role, false);
        match self.insert_operator(operator, now) {
            Ok(()) => Ok(()),
            Err(error) => Err(error),
        }
    }

    fn find_active_operator(&self, id: &str) -> (found: Option<usize>)
        ensures
            match found {
                Some(at) => {
                    &&& at < self.operators@.len()
                    &&& first(self@.operators, active_operator(id@)) == Some(
                        self.operators@[at as int]@,
                    )
                },
                None => first(self@.operators, active_operator(id@)) is None,
            },
    {
        find_row(
            &self.operators,
            |row: &OperatorRow| -> (b: bool)
                ensures b == active_operator(id@)(row@)
                { is_active_operator(row, id) },
            Ghost(active_operator(id@)),
        )
    }

    fn last_admin(&self, id: &str, at: usize) -> (last: bool)
        requires
            at < self.operators@.len(),
            first(self@.operators, active_operator(id@)) == Some(self.operators@[at as int]@),
        ensures
            last == self@.is_last_admin(id@),
    {
        let others: usize = count_rows(
            &self.operators,
            |row: &OperatorRow| -> (b: bool)
                ensures b == other_admin(id@)(row@)
                {
                    !same(&row.operator.id, id) && same(&row.operator.role, "admin")
                        && row.operator.disabled_at_ms.is_none()
                },
            Ghost(other_admin(id@)),
        );
        same(&self.operators[at].operator.role, "admin") && others == 0
    }

    /// Edit an operator. Returns nothing where it does not exist, and `false`
    /// where the last administrator would lose its role.
    pub fn update_local_operator(
        &mut self,
        reading: &ClockReading,
        id: &str,
        display_name: &str,
        role: &str,
    ) -> (reply: Result<Option<bool>, StoreError>)
        ensures
            (final(self)@, reply) == old(self)@.update_local_operator(
                reading@,
                id@,
                display_name@,
                role@,
            ),
    {
        if let Err(error) = self.checkpoint_clock(reading) {
            return Err(error);
        }
        if !valid_role(role) {
            return Err(StoreError::InvalidInput("operator role"));
        }
        let at: usize = match self.find_active_operator(id) {
            Some(at) => at,
            None => {
                return Ok(None);
            },
        };
        if !same(role, "admin") && self.last_admin(id, at) {
            return Ok(Some(false));
        }
        let changed: usize = update_rows(
            &mut self.operators,
            |row: &OperatorRow| -> (b: bool)
                ensures b == active_operator(id@)(row@)
                { is_active_operator(row, id) },
            |row: &OperatorRow| -> (next: OperatorRow)
                ensures next@ == operator_edited(display_name@, role@)(row@)
                {
                    let mut next = row.duplicate();
                    next.operator.display_name = display_name.to_owned();
                    next.operator.role = role.to_owned();
                    next
                },
            Ghost(active_operator(id@)),
            Ghost(operator_edited(display_name@, role@)),
        );
        if changed == 1 {
            Ok(Some(true))
        } else {
            Ok(None)
        }
    }

    /// Delete an operator. Returns nothing where it does not exist, and `false`
    /// where it is the last administrator.
    pub fn delete_local_operator(&mut self, reading: &ClockReading, id: &str) -> (reply: Result<
        Option<bool>,
        StoreError,
    >)
        ensures
            (final(self)@, reply) == old(self)@.delete_local_operator(reading@, id@),
    {
        if let Err(error) = self.checkpoint_clock(reading) {
            return Err(error);
        }
        let at: usize = match self.find_active_operator(id) {
            Some(at) => at,
            None => {
                return Ok(None);
            },
        };
        if self.last_admin(id, at) {
            return Ok(Some(false));
        }
        let removed: usize = remove_rows(
            &mut self.operators,
            |row: &OperatorRow| -> (b: bool)
                ensures b == active_operator(id@)(row@)
                { is_active_operator(row, id) },
            Ghost(active_operator(id@)),
        );
        if removed == 1 {
            Ok(Some(true))
        } else {
            Ok(None)
        }
    }

    fn replace_hash(&mut self, id: &str, password_hash: &str, must_change_password: bool) -> (
        changed: usize)
        ensures
            changed == count(old(self)@.operators, active_operator(id@)),
            final(self)@ == (StoreView {
                operators: updated(
                    old(self)@.operators,
                    active_operator(id@),
                    password_replaced(password_hash@, must_change_password),
                ),
                ..old(self)@
            }),
    {
        update_rows(
            &mut self.operators,
            |row: &OperatorRow| -> (b: bool)
                ensures b == active_operator(id@)(row@)
                { is_active_operator(row, id) },
            |row: &OperatorRow| -> (next: OperatorRow)
                ensures next@ == password_replaced(password_hash@, must_change_password)(row@)
                {
                    let mut next = row.duplicate();
                    next.operator.password_hash = password_hash.to_owned();
                    next.operator.must_change_password = must_change_password;
                    next
                },
            Ghost(active_operator(id@)),
            Ghost(password_replaced(password_hash@, must_change_password)),
        )
    }

    /// Change an operator's password and revoke every session of the operator
    /// but the current one.
    pub fn change_operator_password(
        &mut self,
        reading: &ClockReading,
        operator_id: &str,
        current_session_id: &str,
        new_password_hash: &str,
    ) -> (reply: Result<bool, StoreError>)
        ensures
            (final(self)@, reply) == old(self)@.change_operator_password(
                reading@,
                operator_id@,
                current_session_id@,
                new_password_hash@,
            ),
    {
        if let Err(error) = self.checkpoint_clock(reading) {
            return Err(error);
        }
        if new_password_hash.is_empty() {
            return Err(StoreError::InvalidInput("password hash"));
        }
        let now = self.now(reading.now_ms);
        if self.replace_hash(operator_id, new_password_hash, false) != 1 {
            return Ok(false);
        }
        update_rows(
            &mut self.operator_sessions,
            |row: &SessionRow| -> (b: bool)
                ensures b == other_session_of(operator_id@, current_session_id@)(row@)
                {
                    same(&row.operator_id, operator_id) && !same(&row.id, current_session_id)
                        && row.revoked_at_ms.is_none()
                },
            |row: &SessionRow| -> (next: SessionRow)
                ensures next@ == crate::clock::session_revoked_at(now)(row@)
                { crate::sessions::revoke_row(row, now) },
            Ghost(other_session_of(operator_id@, current_session_id@)),
            Ghost(crate::clock::session_revoked_at(now)),
        );
        Ok(true)
    }

    /// Reset an operator's password, which has to be changed then, and revoke
    /// every session of the operator.
    pub fn reset_local_operator_password(
        &mut self,
        reading: &ClockReading,
        id: &str,
        password_hash: &str,
    ) -> (reply: Result<bool, StoreError>)
        ensures
            (final(self)@, reply) == old(self)@.reset_local_operator_password(
                reading@,
                id@,
                password_hash@,
            ),
    {
        if let Err(error) = self.checkpoint_clock(reading) {
            return Err(error);
        }
        if password_hash.is_empty() {
            return Err(StoreError::InvalidInput("password hash"));
        }
        let now = self.now(reading.now_ms);
        if self.replace_hash(id, password_hash, true) != 1 {
            return Ok(false);
        }
        update_rows(
            &mut self.operator_sessions,
            |row: &SessionRow| -> (b: bool)
                ensures b == session_of_operator(id@)(row@)
                { same(&row.operator_id, id) && row.revoked_at_ms.is_none() },
            |row: &SessionRow| -> (next: SessionRow)
                ensures next@ == crate::clock::session_revoked_at(now)(row@)
                { crate::sessions::revoke_row(row, now) },
            Ghost(session_of_operator(id@)),
            Ghost(crate::clock::session_revoked_at(now)),
        );
        Ok(true)
    }
}

} // verus!
