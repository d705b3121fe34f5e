//! Browser sessions of local operators.

use crate::clock::{session_revoked_at, ClockReading, ClockReadingView};
use crate::error::{DatabaseFault, StoreError};
use crate::ids::{is_token, is_uuid, new_uuid, random_token};
use crate::limits::{
    deadline, is_unexpired, milliseconds, moment_after, positive_milliseconds, unexpired,
};
use crate::operators::{active_operator, operator_with};
use crate::records::{LocalSession, LocalSessionView};
use crate::relation::{
    answer_option, any, any_row, count, count_rows, find_row, first, push_row, rows_view,
    update_rows, updated, Duplicate,
};
use crate::store::{Store, StoreView};
use crate::tables::{OperatorRow, OperatorRowView, SessionRow, SessionRowView};
use crate::text::same;
use vstd::prelude::*;

verus! {

/// How long a session may stay unused.
pub const SESSION_IDLE_MS: i64 = 43_200_000;

/// The sessions of an operator that are not revoked.
pub open spec fn session_of_operator(operator_id: Seq<char>) -> spec_fn(SessionRowView) -> bool {
    |row: SessionRowView| row.operator_id == operator_id && row.revoked_at_ms is None
}

/// The sessions of an operator that are not revoked, but for one.
pub open spec fn other_session_of(operator_id: Seq<char>, session_id: Seq<char>) -> spec_fn(
    SessionRowView,
) -> bool {
    |row: SessionRowView|
        row.operator_id == operator_id && row.id != session_id && row.revoked_at_ms is None
}

/// The sessions of a family that are not revoked.
pub open spec fn session_of_family(family_id: Seq<char>) -> spec_fn(SessionRowView) -> bool {
    |row: SessionRowView| row.family_id == family_id && row.revoked_at_ms is None
}

/// Whether a session was used lately.
pub open spec fn not_idle(row: SessionRowView, now: Option<i64>) -> bool {
    match now {
        Some(now_ms) => row.last_seen_at_ms + SESSION_IDLE_MS > now_ms,
        None => false,
    }
}

/// Whether a session can be used.
pub open spec fn is_usable(row: SessionRowView, now: Option<i64>) -> bool {
    row.revoked_at_ms is None && unexpired(row.expires_at_ms, now) && not_idle(row, now)
}

/// The usable browser session with an identifier.
pub open spec fn usable_session(session_id: Seq<char>, now: Option<i64>) -> spec_fn(
    SessionRowView,
) -> bool {
    |row: SessionRowView| row.id == session_id && row.kind == "browser"@ && is_usable(row, now)
}

/// The usable browser session with a refresh hash.
pub open spec fn usable_refresh(refresh_hash: Seq<char>, now: Option<i64>) -> spec_fn(
    SessionRowView,
) -> bool {
    |row: SessionRowView|
        row.refresh_hash == refresh_hash && row.kind == "browser"@ && is_usable(row, now)
}

/// The browser session with a refresh hash.
pub open spec fn refreshed_by(refresh_hash: Seq<char>) -> spec_fn(SessionRowView) -> bool {
    |row: SessionRowView| row.refresh_hash == refresh_hash && row.kind == "browser"@
}

/// The usable session with an identifier, of any kind.
pub open spec fn rotatable_session(session_id: Seq<char>, now: Option<i64>) -> spec_fn(
    SessionRowView,
) -> bool {
    |row: SessionRowView| row.id == session_id && is_usable(row, now)
}

/// The browser session with an identifier that is not revoked, while the time
/// can be told.
pub open spec fn revocable_session(session_id: Seq<char>, now: Option<i64>) -> spec_fn(
    SessionRowView,
) -> bool {
    |row: SessionRowView|
        row.id == session_id && row.kind == "browser"@ && row.revoked_at_ms is None && now is Some
}

/// The session with an identifier.
pub open spec fn session_with(id: Seq<char>) -> spec_fn(SessionRowView) -> bool {
    |row: SessionRowView| row.id == id
}

/// A session that was rotated away.
pub open spec fn session_rotated(now: Option<i64>) -> spec_fn(SessionRowView) -> SessionRowView {
    |row: SessionRowView|
        SessionRowView {
            revoked_at_ms: now,
            last_seen_at_ms: match now {
                Some(now_ms) => now_ms,
                None => row.last_seen_at_ms,
            },
            ..row
        }
}

/// A session that was used just now.
pub open spec fn session_seen(now: Option<i64>) -> spec_fn(SessionRowView) -> SessionRowView {
    |row: SessionRowView|
        SessionRowView {
            last_seen_at_ms: match now {
                Some(now_ms) => now_ms,
                None => row.last_seen_at_ms,
            },
            ..row
        }
}

/// When a session ends: at its deadline, or once it stayed unused too long.
pub open spec fn session_end(row: SessionRowView) -> i64 {
    if row.last_seen_at_ms + SESSION_IDLE_MS < row.expires_at_ms {
        (row.last_seen_at_ms + SESSION_IDLE_MS) as i64
    } else {
        row.expires_at_ms
    }
}

/// The operators that a session can belong to: the one that it names, and only
/// where it is not disabled if `active` is set.
pub open spec fn owner_of(row: SessionRowView, active: bool) -> spec_fn(OperatorRowView) -> bool {
    if active {
        active_operator(row.operator_id)
    } else {
        operator_with(row.operator_id)
    }
}

/// The sessions that a predicate picks and that have an owner.
pub open spec fn owned_session(
    operators: Seq<OperatorRowView>,
    wanted: spec_fn(SessionRowView) -> bool,
    active: bool,
) -> spec_fn(SessionRowView) -> bool {
    |row: SessionRowView| wanted(row) && any(operators, owner_of(row, active))
}

impl StoreView {
    /// The session that a predicate picks, with its owner.
    pub open spec fn joined_session(self, wanted: spec_fn(SessionRowView) -> bool, active: bool) -> Option<
        LocalSessionView,
    > {
        match first(self.operator_sessions, owned_session(self.operators, wanted, active)) {
            None => None,
            Some(row) => match first(self.operators, owner_of(row, active)) {
                None => None,
                Some(owner) => Some(
                    LocalSessionView {
                        session_id: row.id,
                        operator: owner.operator,
                        csrf_secret: row.csrf_secret,
                        expires_at_ms: session_end(row),
                    },
                ),
            },
        }
    }

    /// Read a usable session.
    pub open spec fn browser_session_by_id(self, c: ClockReadingView, session_id: Seq<char>) -> (
        StoreView,
        Result<Option<LocalSessionView>, StoreError>,
    ) {
        let (s, gate) = self.checkpoint_clock(c);
        match gate {
            Err(error) => (s, Err(error)),
            Ok(()) => (
                s,
                Ok(s.joined_session(usable_session(session_id, s.now(c.now_ms)), true)),
            ),
        }
    }

    /// Read the usable session of a refresh hash.
    pub open spec fn browser_session_by_refresh_hash(
        self,
        c: ClockReadingView,
        refresh_hash: Seq<char>,
    ) -> (StoreView, Result<Option<LocalSessionView>, StoreError>) {
        let (s, gate) = self.checkpoint_clock(c);
        match gate {
            Err(error) => (s, Err(error)),
            Ok(()) => (
                s,
                Ok(s.joined_session(usable_refresh(refresh_hash, s.now(c.now_ms)), true)),
            ),
        }
    }

    /// Read the session of a refresh hash, usable or not.
    pub open spec fn browser_session_for_refresh_hash(
        self,
        c: ClockReadingView,
        refresh_hash: Seq<char>,
    ) -> (StoreView, Result<Option<LocalSessionView>, StoreError>) {
        let (s, gate) = self.checkpoint_clock(c);
        match gate {
            Err(error) => (s, Err(error)),
            Ok(()) => (s, Ok(s.joined_session(refreshed_by(refresh_hash), false))),
        }
    }

    /// Open a session for an operator that is not disabled, then read it back at
    /// a reading of its own.
    pub open spec fn open_browser_session(
        self,
        c: ClockReadingView,
        follow_up: ClockReadingView,
        session_id: Seq<char>,
        csrf_secret: Seq<char>,
        operator_id: Seq<char>,
        refresh_hash: Seq<char>,
        ttl_seconds: u64,
    ) -> (StoreView, Result<Option<LocalSessionView>, StoreError>) {
        let (s, gate) = self.checkpoint_clock(c);
        let now = s.now(c.now_ms);
        let owners = count(s.operators, active_operator(operator_id));
        match gate {
            Err(error) => (s, Err(error)),
            Ok(()) => if refresh_hash.len() == 0 {
                (s, Err(StoreError::InvalidInput("refresh hash")))
            } else {
                match milliseconds(ttl_seconds) {
                    None => (s, Err(StoreError::InvalidInput("refresh TTL"))),
                    Some(ttl_ms) => if owners == 0 {
                        (s, Ok(None))
                    } else if now is None {
                        (s, Err(StoreError::Database(DatabaseFault::ClockBehind)))
                    } else {
                        match moment_after(now, ttl_ms) {
                            None => (s, Err(StoreError::Database(DatabaseFault::OutOfRange))),
                            Some(expires_at_ms) => if owners > 1 || any(
                                s.operator_sessions,
                                session_with(session_id),
                            ) {
                                (s, Err(StoreError::Database(DatabaseFault::DuplicateKey)))
                            } else {
                                StoreView {
                                    operator_sessions: s.operator_sessions.push(
                                        SessionRowView {
                                            id: session_id,
                                            operator_id,
                                            refresh_hash,
                                            csrf_secret,
                                            kind: "browser"@,
                                            created_at_ms: now->0,
                                            expires_at_ms,
                                            rotated_from: None,
                                            family_id: session_id,
                                            last_seen_at_ms: now->0,
                                            revoked_at_ms: None,
                                        },
                                    ),
                                    ..s
                                }.browser_session_by_id(follow_up, session_id)
                            },
                        }
                    },
                }
            },
        }
    }

    /// The state with every session of a family revoked.
    pub open spec fn revoke_session_family(self, family_id: Seq<char>, now: Option<i64>) -> StoreView {
        StoreView {
            operator_sessions: updated(
                self.operator_sessions,
                session_of_family(family_id),
                session_revoked_at(now),
            ),
            ..self
        }
    }

    /// The state after a session gave way to a new one, and whether there is a
    /// new one.
    pub open spec fn replace_session(
        self,
        row: SessionRowView,
        session_id: Seq<char>,
        refresh_hash: Seq<char>,
        ttl_ms: i64,
        now: Option<i64>,
    ) -> Result<(StoreView, bool), StoreError> {
        let hit = rotatable_session(row.id, now);
        if count(self.operator_sessions, hit) != 1 {
            let touched = StoreView {
                operator_sessions: updated(self.operator_sessions, hit, session_rotated(now)),
                ..self
            };
            Ok((touched.revoke_session_family(row.family_id, now), false))
        } else {
            let rotated = StoreView {
                operator_sessions: updated(self.operator_sessions, hit, session_rotated(now)),
                ..self
            };
            if !any(self.operators, active_operator(row.operator_id)) {
                Ok((rotated, false))
            } else {
                match moment_after(now, ttl_ms) {
                    None => Err(StoreError::Database(DatabaseFault::OutOfRange)),
                    Some(expires_at_ms) => if any(
                        self.operator_sessions,
                        session_with(session_id),
                    ) {
                        Err(StoreError::Database(DatabaseFault::DuplicateKey))
                    } else {
                        Ok(
                            (
                                StoreView {
                                    operator_sessions: rotated.operator_sessions.push(
                                        SessionRowView {
                                            id: session_id,
                                            operator_id: row.operator_id,
                                            refresh_hash,
                                            csrf_secret: row.csrf_secret,
                                            kind: "browser"@,
                                            created_at_ms: now->0,
                                            expires_at_ms,
                                            rotated_from: Some(row.id),
                                            family_id: row.family_id,
                                            last_seen_at_ms: now->0,
                                            revoked_at_ms: None,
                                        },
                                    ),
                                    ..rotated
                                },
                                true,
                            ),
                        )
                    },
                }
            }
        }
    }

    /// Rotate a session to a new refresh hash. A refresh hash that was rotated
    /// away before revokes its whole family. The old session is found at one
    /// clock reading and replaced at a later one; the new session is read back
    /// at a reading of its own.
    pub open spec fn rotate_browser_session_to(
        self,
        c: ClockReadingView,
        follow_up: ClockReadingView,
        session_id: Seq<char>,
        old_refresh_hash: Seq<char>,
        new_refresh_hash: Seq<char>,
        ttl_seconds: u64,
    ) -> (StoreView, Result<Option<LocalSessionView>, StoreError>) {
        let (s, gate) = self.checkpoint_clock(c);
        let now = s.now(c.now_ms);
        let later = s.now(c.later_ms);
        match gate {
            Err(error) => (s, Err(error)),
            Ok(()) => if new_refresh_hash.len() == 0 {
                (s, Err(StoreError::InvalidInput("refresh hash")))
            } else {
                match milliseconds(ttl_seconds) {
                    None => (s, Err(StoreError::InvalidInput("refresh TTL"))),
                    Some(ttl_ms) => match first(
                        s.operator_sessions,
                        refreshed_by(old_refresh_hash),
                    ) {
                        None => (s, Ok(None)),
                        Some(row) => if now is None {
                            (s, Err(StoreError::Database(DatabaseFault::ClockBehind)))
                        } else if row.revoked_at_ms is Some {
                            (s.revoke_session_family(row.family_id, later), Ok(None))
                        } else if !unexpired(row.expires_at_ms, now) || !not_idle(row, now) {
                            (s, Ok(None))
                        } else {
                            match s.replace_session(
                                row,
                                session_id,
                                new_refresh_hash,
                                ttl_ms,
                                later,
                            ) {
                                Err(error) => (s, Err(error)),
                                Ok((after, false)) => (after, Ok(None)),
                                Ok((after, true)) => after.browser_session_by_id(
                                    follow_up,
                                    session_id,
                                ),
                            }
                        },
                    },
                }
            },
        }
    }

    /// Record that a session was used.
    pub open spec fn touch_browser_session(self, c: ClockReadingView, session_id: Seq<char>) -> (
        StoreView,
        Result<bool, StoreError>,
    ) {
        let (s, gate) = self.checkpoint_clock(c);
        let now = s.now(c.now_ms);
        let hit = owned_session(s.operators, usable_session(session_id, now), true);
        match gate {
            Err(error) => (s, Err(error)),
            Ok(()) => (
                StoreView {
                    operator_sessions: updated(s.operator_sessions, hit, session_seen(now)),
                    ..s
                },
                Ok(count(s.operator_sessions, hit) == 1),
            ),
        }
    }

    /// Revoke a session.
    pub open spec fn revoke_browser_session(self, c: ClockReadingView, session_id: Seq<char>) -> (
        StoreView,
        Result<bool, StoreError>,
    ) {
        let (s, gate) = self.checkpoint_clock(c);
        let now = s.now(c.now_ms);
        let hit = revocable_session(session_id, now);
        match gate {
            Err(error) => (s, Err(error)),
            Ok(()) => (
                StoreView {
                    operator_sessions: updated(s.operator_sessions, hit, session_revoked_at(now)),
                    ..s
                },
                Ok(count(s.operator_sessions, hit) == 1),
            ),
        }
    }
}

/// Revoke a session.
pub fn revoke_row(row: &SessionRow, at_ms: Option<i64>) -> (next: SessionRow)
    ensures
        next@ == session_revoked_at(at_ms)(row@),
{
    let mut next = row.duplicate();
    next.revoked_at_ms = at_ms;
    next
}

fn fresh_enough(row: &SessionRow, now: Option<i64>) -> (yes: bool)
    ensures
        yes == not_idle(row@, now),
{
    match now {
        Some(now_ms) => match row.last_seen_at_ms.checked_add(SESSION_IDLE_MS) {
            Some(idle_at_ms) => idle_at_ms > now_ms,
            None => true,
        },
        None => false,
    }
}

fn usable(row: &SessionRow, now: Option<i64>) -> (yes: bool)
    ensures
        yes == is_usable(row@, now),
{
    row.revoked_at_ms.is_none() && is_unexpired(row.expires_at_ms, now) && fresh_enough(row, now)
}

fn ends_at(row: &SessionRow) -> (end_ms: i64)
    ensures
        end_ms == session_end(row@),
{
    match row.last_seen_at_ms.checked_add(SESSION_IDLE_MS) {
        Some(idle_at_ms) => if idle_at_ms < row.expires_at_ms {
            idle_at_ms
        } else {
            row.expires_at_ms
        },
        None => row.expires_at_ms,
    }
}

fn owner_row(operators: &Vec<OperatorRow>, row: &SessionRow, active: bool) -> (found: Option<usize>)
    ensures
        match found {
            Some(at) => {
                &&& at < operators@.len()
                &&& any(rows_view(operators@), owner_of(row@, active))
                &&& first(rows_view(operators@), owner_of(row@, active)) == Some(
                    operators@[at as int]@,
                )
            },
            None => !any(rows_view(operators@), owner_of(row@, active)) && first(
                rows_view(operators@),
                owner_of(row@, active),
            ) is None,
        },
{
    let id = &row.operator_id;
    find_row(
        operators,
        |operator: &OperatorRow| -> (b: bool)
            ensures b == owner_of(row@, active)(operator@)
            {
                same(&operator.operator.id, id) && (!active
                    || operator.operator.disabled_at_ms.is_none())
            },
        Ghost(owner_of(row@, active)),
    )
}

impl Store {
    fn joined_session<P: Fn(&SessionRow) -> bool>(
        &self,
        wanted: P,
        active: bool,
        Ghost(picked): Ghost<spec_fn(SessionRowView) -> bool>,
    ) -> (found: Option<LocalSession>)
        requires
            forall|r: &SessionRow| wanted.requires((r,)),
            forall|r: &SessionRow, b: bool| wanted.ensures((r,), b) ==> b == picked(r@),
        ensures
            crate::relation::option_view(found) == self@.joined_session(picked, active),
    {
        let operators = &self.operators;
        let ghost ov = rows_view(operators@);
        let found = find_row(
            &self.operator_sessions,
            |row: &SessionRow| -> (b: bool)
                ensures b == owned_session(ov, picked, active)(row@)
                { wanted(row) && owner_row(operators, row, active).is_some() },
            Ghost(owned_session(ov, picked, active)),
        );
        match found {
            None => None,
            Some(at) => {
                let row = &self.operator_sessions[at];
                match owner_row(&self.operators, row, active) {
                    None => None,
                    Some(owner) => Some(
                        LocalSession {
                            session_id: row.id.clone(),
                            operator: self.operators[owner].operator.duplicate(),
                            csrf_secret: row.csrf_secret.clone(),
                            expires_at_ms: ends_at(row),
                        },
                    ),
                }
            },
        }
    }

    /// Read a usable browser session.
    pub fn browser_session_by_id(&mut self, reading: &ClockReading, session_id: &str) -> (reply:
        Result<Option<LocalSession>, StoreError>)
        ensures
            (final(self)@, answer_option(reply)) == old(self)@.browser_session_by_id(
                reading@,
                session_id@,
            ),
    {
        if let Err(error) = self.checkpoint_clock(reading) {
            return Err(error);
        }
        let now = self.now(reading.now_ms);
        let found = self.joined_session(
            |row: &SessionRow| -> (b: bool)
                ensures b == usable_session(session_id@, now)(row@)
                { same(&row.id, session_id) && same(&row.kind, "browser") && usable(row, now) },
            true,
            Ghost(usable_session(session_id@, now)),
        );
        Ok(found)
    }

    /// Read the usable browser session of a refresh hash.
    pub fn browser_session_by_refresh_hash(&mut self, reading: &ClockReading, refresh_hash: &str) -> (
        reply: Result<Option<LocalSession>, StoreError>)
        ensures
            (final(self)@, answer_option(reply)) == old(self)@.browser_session_by_refresh_hash(
                reading@,
                refresh_hash@,
            ),
    {
        if let Err(error) = self.checkpoint_clock(reading) {
            return Err(error);
        }
        let now = self.now(reading.now_ms);
        let found = self.joined_session(
            |row: &SessionRow| -> (b: bool)
                ensures b == usable_refresh(refresh_hash@, now)(row@)
                {
                    same(&row.refresh_hash, refresh_hash) && same(&row.kind, "browser") && usable(
                        row,
                        now,
                    )
                },
            true,
            Ghost(usable_refresh(refresh_hash@, now)),
        );
        Ok(found)
    }

    /// Read the browser session of a refresh hash, usable or not.
    pub fn browser_session_for_refresh_hash(&mut self, reading: &ClockReading, refresh_hash: &str) -> (
        reply: Result<Option<LocalSession>, StoreError>)
        ensures
            (final(self)@, answer_option(reply)) == old(self)@.browser_session_for_refresh_hash(
                reading@,
                refresh_hash@,
            ),
    {
        if let Err(error) = self.checkpoint_clock(reading) {
            return Err(error);
        }
        let found = self.joined_session(
            |row: &SessionRow| -> (b: bool)
                ensures b == refreshed_by(refresh_hash@)(row@)
                { same(&row.refresh_hash, refresh_hash) && same(&row.kind, "browser") },
            false,
            Ghost(refreshed_by(refresh_hash@)),
        );
        Ok(found)
    }

    fn session_id_taken(&self, session_id: &str) -> (taken: bool)
        ensures
            taken == any(self@.operator_sessions, session_with(session_id@)),
    {
        any_row(
            &self.operator_sessions,
            |row: &SessionRow| -> (b: bool)
                ensures b == session_with(session_id@)(row@)
                { same(&row.id, session_id) },
            Ghost(session_with(session_id@)),
        )
    }

    fn owner_count(&self, operator_id: &str) -> (owners: usize)
        ensures
            owners == count(self@.operators, active_operator(operator_id@)),
    {
        count_rows(
            &self.operators,
            |row: &OperatorRow| -> (b: bool)
                ensures b == active_operator(operator_id@)(row@)
                { same(&row.operator.id, operator_id) && row.operator.disabled_at_ms.is_none() },
            Ghost(active_operator(operator_id@)),
        )
    }

    /// Open a browser session under a given identifier and secret.
    pub fn open_browser_session(
        &mut self,
        reading: &ClockReading,
        follow_up: &ClockReading,
        session_id: &str,
        csrf_secret: &str,
        operator_id: &str,
        refresh_hash: &str,
        ttl_seconds: u64,
    ) -> (reply: Result<Option<LocalSession>, StoreError>)
        ensures
            (final(self)@, answer_option(reply)) == old(self)@.open_browser_session(
                reading@,
                follow_up@,
                session_id@,
                csrf_secret@,
                operator_id@,
                refresh_hash@,
                ttl_seconds,
            ),
    {
        if let Err(error) = self.checkpoint_clock(reading) {
            return Err(error);
        }
        if refresh_hash.is_empty() {
            return Err(StoreError::InvalidInput("refresh hash"));
        }
        let ttl_ms: i64 = match positive_milliseconds(ttl_seconds, "refresh TTL") {
            Ok(ttl_ms) => ttl_ms,
            Err(error) => {
                return Err(error);
            },
        };
        let owners: usize = self.owner_count(operator_id);
        if owners == 0 {
            return Ok(None);
        }
        let now = self.now(reading.now_ms);
        let now_ms: i64 = match now {
            Some(now_ms) => now_ms,
            None => {
                return Err(StoreError::Database(DatabaseFault::ClockBehind));
            },
        };
        let expires_at_ms: i64 = match deadline(now, ttl_ms) {
            Some(expires_at_ms) => expires_at_ms,
            None => {
                return Err(StoreError::Database(DatabaseFault::OutOfRange));
            },
        };
        if owners > 1 || self.session_id_taken(session_id) {
            return Err(StoreError::Database(DatabaseFault::DuplicateKey));
        }
        push_row(
            &mut self.operator_sessions,
            SessionRow {
                id: session_id.to_owned(),
                operator_id: operator_id.to_owned(),
                refresh_hash: refresh_hash.to_owned(),
                csrf_secret: csrf_secret.to_owned(),
                kind: "browser".to_owned(),
                created_at_ms: now_ms,
                expires_at_ms,
                rotated_from: None,
                family_id: session_id.to_owned(),
                last_seen_at_ms: now_ms,
                revoked_at_ms: None,
            },
        );
        self.browser_session_by_id(follow_up, session_id)
    }

    /// Open a browser session for an operator that is not disabled.
    pub fn create_browser_session(
        &mut self,
        reading: &ClockReading,
        follow_up: &ClockReading,
        operator_id: &str,
        refresh_hash: &str,
        ttl_seconds: u64,
    ) -> (reply: Result<Option<LocalSession>, StoreError>)
        ensures
            exists|session_id: Seq<char>, csrf_secret: Seq<char>| #[trigger] is_uuid(session_id)
                && #[trigger] is_token(csrf_secret) && (final(self)@, answer_option(reply)) == old(
                self,
            )@.open_browser_session(
                reading@,
                follow_up@,
                session_id,
                csrf_secret,
                operator_id@,
                refresh_hash@,
                ttl_seconds,
            ),
    {
        let session_id = new_uuid();
        let csrf_secret = random_token();
        self.open_browser_session(
            reading,
            follow_up,
            &session_id,
            &csrf_secret,
            operator_id,
            refresh_hash,
            ttl_seconds,
        )
    }

    fn revoke_session_family(&mut self, family_id: &str, now: Option<i64>)
        ensures
            final(self)@ == old(self)@.revoke_session_family(family_id@, now),
    {
        update_rows(
            &mut self.operator_sessions,
            |row: &SessionRow| -> (b: bool)
                ensures b == session_of_family(family_id@)(row@)
                { same(&row.family_id, family_id) && row.revoked_at_ms.is_none() },
            |row: &SessionRow| -> (next: SessionRow)
                ensures next@ == session_revoked_at(now)(row@)
                { revoke_row(row, now) },
            Ghost(session_of_family(family_id@)),
            Ghost(session_revoked_at(now)),
        );
    }

    fn replace_session(
        &mut self,
        old_row: &SessionRow,
        session_id: &str,
        refresh_hash: &str,
        ttl_ms: i64,
        now: Option<i64>,
    ) -> (reply: Result<bool, StoreError>)
        ensures
            match old(self)@.replace_session(
                old_row@,
                session_id@,
                refresh_hash@,
                ttl_ms,
                now,
            ) {
                Ok((after, replaced)) => reply == Ok::<bool, StoreError>(replaced) && final(self)@
                    == after,
                Err(error) => reply == Err::<bool, StoreError>(error) && final(self)@ == old(
                    self,
                )@,
            },
    {
        let old_id = &old_row.id;
        let ghost hit = rotatable_session(old_id@, now);
        let found: usize = count_rows(
            &self.operator_sessions,
            |row: &SessionRow| -> (b: bool)
                ensures b == hit(row@)
                { same(&row.id, old_id) && usable(row, now) },
            Ghost(hit),
        );
        let active = self.owner_count(&old_row.operator_id) > 0;
        proof {
            crate::relation::lemma_any_counted(
                self@.operators,
                active_operator(old_row@.operator_id),
            );
            crate::relation::lemma_any_counted(self@.operator_sessions, hit);
        }
        let until = deadline(now, ttl_ms);
        if found == 1 && active {
            if until.is_none() {
                return Err(StoreError::Database(DatabaseFault::OutOfRange));
            }
            if self.session_id_taken(session_id) {
                return Err(StoreError::Database(DatabaseFault::DuplicateKey));
            }
        }
        update_rows(
            &mut self.operator_sessions,
            |row: &SessionRow| -> (b: bool)
                ensures b == hit(row@)
                { same(&row.id, old_id) && usable(row, now) },
            |row: &SessionRow| -> (next: SessionRow)
                ensures next@ == session_rotated(now)(row@)
                {
                    let mut next = row.duplicate();
                    next.revoked_at_ms = now;
                    next.last_seen_at_ms = match now {
                        Some(now_ms) => now_ms,
                        None => row.last_seen_at_ms,
                    };
                    next
                },
            Ghost(hit),
            Ghost(session_rotated(now)),
        );
        if found != 1 {
            self.revoke_session_family(&old_row.family_id, now);
            return Ok(false);
        }
        match (now, until) {
            (Some(now_ms), Some(expires_at_ms)) => {
                if !active {
                    return Ok(false);
                }
                push_row(
                    &mut self.operator_sessions,
                    SessionRow {
                        id: session_id.to_owned(),
                        operator_id: old_row.operator_id.clone(),
                        refresh_hash: refresh_hash.to_owned(),
                        csrf_secret: old_row.csrf_secret.clone(),
                        kind: "browser".to_owned(),
                        created_at_ms: now_ms,
                        expires_at_ms,
                        rotated_from: Some(old_row.id.clone()),
                        family_id: old_row.family_id.clone(),
                        last_seen_at_ms: now_ms,
                        revoked_at_ms: None,
                    },
                );
                Ok(true)
            },
            _ => Ok(false),
        }
    }

    /// Rotate a browser session to a new refresh hash, with the identifier of
    /// the new session given.
    pub fn rotate_browser_session_to(
        &mut self,
        reading: &ClockReading,
        follow_up: &ClockReading,
        session_id: &str,
        old_refresh_hash: &str,
        new_refresh_hash: &str,
        ttl_seconds: u64,
    ) -> (reply: Result<Option<LocalSession>, StoreError>)
        ensures
            (final(self)@, answer_option(reply)) == old(self)@.rotate_browser_session_to(
                reading@,
                follow_up@,
                session_id@,
                old_refresh_hash@,
                new_refresh_hash@,
                ttl_seconds,
            ),
    {
        if let Err(error) = self.checkpoint_clock(reading) {
            return Err(error);
        }
        if new_refresh_hash.is_empty() {
            return Err(StoreError::InvalidInput("refresh hash"));
        }
        let ttl_ms: i64 = match positive_milliseconds(ttl_seconds, "refresh TTL") {
            Ok(ttl_ms) => ttl_ms,
            Err(error) => {
                return Err(error);
            },
        };
        let found = find_row(
            &self.operator_sessions,
            |row: &SessionRow| -> (b: bool)
                ensures b == refreshed_by(old_refresh_hash@)(row@)
                { same(&row.refresh_hash, old_refresh_hash) && same(&row.kind, "browser") },
            Ghost(refreshed_by(old_refresh_hash@)),
        );
        let old_row = match found {
            Some(at) => self.operator_sessions[at].duplicate(),
            None => {
                return Ok(None);
            },
        };
        let now = self.now(reading.now_ms);
        let later = self.now(reading.later_ms);
        if now.is_none() {
            return Err(StoreError::Database(DatabaseFault::ClockBehind));
        }
        if old_row.revoked_at_ms.is_some() {
            self.revoke_session_family(&old_row.family_id, later);
            return Ok(None);
        }
        if !is_unexpired(old_row.expires_at_ms, now) || !fresh_enough(&old_row, now) {
            return Ok(None);
        }
        match self.replace_session(&old_row, session_id, new_refresh_hash, ttl_ms, later) {
            Err(error) => Err(error),
            Ok(replaced) => if replaced {
                self.browser_session_by_id(follow_up, session_id)
            } else {
                Ok(None)
            },
        }
    }

    /// Rotate a browser session to a new refresh hash. A refresh hash that was
    /// rotated away before is a replay, and revokes its whole family.
    pub fn rotate_browser_session(
        &mut self,
        reading: &ClockReading,
        follow_up: &ClockReading,
        old_refresh_hash: &str,
        new_refresh_hash: &str,
        ttl_seconds: u64,
    ) -> (reply: Result<Option<LocalSession>, StoreError>)
        ensures
            exists|session_id: Seq<char>| #[trigger] is_uuid(session_id) && (
                final(self)@,
                answer_option(reply),
            ) == old(self)@.rotate_browser_session_to(
                reading@,
                follow_up@,
                session_id,
                old_refresh_hash@,
                new_refresh_hash@,
                ttl_seconds,
            ),
    {
        let session_id = new_uuid();
        self.rotate_browser_session_to(
            reading,
            follow_up,
            &session_id,
            old_refresh_hash,
            new_refresh_hash,
            ttl_seconds,
        )
    }

    /// Record that a usable browser session was used.
    pub fn touch_browser_session(&mut self, reading: &ClockReading, session_id: &str) -> (reply:
        Result<bool, StoreError>)
        ensures
            (final(self)@, reply) == old(self)@.touch_browser_session(reading@, session_id@),
    {
        if let Err(error) = self.checkpoint_clock(reading) {
            return Err(error);
        }
        let now = self.now(reading.now_ms);
        let operators = &self.operators;
        let ghost hit = owned_session(
            rows_view(operators@),
            usable_session(session_id@, now),
            true,
        );
        let changed: usize = update_rows(
            &mut self.operator_sessions,
            |row: &SessionRow| -> (b: bool)
                ensures b == hit(row@)
                {
                    same(&row.id, session_id) && same(&row.kind, "browser") && usable(row, now)
                        && owner_row(operators, row, true).is_some()
                },
            |row: &SessionRow| -> (next: SessionRow)
                ensures next@ == session_seen(now)(row@)
                {
                    let mut next = row.duplicate();
                    next.last_seen_at_ms = match now {
                        Some(now_ms) => now_ms,
                        None => row.last_seen_at_ms,
                    };
                    next
                },
            Ghost(hit),
            Ghost(session_seen(now)),
        );
        Ok(changed == 1)
    }

    /// Revoke a browser session.
    pub fn revoke_browser_session(&mut self, reading: &ClockReading, session_id: &str) -> (reply:
        Result<bool, StoreError>)
        ensures
            (final(self)@, reply) == old(self)@.revoke_browser_session(reading@, session_id@),
    {
        if let Err(error) = self.checkpoint_clock(reading) {
            return Err(error);
        }
        let now = self.now(reading.now_ms);
        let changed: usize = update_rows(
            &mut self.operator_sessions,
            |row: &SessionRow| -> (b: bool)
                ensures b == revocable_session(session_id@, now)(row@)
                {
                    same(&row.id, session_id) && same(&row.kind, "browser")
                        && row.revoked_at_ms.is_none() && now.is_some()
                },
            |row: &SessionRow| -> (next: SessionRow)
                ensures next@ == session_revoked_at(now)(row@)
                { revoke_row(row, now) },
            Ghost(revocable_session(session_id@, now)),
            Ghost(session_revoked_at(now)),
        );
        Ok(changed == 1)
    }
}

} // verus!
