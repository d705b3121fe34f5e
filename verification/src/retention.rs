//! What is swept away after its time, and how often something may happen within
//! a window.

use crate::clock::{ClockReading, ClockReadingView};
use crate::error::{DatabaseFault, StoreError};
use crate::limits::{exact_sum, milliseconds, positive_milliseconds};
use crate::records::RateLimitResult;
use crate::relation::{
    attempt_rows, attempted, count, find_row, first, option_view, push_row, remove_rows, without,
    Duplicate,
};
use crate::store::{Store, StoreView};
use crate::tables::{
    ApprovalRow, ApprovalRowView, AuditRow, AuditRowView, ExchangeRow, ExchangeRowView,
    IdempotencyRow, IdempotencyRowView, RateWindowRow, RateWindowRowView, SecretRequestRow,
    SecretRequestRowView,
};
use crate::text::same;
use vstd::prelude::*;

verus! {

/// The milliseconds of a day.
pub const DAY_MS: i64 = 86_400_000;

/// Whether a deadline lies at least a grace back. Nothing does while the time
/// cannot be told.
pub open spec fn overdue(expires_at_ms: i64, grace_ms: i64, now: Option<i64>) -> bool {
    match now {
        Some(now_ms) => expires_at_ms + grace_ms <= now_ms,
        None => false,
    }
}

/// The requests that are swept away.
pub open spec fn overdue_request(grace_ms: i64, now: Option<i64>) -> spec_fn(
    SecretRequestRowView,
) -> bool {
    |row: SecretRequestRowView| overdue(row.expires_at_ms, grace_ms, now)
}

/// The exchanges that are swept away.
pub open spec fn overdue_exchange(grace_ms: i64, now: Option<i64>) -> spec_fn(
    ExchangeRowView,
) -> bool {
    |row: ExchangeRowView| overdue(row.record.expires_at_ms, grace_ms, now)
}

/// The approvals that are swept away.
pub open spec fn overdue_approval(grace_ms: i64, now: Option<i64>) -> spec_fn(
    ApprovalRowView,
) -> bool {
    |row: ApprovalRowView| overdue(row.expires_at_ms, grace_ms, now)
}

/// The rate windows that are over.
pub open spec fn closed_window(now: Option<i64>) -> spec_fn(RateWindowRowView) -> bool {
    |row: RateWindowRowView| overdue(row.expires_at_ms, 0, now)
}

/// The idempotency keys that lapsed.
pub open spec fn lapsed_key(now: Option<i64>) -> spec_fn(IdempotencyRowView) -> bool {
    |row: IdempotencyRowView| overdue(row.expires_at_ms, 0, now)
}

/// The audit events of a tenant that are older than their retention.
pub open spec fn old_event(tenant_id: Seq<char>, retention_ms: int, now: Option<i64>) -> spec_fn(
    AuditRowView,
) -> bool {
    |row: AuditRowView|
        row.tenant_id == tenant_id && now is Some && row.created_at_ms <= now->0 - retention_ms
}

/// A number of rows, as far as the counter holds it.
pub open spec fn tally(rows: nat) -> u64 {
    if rows > u64::MAX {
        u64::MAX
    } else {
        rows as u64
    }
}

/// The window with a key.
pub open spec fn window_with(key: Seq<char>) -> spec_fn(RateWindowRowView) -> bool {
    |row: RateWindowRowView| row.key == key
}

/// A window that was used once more: a new one where the old one is over.
/// Nothing where its count is exhausted.
pub open spec fn window_used(now_ms: i64, expires_at_ms: i64) -> spec_fn(
    RateWindowRowView,
) -> Option<RateWindowRowView> {
    |row: RateWindowRowView|
        if row.expires_at_ms <= now_ms {
            Some(
                RateWindowRowView { window_start_ms: now_ms, count: 1, expires_at_ms, ..row },
            )
        } else if row.count == i64::MAX {
            None
        } else {
            Some(RateWindowRowView { count: (row.count + 1) as i64, ..row })
        }
}

/// The whole seconds until a moment, at least one.
pub open spec fn retry_seconds(expires_at_ms: i64, now_ms: i64) -> u64 {
    if expires_at_ms - now_ms <= 1_000 {
        1
    } else {
        ((expires_at_ms - now_ms + 999) / 1_000) as u64
    }
}

impl StoreView {
    /// Delete what lapsed: requests, exchanges and approvals after a grace, rate
    /// windows and idempotency keys at once.
    pub open spec fn sweep_expired(self, c: ClockReadingView, grace_seconds: u64) -> (
        StoreView,
        Result<u64, StoreError>,
    ) {
        let (s, gate) = self.checkpoint_clock(c);
        let now = s.now(c.now_ms);
        match (
            gate,
            milliseconds(
                if grace_seconds == 0 {
                    1
                } else {
                    grace_seconds
                },
            ),
        ) {
            (Err(error), _) => (s, Err(error)),
            (Ok(()), None) => (s, Err(StoreError::InvalidInput("sweep grace"))),
            (Ok(()), Some(grace_ms)) => (
                StoreView {
                    secret_requests: without(s.secret_requests, overdue_request(grace_ms, now)),
                    exchanges: without(s.exchanges, overdue_exchange(grace_ms, now)),
                    approvals: without(s.approvals, overdue_approval(grace_ms, now)),
                    rate_windows: without(s.rate_windows, closed_window(now)),
                    idempotency_keys: without(s.idempotency_keys, lapsed_key(now)),
                    ..s
                },
                Ok(
                    tally(
                        count(s.secret_requests, overdue_request(grace_ms, now)) + count(
                            s.exchanges,
                            overdue_exchange(grace_ms, now),
                        ) + count(s.approvals, overdue_approval(grace_ms, now)) + count(
                            s.rate_windows,
                            closed_window(now),
                        ) + count(s.idempotency_keys, lapsed_key(now)),
                    ),
                ),
            ),
        }
    }

    /// Delete the audit events of the tenant that are older than a number of
    /// days.
    pub open spec fn sweep_audit(self, c: ClockReadingView, retention_days: u32) -> (
        StoreView,
        Result<u64, StoreError>,
    ) {
        let (s, gate) = self.checkpoint_clock(c);
        let hit = old_event(s.tenant_id, retention_days * DAY_MS, s.now(c.now_ms));
        match gate {
            Err(error) => (s, Err(error)),
            Ok(()) => if retention_days == 0 {
                (s, Err(StoreError::InvalidInput("audit retention")))
            } else {
                (
                    StoreView { audit_events: without(s.audit_events, hit), ..s },
                    Ok(tally(count(s.audit_events, hit))),
                )
            },
        }
    }

    /// The rate windows after one more use of a key.
    pub open spec fn use_window(self, key: Seq<char>, now_ms: i64, expires_at_ms: i64) -> Option<
        Seq<RateWindowRowView>,
    > {
        if first(self.rate_windows, window_with(key)) is None {
            Some(
                self.rate_windows.push(
                    RateWindowRowView { key, window_start_ms: now_ms, count: 1, expires_at_ms },
                ),
            )
        } else {
            attempted(self.rate_windows, window_with(key), window_used(now_ms, expires_at_ms))
        }
    }

    /// Use the window of a key once more, and tell how often it was used and
    /// when it ends.
    pub open spec fn consume_rate_limit(
        self,
        c: ClockReadingView,
        key: Seq<char>,
        limit: u32,
        window_milliseconds: u64,
    ) -> (StoreView, Result<RateLimitResult, StoreError>) {
        let (s, gate) = self.checkpoint_clock(c);
        match gate {
            Err(error) => (s, Err(error)),
            Ok(()) => if key.len() == 0 || limit == 0 {
                (s, Err(StoreError::InvalidInput("rate limit")))
            } else if window_milliseconds == 0 || window_milliseconds > i64::MAX {
                (s, Err(StoreError::InvalidInput("rate window")))
            } else {
                match s.now(c.now_ms) {
                    None => (s, Err(StoreError::Database(DatabaseFault::ClockBehind))),
                    Some(now_ms) => match exact_sum(now_ms, window_milliseconds as i64) {
                        None => (s, Err(StoreError::Database(DatabaseFault::OutOfRange))),
                        Some(expires_at_ms) => match s.use_window(key, now_ms, expires_at_ms) {
                            None => (s, Err(StoreError::Database(DatabaseFault::OutOfRange))),
                            Some(rate_windows) => {
                                let after = StoreView { rate_windows, ..s };
                                match (
                                    first(rate_windows, window_with(key)),
                                    after.now(c.later_ms),
                                ) {
                                    (None, _) => (
                                        after,
                                        Err(StoreError::Database(DatabaseFault::RowNotFound)),
                                    ),
                                    (Some(_), None) => (
                                        after,
                                        Err(StoreError::Database(DatabaseFault::ClockBehind)),
                                    ),
                                    (Some(row), Some(later_ms)) => (
                                        after,
                                        Ok(
                                            RateLimitResult {
                                                count: row.count,
                                                retry_after_seconds: retry_seconds(
                                                    row.expires_at_ms,
                                                    later_ms,
                                                ),
                                            },
                                        ),
                                    ),
                                }
                            },
                        },
                    },
                }
            },
        }
    }
}

fn is_overdue(expires_at_ms: i64, grace_ms: i64, now: Option<i64>) -> (yes: bool)
    ensures
        yes == overdue(expires_at_ms, grace_ms, now),
{
    match now {
        Some(now_ms) => expires_at_ms as i128 + grace_ms as i128 <= now_ms as i128,
        None => false,
    }
}

fn to_tally(rows: u128) -> (total: u64)
    ensures
        total == tally(rows as nat),
{
    if rows > u64::MAX as u128 {
        u64::MAX
    } else {
        rows as u64
    }
}

fn seconds_until(expires_at_ms: i64, now_ms: i64) -> (seconds: u64)
    ensures
        seconds == retry_seconds(expires_at_ms, now_ms),
{
    let left: i128 = expires_at_ms as i128 - now_ms as i128;
    if left <= 1_000 {
        1
    } else {
        ((left + 999) / 1_000) as u64
    }
}

impl Store {
    /// Delete what lapsed at least a grace ago. What can be read or changed does
    /// not depend on it: every operation looks at the deadlines itself.
    pub fn sweep_expired(&mut self, reading: &ClockReading, retention_grace_seconds: u64) -> (reply:
        Result<u64, StoreError>)
        ensures
            (final(self)@, reply) == old(self)@.sweep_expired(reading@, retention_grace_seconds),
    {
        if let Err(error) = self.checkpoint_clock(reading) {
            return Err(error);
        }
        let grace_seconds: u64 = if retention_grace_seconds == 0 {
            1
        } else {
            retention_grace_seconds
        };
        let grace_ms: i64 = match positive_milliseconds(grace_seconds, "sweep grace") {
            Ok(grace_ms) => grace_ms,
            Err(error) => {
                return Err(error);
            },
        };
        let now = self.now(reading.now_ms);
        let requests: usize = remove_rows(
            &mut self.secret_requests,
            |row: &SecretRequestRow| -> (b: bool)
                ensures b == overdue_request(grace_ms, now)(row@)
                { is_overdue(row.expires_at_ms, grace_ms, now) },
            Ghost(overdue_request(grace_ms, now)),
        );
        let exchanges: usize = remove_rows(
            &mut self.exchanges,
            |row: &ExchangeRow| -> (b: bool)
                ensures b == overdue_exchange(grace_ms, now)(row@)
                { is_overdue(row.record.expires_at_ms, grace_ms, now) },
            Ghost(overdue_exchange(grace_ms, now)),
        );
        let approvals: usize = remove_rows(
            &mut self.approvals,
            |row: &ApprovalRow| -> (b: bool)
                ensures b == overdue_approval(grace_ms, now)(row@)
                { is_overdue(row.expires_at_ms, grace_ms, now) },
            Ghost(overdue_approval(grace_ms, now)),
        );
        let windows: usize = remove_rows(
            &mut self.rate_windows,
            |row: &RateWindowRow| -> (b: bool)
                ensures b == closed_window(now)(row@)
                { is_overdue(row.expires_at_ms, 0, now) },
            Ghost(closed_window(now)),
        );
        let keys: usize = remove_rows(
            &mut self.idempotency_keys,
            |row: &IdempotencyRow| -> (b: bool)
                ensures b == lapsed_key(now)(row@)
                { is_overdue(row.expires_at_ms, 0, now) },
            Ghost(lapsed_key(now)),
        );
        Ok(
            to_tally(
                requests as u128 + exchanges as u128 + approvals as u128 + windows as u128
                    + keys as u128,
            ),
        )
    }

    /// Delete the audit events of the tenant that are older than a number of
    /// days.
    pub fn sweep_audit(&mut self, reading: &ClockReading, retention_days: u32) -> (reply: Result<
        u64,
        StoreError,
    >)
        ensures
            (final(self)@, reply) == old(self)@.sweep_audit(reading@, retention_days),
    {
        if let Err(error) = self.checkpoint_clock(reading) {
            return Err(error);
        }
        if retention_days == 0 {
            return Err(StoreError::InvalidInput("audit retention"));
        }
        let retention_ms: i64 = retention_days as i64 * DAY_MS;
        let now = self.now(reading.now_ms);
        let tenant_id = &self.tenant_id;
        let ghost hit = old_event(tenant_id@, retention_ms as int, now);
        let removed: usize = remove_rows(
            &mut self.audit_events,
            |row: &AuditRow| -> (b: bool)
                ensures b == hit(row@)
                {
                    let old = match now {
                        Some(now_ms) => row.created_at_ms as i128 <= now_ms as i128
                            - retention_ms as i128,
                        None => false,
                    };
                    same(&row.tenant_id, tenant_id) && old
                },
            Ghost(hit),
        );
        Ok(to_tally(removed as u128))
    }

    /// Use the window of a key once more. Returns how often it was used and
    /// after how many seconds it is worth trying again.
    pub fn consume_rate_limit(
        &mut self,
        reading: &ClockReading,
        key: &str,
        limit: u32,
        window_milliseconds: u64,
    ) -> (reply: Result<RateLimitResult, StoreError>)
        ensures
            (final(self)@, reply) == old(self)@.consume_rate_limit(
                reading@,
                key@,
                limit,
                window_milliseconds,
            ),
    {
        if let Err(error) = self.checkpoint_clock(reading) {
            return Err(error);
        }
        if key.is_empty() || limit == 0 {
            return Err(StoreError::InvalidInput("rate limit"));
        }
        if window_milliseconds == 0 || window_milliseconds > i64::MAX as u64 {
            return Err(StoreError::InvalidInput("rate window"));
        }
        let now_ms: i64 = match self.now(reading.now_ms) {
            Some(now_ms) => now_ms,
            None => {
                return Err(StoreError::Database(DatabaseFault::ClockBehind));
            },
        };
        let expires_at_ms: i64 = match now_ms.checked_add(window_milliseconds as i64) {
            Some(at_ms) => at_ms,
            None => {
                return Err(StoreError::Database(DatabaseFault::OutOfRange));
            },
        };
        let known = self.find_window(key);
        if known.is_none() {
            let window = RateWindowRow {
                key: key.to_owned(),
                window_start_ms: now_ms,
                count: 1,
                expires_at_ms,
            };
            push_row(&mut self.rate_windows, window);
        } else {
            let used = attempt_rows(
                &mut self.rate_windows,
                |row: &RateWindowRow| -> (b: bool)
                    ensures b == window_with(key@)(row@)
                    { same(&row.key, key) },
                |row: &RateWindowRow| -> (next: Option<RateWindowRow>)
                    ensures option_view(next) == window_used(now_ms, expires_at_ms)(row@)
                    {
                        let mut next = row.duplicate();
                        if row.expires_at_ms <= now_ms {
                            next.window_start_ms = now_ms;
                            next.count = 1;
                            next.expires_at_ms = expires_at_ms;
                        } else if row.count == i64::MAX {
                            return None;
                        } else {
                            next.count = row.count + 1;
                        }
                        Some(next)
                    },
                Ghost(window_with(key@)),
                Ghost(window_used(now_ms, expires_at_ms)),
            );
            if used.is_none() {
                return Err(StoreError::Database(DatabaseFault::OutOfRange));
            }
        }
        let at: usize = match self.find_window(key) {
            Some(at) => at,
            None => {
                return Err(StoreError::Database(DatabaseFault::RowNotFound));
            },
        };
        match self.now(reading.later_ms) {
            None => Err(StoreError::Database(DatabaseFault::ClockBehind)),
            Some(later_ms) => Ok(
                RateLimitResult {
                    count: self.rate_windows[at].count,
                    retry_after_seconds: seconds_until(
                        self.rate_windows[at].expires_at_ms,
                        later_ms,
                    ),
                },
            ),
        }
    }

    fn find_window(&self, key: &str) -> (found: Option<usize>)
        ensures
            match found {
                Some(at) => {
                    &&& at < self.rate_windows@.len()
                    &&& first(self@.rate_windows, window_with(key@)) == Some(
                        self.rate_windows@[at as int]@,
                    )
                },
                None => first(self@.rate_windows, window_with(key@)) is None,
            },
    {
        find_row(
            &self.rate_windows,
            |row: &RateWindowRow| -> (b: bool)
                ensures b == window_with(key@)(row@)
                { same(&row.key, key) },
            Ghost(window_with(key@)),
        )
    }
}

} // verus!
