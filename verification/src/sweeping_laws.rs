//! What a sweep deletes and what a use of a rate window counts, by what the rows say.

use crate::clock::ClockReadingView;
use crate::error::StoreError;
use crate::keys::window_key;
use crate::moment_laws::{lemma_runs, mark, runs};
use crate::records::RateLimitResult;
use crate::relation_laws::{
    lemma_none, lemma_push_found, lemma_sole, lemma_unique_replaced, unique,
};
use crate::retention::{
    closed_window, lapsed_key, old_event, overdue_approval, overdue_exchange, overdue_request,
    window_with,
};
use crate::store::StoreView;
use crate::tables::{
    ApprovalRowView, AuditRowView, ExchangeRowView, IdempotencyRowView, RateWindowRowView,
    SecretRequestRowView,
};
use vstd::prelude::*;

verus! {

/// A sweep deletes every secret request, exchange and approval whose deadline passed
/// the grace ago, every rate window that is over and every lapsed idempotency key. It
/// keeps the others, in order, and tells how many it deleted. A grace of nothing is one
/// of a second.
pub proof fn a_sweep_deletes_what_is_overdue(state: StoreView, c: ClockReadingView, grace: u64)
    requires
        runs(state, c),
    ensures
        ({
            let s = state.checkpoint_clock(c).0;
            let (after, reply) = state.sweep_expired(c, grace);
            let grace_ms = (if grace == 0 {
                1
            } else {
                grace
            }) * 1_000;
            if grace_ms > i64::MAX {
                after == s
                    && reply == Err::<u64, StoreError>(StoreError::InvalidInput("sweep grace"))
            } else {
                let gone = state.secret_requests.filter(
                    |row: SecretRequestRowView| row.expires_at_ms + grace_ms <= c.now_ms,
                ).len() + state.exchanges.filter(
                    |row: ExchangeRowView| row.record.expires_at_ms + grace_ms <= c.now_ms,
                ).len() + state.approvals.filter(
                    |row: ApprovalRowView| row.expires_at_ms + grace_ms <= c.now_ms,
                ).len() + state.rate_windows.filter(
                    |row: RateWindowRowView| row.expires_at_ms <= c.now_ms,
                ).len() + state.idempotency_keys.filter(
                    |row: IdempotencyRowView| row.expires_at_ms <= c.now_ms,
                ).len();
                &&& after == (StoreView {
                    secret_requests: state.secret_requests.filter(
                        |row: SecretRequestRowView| row.expires_at_ms + grace_ms > c.now_ms,
                    ),
                    exchanges: state.exchanges.filter(
                        |row: ExchangeRowView| row.record.expires_at_ms + grace_ms > c.now_ms,
                    ),
                    approvals: state.approvals.filter(
                        |row: ApprovalRowView| row.expires_at_ms + grace_ms > c.now_ms,
                    ),
                    rate_windows: state.rate_windows.filter(
                        |row: RateWindowRowView| row.expires_at_ms > c.now_ms,
                    ),
                    idempotency_keys: state.idempotency_keys.filter(
                        |row: IdempotencyRowView| row.expires_at_ms > c.now_ms,
                    ),
                    ..s
                })
                &&& reply == Ok::<u64, StoreError>(
                    if gone > u64::MAX {
                        u64::MAX
                    } else {
                        gone as u64
                    },
                )
            }
        }),
{
    lemma_runs(state, c);
    let now = Some(c.now_ms);
    let grace_ms = (if grace == 0 {
        1
    } else {
        grace
    }) * 1_000;
    if grace_ms <= i64::MAX {
        let g = grace_ms as i64;
        let requests = overdue_request(g, now);
        let exchanges = overdue_exchange(g, now);
        let approvals = overdue_approval(g, now);
        let windows = closed_window(now);
        let keys = lapsed_key(now);
        assert(requests =~= (|row: SecretRequestRowView| row.expires_at_ms + grace_ms <= c.now_ms));
        assert(exchanges =~= (|row: ExchangeRowView|
            row.record.expires_at_ms + grace_ms <= c.now_ms));
        assert(approvals =~= (|row: ApprovalRowView| row.expires_at_ms + grace_ms <= c.now_ms));
        assert(windows =~= (|row: RateWindowRowView| row.expires_at_ms <= c.now_ms));
        assert(keys =~= (|row: IdempotencyRowView| row.expires_at_ms <= c.now_ms));
        assert((|row: SecretRequestRowView| !requests(row)) =~= (|row: SecretRequestRowView|
            row.expires_at_ms + grace_ms > c.now_ms));
        assert((|row: ExchangeRowView| !exchanges(row)) =~= (|row: ExchangeRowView|
            row.record.expires_at_ms + grace_ms > c.now_ms));
        assert((|row: ApprovalRowView| !approvals(row)) =~= (|row: ApprovalRowView|
            row.expires_at_ms + grace_ms > c.now_ms));
        assert((|row: RateWindowRowView| !windows(row)) =~= (|row: RateWindowRowView|
            row.expires_at_ms > c.now_ms));
        assert((|row: IdempotencyRowView| !keys(row)) =~= (|row: IdempotencyRowView|
            row.expires_at_ms > c.now_ms));
    }
}

/// A sweep of the audit deletes the events of the tenant that are as old as the
/// retention, in days, and keeps the others, in order. It tells how many it deleted.
pub proof fn an_audit_sweep_deletes_what_is_old(state: StoreView, c: ClockReadingView, days: u32)
    requires
        runs(state, c),
    ensures
        ({
            let s = state.checkpoint_clock(c).0;
            let old = |row: AuditRowView|
                row.tenant_id == state.tenant_id && row.created_at_ms + days * 86_400_000
                    <= c.now_ms;
            let gone = state.audit_events.filter(old).len();
            state.sweep_audit(c, days) == if days == 0 {
                (s, Err::<u64, StoreError>(StoreError::InvalidInput("audit retention")))
            } else {
                (
                    StoreView {
                        audit_events: state.audit_events.filter(|row: AuditRowView| !old(row)),
                        ..s
                    },
                    Ok::<u64, StoreError>(
                        if gone > u64::MAX {
                            u64::MAX
                        } else {
                            gone as u64
                        },
                    ),
                )
            }
        }),
{
    lemma_runs(state, c);
    let old = |row: AuditRowView|
        row.tenant_id == state.tenant_id && row.created_at_ms + days * 86_400_000 <= c.now_ms;
    let hit = old_event(state.tenant_id, days * crate::retention::DAY_MS, Some(c.now_ms));
    assert(hit =~= old);
    assert((|row: AuditRowView| !hit(row)) =~= (|row: AuditRowView| !old(row)));
}

/// Whether a use of a window is told rightly: how often the window was used, and how
/// many seconds are left of it, rounded up, one at least.
pub open spec fn tells_use(told: RateLimitResult, row: RateWindowRowView, at_ms: i64) -> bool {
    let left = row.expires_at_ms - at_ms;
    &&& told.count == row.count
    &&& told.retry_after_seconds >= 1
    &&& told.retry_after_seconds * 1_000 >= left
    &&& told.retry_after_seconds == 1 || (told.retry_after_seconds - 1) * 1_000 < left
}

/// A use of a rate window that is stored counts one more while the window lasts, and
/// starts it anew at one, from now, where it is over. The answer tells the use.
pub proof fn a_window_counts_its_uses_and_starts_anew(
    state: StoreView,
    c: ClockReadingView,
    key: Seq<char>,
    limit: u32,
    window_ms: u64,
    i: int,
)
    requires
        unique(state.rate_windows, window_key()),
        runs(state, c),
        c.later_ms >= mark(state, c),
        key.len() > 0,
        limit > 0,
        0 < window_ms <= i64::MAX,
        c.now_ms + window_ms <= i64::MAX,
        0 <= i < state.rate_windows.len(),
        state.rate_windows[i].key == key,
    ensures
        ({
            let (after, reply) = state.consume_rate_limit(c, key, limit, window_ms);
            let s = state.checkpoint_clock(c).0;
            let row = state.rate_windows[i];
            let next = if row.expires_at_ms <= c.now_ms {
                RateWindowRowView {
                    key,
                    window_start_ms: c.now_ms,
                    count: 1,
                    expires_at_ms: (c.now_ms + window_ms) as i64,
                }
            } else {
                RateWindowRowView { count: (row.count + 1) as i64, ..row }
            };
            if row.expires_at_ms > c.now_ms && row.count == i64::MAX {
                after == s && reply is Err
            } else {
                &&& after == (StoreView {
                    rate_windows: state.rate_windows.update(i, next),
                    ..s
                })
                &&& reply is Ok
                &&& tells_use(reply->Ok_0, next, c.later_ms)
            }
        }),
{
    lemma_runs(state, c);
    crate::moment_laws::the_checkpoint_passes_exactly_for_a_trusted_reading(state, c);
    let rows = state.rate_windows;
    lemma_sole(rows, window_key(), window_with(key), i);
    let change = crate::retention::window_used(c.now_ms, (c.now_ms + window_ms) as i64)(rows[i]);
    if change is Some {
        lemma_unique_replaced(rows, window_key(), i, change->0);
        lemma_sole(rows.update(i, change->0), window_key(), window_with(key), i);
    }
}

/// The first use of a rate window stores it at one, from now. Uses without a key, of no
/// limit or of no window are refused.
pub proof fn a_first_use_starts_the_window(
    state: StoreView,
    c: ClockReadingView,
    key: Seq<char>,
    limit: u32,
    window_ms: u64,
)
    requires
        runs(state, c),
        c.later_ms >= mark(state, c),
        forall|q: int|
            0 <= q < state.rate_windows.len() ==> (#[trigger] state.rate_windows[q]).key != key,
    ensures
        ({
            let (after, reply) = state.consume_rate_limit(c, key, limit, window_ms);
            let s = state.checkpoint_clock(c).0;
            let row = RateWindowRowView {
                key,
                window_start_ms: c.now_ms,
                count: 1,
                expires_at_ms: (c.now_ms + window_ms) as i64,
            };
            if key.len() == 0 || limit == 0 {
                after == s && reply == Err::<RateLimitResult, StoreError>(
                    StoreError::InvalidInput("rate limit"),
                )
            } else if window_ms == 0 || window_ms > i64::MAX {
                after == s && reply == Err::<RateLimitResult, StoreError>(
                    StoreError::InvalidInput("rate window"),
                )
            } else if c.now_ms + window_ms > i64::MAX {
                after == s && reply is Err
            } else {
                &&& after == (StoreView { rate_windows: state.rate_windows.push(row), ..s })
                &&& reply is Ok
                &&& tells_use(reply->Ok_0, row, c.later_ms)
            }
        }),
{
    lemma_runs(state, c);
    crate::moment_laws::the_checkpoint_passes_exactly_for_a_trusted_reading(state, c);
    let rows = state.rate_windows;
    lemma_none(rows, window_with(key));
    let row = RateWindowRowView {
        key,
        window_start_ms: c.now_ms,
        count: 1,
        expires_at_ms: (c.now_ms + window_ms) as i64,
    };
    lemma_push_found(rows, row, window_with(key));
}

} // verus!
