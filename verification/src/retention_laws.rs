//! What holds of sweeping: it bounds how long records are kept and decides
//! nothing else.

use crate::approvals::{
    approval_decided, decidable, idempotency_key, listed_approval, live_approval, pending_of,
    replay_of,
};
use crate::clock::ClockReadingView;
use crate::exchanges::{
    exchange_reserved, exchange_revoked, exchange_submitted, live_exchange, reservable,
    reserved_by, retrievable, revocable,
};
use crate::keys::window_key;
use crate::limits::{exact_sum, milliseconds, moment_after};
use crate::relation::{any, attempted, first, lemma_any_counted, updated, without};
use crate::relation_laws::{
    lemma_filter_members, lemma_push_found, lemma_unique_filter, lemma_unique_hit,
    lemma_unique_updated, lemma_without_keeps, unique,
};
use crate::retention::{
    closed_window, lapsed_key, overdue_approval, overdue_exchange, overdue_request, window_used,
    window_with, DAY_MS,
};
use crate::secrets::{live_request, live_request_in, live_request_of, request_submitted};
use crate::store::StoreView;
use crate::tables::{
    ApprovalRowView, AuditRowView, ExchangeRowView, IdempotencyRowView, RateWindowRowView,
    SecretRequestRowView,
};
use vstd::prelude::*;

verus! {

/// The grace of a sweep in milliseconds: at least a second.
pub open spec fn grace_ms(grace_seconds: u64) -> int {
    if grace_seconds == 0 {
        1_000
    } else {
        grace_seconds * 1_000
    }
}

/// A sweep changes no answer. What can be read, consumed, submitted or deleted
/// afterwards is what could be before, at every moment that is not further back
/// than the grace: a row that a sweep deletes was out of reach already.
pub proof fn sweeping_changes_no_answer(
    state: StoreView,
    c: ClockReadingView,
    grace_seconds: u64,
    later: ClockReadingView,
    id: Seq<char>,
    agent_id: Seq<char>,
)
    requires
        state.sweep_expired(c, grace_seconds).1 is Ok,
        state.checkpoint_clock(c).0.checkpoint_clock(later).1 is Ok,
        later.now_ms + grace_ms(grace_seconds) >= c.now_ms,
    ensures
        ({
            let unswept = state.checkpoint_clock(c).0;
            let swept = state.sweep_expired(c, grace_seconds).0;
            &&& swept.secret_request_metadata(later, id).1 == unswept.secret_request_metadata(
                later,
                id,
            ).1
            &&& swept.browser_request_status(later, id).1 == unswept.browser_request_status(
                later,
                id,
            ).1
            &&& swept.request_status(later, id, agent_id).1 == unswept.request_status(
                later,
                id,
                agent_id,
            ).1
            &&& swept.consume_secret_request(later, id, agent_id).1
                == unswept.consume_secret_request(later, id, agent_id).1
            &&& swept.delete_secret_request(later, id, agent_id).1
                == unswept.delete_secret_request(later, id, agent_id).1
            &&& swept.get_exchange(later, id).1 == unswept.get_exchange(later, id).1
            &&& swept.consume_exchange(later, id, agent_id).1 == unswept.consume_exchange(
                later,
                id,
                agent_id,
            ).1
            &&& swept.get_approval(later, id).1 == unswept.get_approval(later, id).1
        }),
{
    let unswept = state.checkpoint_clock(c).0;
    let now = unswept.now(c.now_ms);
    let grace = milliseconds(
        if grace_seconds == 0 {
            1
        } else {
            grace_seconds
        },
    )->0;
    let t = unswept.tenant_id;
    let then = unswept.checkpoint_clock(later).0.now(later.now_ms);
    let requests = unswept.secret_requests;
    let gone = overdue_request(grace, now);
    lemma_without_keeps(requests, gone, live_request(id, t, then));
    lemma_without_keeps(requests, gone, live_request_of(id, t, agent_id, then));
    lemma_without_keeps(requests, gone, live_request_in(id, t, agent_id, "submitted"@, then));
    let exchanges = unswept.exchanges;
    lemma_without_keeps(exchanges, overdue_exchange(grace, now), live_exchange(id, t, then));
    lemma_without_keeps(
        exchanges,
        overdue_exchange(grace, now),
        retrievable(id, t, agent_id, then),
    );
    lemma_without_keeps(
        unswept.approvals,
        overdue_approval(grace, now),
        live_approval(id, t, then),
    );
}

/// Deleting rows that are neither rewritten nor looked for changes nothing of
/// what is found after the rewriting.
pub proof fn lemma_without_updated<V>(
    rows: Seq<V>,
    gone: spec_fn(V) -> bool,
    p: spec_fn(V) -> bool,
    f: spec_fn(V) -> V,
    q: spec_fn(V) -> bool,
)
    requires
        forall|v: V| #[trigger] p(v) ==> !gone(v),
        forall|v: V| #[trigger] q(v) ==> !gone(v),
    ensures
        updated(without(rows, gone), p, f).filter(q) == updated(rows, p, f).filter(q),
        first(updated(without(rows, gone), p, f), q) == first(updated(rows, p, f), q),
    decreases rows.len(),
{
    reveal(Seq::filter);
    if rows.len() > 0 {
        let rest = rows.drop_last();
        let last = rows.last();
        let kept = without(rest, gone);
        lemma_without_updated(rest, gone, p, f, q);
        assert(updated(rows, p, f).drop_last() =~= updated(rest, p, f));
        if gone(last) {
            assert(without(rows, gone) == kept);
            assert(updated(rows, p, f).last() == last);
        } else {
            assert(without(rows, gone) == kept.push(last));
            let after = updated(kept.push(last), p, f);
            assert(after.drop_last() =~= updated(kept, p, f));
            assert(after.last() == updated(rows, p, f).last());
        }
    }
}

/// A sweep changes no transition either. What is submitted, reserved, revoked,
/// decided, counted or listed as pending afterwards is what would have been
/// before, at every moment that is not further back than the grace.
pub proof fn sweeping_changes_no_transition(
    state: StoreView,
    c: ClockReadingView,
    grace_seconds: u64,
    later: ClockReadingView,
    follow_up: ClockReadingView,
    id: Seq<char>,
    agent_id: Seq<char>,
    requester_id: Option<Seq<char>>,
    enc: Seq<char>,
    ciphertext: Seq<char>,
    ttl_seconds: u64,
    status: Seq<char>,
    cursor: Option<(i64, Seq<char>)>,
    limit: u32,
)
    requires
        state.sweep_expired(c, grace_seconds).1 is Ok,
        state.checkpoint_clock(c).0.checkpoint_clock(later).1 is Ok,
        state.checkpoint_clock(c).0.checkpoint_clock(later).0.checkpoint_clock(follow_up).1 is Ok,
        later.now_ms + grace_ms(grace_seconds) >= c.now_ms,
        follow_up.now_ms + grace_ms(grace_seconds) >= c.now_ms,
    ensures
        ({
            let unswept = state.checkpoint_clock(c).0;
            let swept = state.sweep_expired(c, grace_seconds).0;
            &&& swept.submit_secret_request(later, id, agent_id, enc, ciphertext, ttl_seconds).1
                == unswept.submit_secret_request(
                later,
                id,
                agent_id,
                enc,
                ciphertext,
                ttl_seconds,
            ).1
            &&& swept.reserve_exchange(later, follow_up, id, agent_id).1
                == unswept.reserve_exchange(later, follow_up, id, agent_id).1
            &&& swept.submit_exchange(
                later,
                follow_up,
                id,
                agent_id,
                enc,
                ciphertext,
                ttl_seconds,
            ).1 == unswept.submit_exchange(
                later,
                follow_up,
                id,
                agent_id,
                enc,
                ciphertext,
                ttl_seconds,
            ).1
            &&& swept.revoke_exchange(later, follow_up, id, requester_id, ttl_seconds).1
                == unswept.revoke_exchange(later, follow_up, id, requester_id, ttl_seconds).1
            &&& swept.decide_approval(later, follow_up, id, status, agent_id).1
                == unswept.decide_approval(later, follow_up, id, status, agent_id).1
            &&& swept.count_pending_approvals(later).1 == unswept.count_pending_approvals(later).1
            &&& swept.list_approvals(later, Some("pending"@), cursor, limit).1
                == unswept.list_approvals(later, Some("pending"@), cursor, limit).1
        }),
{
    let unswept = state.checkpoint_clock(c).0;
    let now = unswept.now(c.now_ms);
    let grace = milliseconds(
        if grace_seconds == 0 {
            1
        } else {
            grace_seconds
        },
    )->0;
    let t = unswept.tenant_id;
    let passed = unswept.checkpoint_clock(later).0;
    let then = passed.now(later.now_ms);
    let last = passed.checkpoint_clock(follow_up).0.now(follow_up.now_ms);
    let ttl_ms = milliseconds(ttl_seconds)->0;
    // Requests.
    let requests = unswept.secret_requests;
    let pending = live_request_in(id, t, agent_id, "pending"@, then);
    let submitted = request_submitted(enc, ciphertext, then, ttl_ms);
    lemma_without_keeps(requests, overdue_request(grace, now), pending);
    lemma_without_keeps(
        requests,
        overdue_request(grace, now),
        |v: SecretRequestRowView| pending(v) && submitted(v) is None,
    );
    // Exchanges.
    let exchanges = unswept.exchanges;
    let gone = overdue_exchange(grace, now);
    let found = live_exchange(id, t, last);
    let free = reservable(id, t, agent_id, then);
    lemma_without_keeps(exchanges, gone, free);
    lemma_without_updated(exchanges, gone, free, exchange_reserved(agent_id), found);
    let held = reserved_by(id, t, agent_id, then);
    let filled = exchange_submitted(enc, ciphertext, moment_after(then, ttl_ms));
    lemma_without_keeps(exchanges, gone, held);
    lemma_without_keeps(exchanges, gone, |v: ExchangeRowView| held(v) && filled(v) is None);
    lemma_without_updated(exchanges, gone, held, |v: ExchangeRowView| filled(v)->0, found);
    let open = revocable(id, t, requester_id, then);
    let ended = exchange_revoked(moment_after(then, ttl_ms));
    lemma_without_keeps(exchanges, gone, open);
    lemma_without_keeps(exchanges, gone, |v: ExchangeRowView| open(v) && ended(v) is None);
    lemma_without_updated(exchanges, gone, open, |v: ExchangeRowView| ended(v)->0, found);
    // Approvals.
    let approvals = unswept.approvals;
    let lapsed = overdue_approval(grace, now);
    let undecided = decidable(id, t, then);
    lemma_without_keeps(approvals, lapsed, undecided);
    lemma_without_updated(
        approvals,
        lapsed,
        undecided,
        approval_decided(status, then, agent_id),
        live_approval(id, t, last),
    );
    lemma_without_keeps(approvals, lapsed, pending_of(t, then));
    reveal_strlit("pending");
    lemma_without_keeps(approvals, lapsed, listed_approval(t, "pending"@, cursor, then));
}

/// Using a window changes the one row under its key: what is found there
/// afterwards is what the use made of it.
pub proof fn lemma_window_used(
    rows: Seq<RateWindowRowView>,
    key: Seq<char>,
    now_ms: i64,
    expires_at_ms: i64,
    i: int,
)
    requires
        unique(rows, window_key()),
        0 <= i < rows.len(),
        rows[i].key == key,
    ensures
        ({
            let hit = window_with(key);
            let used = window_used(now_ms, expires_at_ms);
            let after = attempted(rows, hit, used);
            &&& first(rows, hit) is Some
            &&& after is None == used(rows[i]) is None
            &&& after is Some ==> first(after->0, hit) == used(rows[i])
        }),
{
    let hit = window_with(key);
    let used = window_used(now_ms, expires_at_ms);
    let stuck = |v: RateWindowRowView| hit(v) && used(v) is None;
    let f = |v: RateWindowRowView| used(v)->0;
    lemma_unique_hit(rows, window_key(), key, hit, i);
    assert forall|k: int| 0 <= k < rows.len() && hit(#[trigger] rows[k]) implies k == i by {
        assert(window_key()(rows[k]) == window_key()(rows[i]));
    }
    if used(rows[i]) is None {
        assert(stuck(rows[i]));
    } else {
        assert(!any(rows, stuck));
        lemma_unique_updated(rows, window_key(), hit, f);
        let after = updated(rows, hit, f);
        assert(hit(after[i]));
        lemma_unique_hit(after, window_key(), key, hit, i);
    }
}

/// A sweep ends no rate window early and prolongs none: at every moment from the
/// sweep on, a use of a key counts what it would have counted.
pub proof fn sweeping_changes_no_rate(
    state: StoreView,
    c: ClockReadingView,
    grace_seconds: u64,
    later: ClockReadingView,
    key: Seq<char>,
    limit: u32,
    window_milliseconds: u64,
)
    requires
        state.sweep_expired(c, grace_seconds).1 is Ok,
        state.checkpoint_clock(c).0.checkpoint_clock(later).1 is Ok,
        later.now_ms >= c.now_ms,
        unique(state.rate_windows, window_key()),
    ensures
        state.sweep_expired(c, grace_seconds).0.consume_rate_limit(
            later,
            key,
            limit,
            window_milliseconds,
        ).1 == state.checkpoint_clock(c).0.consume_rate_limit(
            later,
            key,
            limit,
            window_milliseconds,
        ).1,
{
    let unswept = state.checkpoint_clock(c).0;
    let rows = unswept.rate_windows;
    let gone = closed_window(unswept.now(c.now_ms));
    let kept = without(rows, gone);
    let hit = window_with(key);
    let now = unswept.checkpoint_clock(later).0.now(later.now_ms);
    lemma_unique_filter(rows, window_key(), |v: RateWindowRowView| !gone(v));
    lemma_filter_members(rows, |v: RateWindowRowView| !gone(v));
    lemma_any_counted(rows, hit);
    lemma_any_counted(kept, hit);
    if now is Some && window_milliseconds <= i64::MAX && exact_sum(
        now->0,
        window_milliseconds as i64,
    ) is Some {
        let now_ms = now->0;
        let until = exact_sum(now_ms, window_milliseconds as i64)->0;
        let fresh = RateWindowRowView {
            key,
            window_start_ms: now_ms,
            count: 1,
            expires_at_ms: until,
        };
        if any(kept, hit) {
            let j = choose|j: int| 0 <= j < kept.len() && hit(#[trigger] kept[j]);
            assert(kept.contains(kept[j]));
            let i = choose|i: int| 0 <= i < rows.len() && rows[i] == kept[j];
            lemma_window_used(kept, key, now_ms, until, j);
            lemma_window_used(rows, key, now_ms, until, i);
        } else if any(rows, hit) {
            let i = choose|i: int| 0 <= i < rows.len() && hit(#[trigger] rows[i]);
            if !gone(rows[i]) {
                assert(rows.contains(rows[i]));
                assert(kept.contains(rows[i]));
                let j = choose|j: int| 0 <= j < kept.len() && kept[j] == rows[i];
                assert(hit(kept[j]));
            }
            lemma_window_used(rows, key, now_ms, until, i);
            lemma_push_found(kept, fresh, hit);
        } else {
            lemma_push_found(kept, fresh, hit);
            lemma_push_found(rows, fresh, hit);
        }
    }
}

/// A sweep changes no decision under an idempotency key: at every moment from the
/// sweep on, the key replays, conflicts or applies as it would have, where the key
/// was not one that the sweep deleted.
pub proof fn sweeping_changes_no_decision(
    state: StoreView,
    c: ClockReadingView,
    grace_seconds: u64,
    later: ClockReadingView,
    reference: Seq<char>,
    status: Seq<char>,
    actor_id: Seq<char>,
    key_hash: Seq<char>,
    digest: Option<Seq<u8>>,
    audit_id: Seq<char>,
)
    requires
        state.sweep_expired(c, grace_seconds).1 is Ok,
        state.checkpoint_clock(c).0.checkpoint_clock(later).1 is Ok,
        later.now_ms >= c.now_ms,
        forall|i: int|
            0 <= i < state.idempotency_keys.len() && idempotency_key(
                state.tenant_id,
                actor_id,
                key_hash,
            )(#[trigger] state.idempotency_keys[i]) ==> state.idempotency_keys[i].expires_at_ms
                > c.now_ms,
    ensures
        state.sweep_expired(c, grace_seconds).0.decide_approval_once(
            later,
            reference,
            status,
            actor_id,
            key_hash,
            digest,
            audit_id,
        ).1 == state.checkpoint_clock(c).0.decide_approval_once(
            later,
            reference,
            status,
            actor_id,
            key_hash,
            digest,
            audit_id,
        ).1,
{
    let unswept = state.checkpoint_clock(c).0;
    let now = unswept.now(c.now_ms);
    let grace = milliseconds(
        if grace_seconds == 0 {
            1
        } else {
            grace_seconds
        },
    )->0;
    let t = unswept.tenant_id;
    let then = unswept.checkpoint_clock(later).0.now(later.now_ms);
    let undecided = decidable(reference, t, then);
    lemma_without_keeps(unswept.approvals, overdue_approval(grace, now), undecided);
    let keys = unswept.idempotency_keys;
    let gone = lapsed_key(now);
    let kept = without(keys, gone);
    lemma_without_keeps(keys, gone, replay_of(t, actor_id, key_hash, then));
    let place = idempotency_key(t, actor_id, key_hash);
    lemma_filter_members(keys, |v: IdempotencyRowView| !gone(v));
    assert(any(kept, place) == any(keys, place)) by {
        if any(keys, place) {
            let i = choose|i: int| 0 <= i < keys.len() && place(#[trigger] keys[i]);
            assert(keys.contains(keys[i]));
            assert(kept.contains(keys[i]));
            let j = choose|j: int| 0 <= j < kept.len() && kept[j] == keys[i];
            assert(place(kept[j]));
        }
        if any(kept, place) {
            let j = choose|j: int| 0 <= j < kept.len() && place(#[trigger] kept[j]);
            assert(kept.contains(kept[j]));
            let i = choose|i: int| 0 <= i < keys.len() && keys[i] == kept[j];
            assert(place(keys[i]));
        }
    }
}

/// A sweep deletes only what lapsed: requests, exchanges and approvals at least a
/// grace ago, rate windows and idempotency keys that ended. It leaves every other
/// table alone: no sweep of ciphertext ever deletes an audit event.
pub proof fn a_sweep_deletes_only_what_lapsed(
    state: StoreView,
    c: ClockReadingView,
    grace_seconds: u64,
)
    requires
        state.sweep_expired(c, grace_seconds).1 is Ok,
    ensures
        ({
            let s = state.checkpoint_clock(c).0;
            let swept = state.sweep_expired(c, grace_seconds).0;
            let grace = grace_ms(grace_seconds);
            &&& forall|row: SecretRequestRowView|
                state.secret_requests.contains(row) && row.expires_at_ms + grace > c.now_ms
                    ==> #[trigger] swept.secret_requests.contains(row)
            &&& forall|row: ExchangeRowView|
                state.exchanges.contains(row) && row.record.expires_at_ms + grace > c.now_ms
                    ==> #[trigger] swept.exchanges.contains(row)
            &&& forall|row: ApprovalRowView|
                state.approvals.contains(row) && row.expires_at_ms + grace > c.now_ms
                    ==> #[trigger] swept.approvals.contains(row)
            &&& forall|row: RateWindowRowView|
                state.rate_windows.contains(row) && row.expires_at_ms > c.now_ms
                    ==> #[trigger] swept.rate_windows.contains(row)
            &&& forall|row: IdempotencyRowView|
                state.idempotency_keys.contains(row) && row.expires_at_ms > c.now_ms
                    ==> #[trigger] swept.idempotency_keys.contains(row)
            &&& swept.audit_events == state.audit_events
            &&& swept == (StoreView {
                secret_requests: swept.secret_requests,
                exchanges: swept.exchanges,
                approvals: swept.approvals,
                rate_windows: swept.rate_windows,
                idempotency_keys: swept.idempotency_keys,
                ..s
            })
        }),
{
    let s = state.checkpoint_clock(c).0;
    let now = s.now(c.now_ms);
    let grace = milliseconds(
        if grace_seconds == 0 {
            1
        } else {
            grace_seconds
        },
    )->0;
    let request = overdue_request(grace, now);
    lemma_filter_members(s.secret_requests, |v: SecretRequestRowView| !request(v));
    let exchange = overdue_exchange(grace, now);
    lemma_filter_members(s.exchanges, |v: ExchangeRowView| !exchange(v));
    let approval = overdue_approval(grace, now);
    lemma_filter_members(s.approvals, |v: ApprovalRowView| !approval(v));
    let window = closed_window(now);
    lemma_filter_members(s.rate_windows, |v: RateWindowRowView| !window(v));
    let key = lapsed_key(now);
    lemma_filter_members(s.idempotency_keys, |v: IdempotencyRowView| !key(v));
}

/// The audit sweep deletes only events of the tenant that are older than the
/// retention, and leaves every other table alone.
pub proof fn an_audit_sweep_keeps_what_is_recent(
    state: StoreView,
    c: ClockReadingView,
    retention_days: u32,
    row: AuditRowView,
)
    requires
        state.sweep_audit(c, retention_days).1 is Ok,
        state.audit_events.contains(row),
        row.tenant_id != state.tenant_id || row.created_at_ms > c.now_ms - retention_days * DAY_MS,
    ensures
        state.sweep_audit(c, retention_days).0.audit_events.contains(row),
        state.sweep_audit(c, retention_days).0 == (StoreView {
            audit_events: state.sweep_audit(c, retention_days).0.audit_events,
            ..state.checkpoint_clock(c).0
        }),
{
    let s = state.checkpoint_clock(c).0;
    let gone = crate::retention::old_event(
        s.tenant_id,
        retention_days * DAY_MS,
        s.now(c.now_ms),
    );
    lemma_filter_members(s.audit_events, |v: AuditRowView| !gone(v));
}

/// Within one window every use counts one more, and the window's end stays; a
/// use after the end starts a new window with the count one.
pub proof fn uses_of_a_window_are_counted(
    state: StoreView,
    c: ClockReadingView,
    key: Seq<char>,
    limit: u32,
    window_milliseconds: u64,
    i: int,
)
    requires
        unique(state.rate_windows, window_key()),
        0 <= i < state.rate_windows.len(),
        state.rate_windows[i].key == key,
        state.consume_rate_limit(c, key, limit, window_milliseconds).1 is Ok,
    ensures
        ({
            let row = state.rate_windows[i];
            let count = state.consume_rate_limit(c, key, limit, window_milliseconds).1->Ok_0.count;
            let after = state.consume_rate_limit(c, key, limit, window_milliseconds).0;
            &&& row.expires_at_ms > c.now_ms ==> count == row.count + 1
                && after.rate_windows[i].expires_at_ms == row.expires_at_ms
            &&& row.expires_at_ms <= c.now_ms ==> count == 1 && after.rate_windows[i].expires_at_ms
                == c.now_ms + window_milliseconds
        }),
{
    let s = state.checkpoint_clock(c).0;
    let rows = s.rate_windows;
    let hit = window_with(key);
    lemma_unique_hit(rows, window_key(), key, hit, i);
    let expires = (c.now_ms + window_milliseconds) as i64;
    let change = window_used(c.now_ms, expires);
    let after = state.consume_rate_limit(c, key, limit, window_milliseconds).0;
    let stuck = |v: RateWindowRowView| hit(v) && change(v) is None;
    assert(!stuck(rows[i]));
    let f = |v: RateWindowRowView| change(v)->0;
    assert(after.rate_windows == updated(rows, hit, f));
    assert forall|k: int| 0 <= k < rows.len() && hit(#[trigger] rows[k]) implies window_key()(
        f(rows[k]),
    ) == window_key()(rows[k]) by {
        assert(!stuck(rows[k]));
    }
    lemma_unique_updated(rows, window_key(), hit, f);
    assert(hit(after.rate_windows[i]));
    lemma_unique_hit(after.rate_windows, window_key(), key, hit, i);
}

/// The first use of a key starts a window with the count one.
pub proof fn the_first_use_starts_a_window(
    state: StoreView,
    c: ClockReadingView,
    key: Seq<char>,
    limit: u32,
    window_milliseconds: u64,
)
    requires
        !any(state.rate_windows, window_with(key)),
        state.consume_rate_limit(c, key, limit, window_milliseconds).1 is Ok,
    ensures
        state.consume_rate_limit(c, key, limit, window_milliseconds).1->Ok_0.count == 1,
{
    let s = state.checkpoint_clock(c).0;
    let rows = s.rate_windows;
    lemma_any_counted(rows, window_with(key));
    let after = state.consume_rate_limit(c, key, limit, window_milliseconds).0;
    lemma_push_found(rows, after.rate_windows.last(), window_with(key));
    assert(after.rate_windows == rows.push(after.rate_windows.last()));
}

} // verus!
