//! What holds of secret requests and exchanges: a secret is handed out once, to
//! the agent that asked for it, before its deadline, and as it was submitted.

use crate::clock::ClockReadingView;
use crate::error::StoreError;
use crate::exchanges::{
    exchange_revoked, exchange_submitted, exchange_with, live_exchange, reserved_by, retrievable,
    revocable,
};
use crate::keys::{exchange_id, request_id};
use crate::limits::{milliseconds, moment_after, unexpired};
use crate::records::EncryptedPayloadView;
use crate::relation::{any, lemma_any_counted, updated, without};
use crate::relation_laws::{
    lemma_filter_members, lemma_first_satisfies, lemma_push_found, lemma_unique_first,
    lemma_unique_hit, lemma_unique_updated, unique,
};
use crate::secrets::{
    live_request, live_request_in, live_request_of, request_submitted, request_taken,
};
use crate::store::StoreView;
use crate::tables::{ExchangeRowView, SecretRequestRowView};
use vstd::prelude::*;

verus! {

/// Whether a read succeeded and found nothing.
pub open spec fn finds_nothing<T>(reply: Result<Option<T>, StoreError>) -> bool {
    reply is Ok && reply->Ok_0 is None
}

/// Whatever is read of a request at a moment, its deadline is ahead of that
/// moment, and it belongs to the tenant.
pub proof fn only_live_requests_are_read(
    state: StoreView,
    c: ClockReadingView,
    id: Seq<char>,
    agent_id: Seq<char>,
)
    requires
        state.checkpoint_clock(c).1 is Ok,
    ensures
        ({
            let now = state.checkpoint_clock(c).0.now(c.now_ms);
            &&& state.secret_request_metadata(c, id).1 matches Ok(Some(metadata)) ==> unexpired(
                metadata.expires_at_ms,
                now,
            )
            &&& now is None ==> finds_nothing(state.secret_request_metadata(c, id).1)
            &&& now is None ==> finds_nothing(state.consume_secret_request(c, id, agent_id).1)
            &&& state.consume_secret_request(c, id, agent_id).1 matches Ok(Some(_)) ==> any(
                state.secret_requests,
                live_request_in(id, state.tenant_id, agent_id, "submitted"@, now),
            )
        }),
{
    let now = state.checkpoint_clock(c).0.now(c.now_ms);
    lemma_first_satisfies(state.secret_requests, live_request(id, state.tenant_id, now));
    lemma_first_satisfies(
        state.secret_requests,
        live_request_in(id, state.tenant_id, agent_id, "submitted"@, now),
    );
    lemma_any_counted(
        state.secret_requests,
        live_request_in(id, state.tenant_id, agent_id, "submitted"@, now),
    );
}

/// A secret is handed out once: whoever asks again, at whatever time, gets
/// nothing, because nothing of the request is left.
pub proof fn a_secret_is_consumed_once(
    state: StoreView,
    c: ClockReadingView,
    id: Seq<char>,
    agent_id: Seq<char>,
    later: ClockReadingView,
    other_agent_id: Seq<char>,
)
    requires
        unique(state.secret_requests, request_id()),
        state.consume_secret_request(c, id, agent_id).1 matches Ok(Some(_)),
        state.consume_secret_request(c, id, agent_id).0.checkpoint_clock(later).1 is Ok,
    ensures
        ({
            let after = state.consume_secret_request(c, id, agent_id).0;
            &&& !any(after.secret_requests, request_taken(id))
            &&& finds_nothing(after.consume_secret_request(later, id, other_agent_id).1)
            &&& finds_nothing(after.secret_request_metadata(later, id).1)
            &&& finds_nothing(after.request_status(later, id, other_agent_id).1)
        }),
{
    let now = state.checkpoint_clock(c).0.now(c.now_ms);
    let rows = state.secret_requests;
    let hit = live_request_in(id, state.tenant_id, agent_id, "submitted"@, now);
    let after = state.consume_secret_request(c, id, agent_id).0;
    lemma_first_satisfies(rows, hit);
    lemma_any_counted(rows, hit);
    let i = lemma_unique_first(rows, request_id(), id, hit);
    lemma_filter_members(rows, |row: SecretRequestRowView| !hit(row));
    let taken = request_taken(id);
    assert forall|j: int| 0 <= j < after.secret_requests.len() implies !taken(
        #[trigger] after.secret_requests[j],
    ) by {
        assert(after.secret_requests.contains(after.secret_requests[j]));
        let k = choose|k: int| 0 <= k < rows.len() && rows[k] == after.secret_requests[j];
        if rows[k].id == id {
            if k < i {
                assert(request_id()(rows[k]) != request_id()(rows[i]));
            } else if i < k {
                assert(request_id()(rows[i]) != request_id()(rows[k]));
            }
        }
    }
    let then = after.checkpoint_clock(later).0.now(later.now_ms);
    let again = live_request_in(id, after.tenant_id, other_agent_id, "submitted"@, then);
    let seen = live_request(id, after.tenant_id, then);
    let seen_of = live_request_of(id, after.tenant_id, other_agent_id, then);
    lemma_any_counted(after.secret_requests, again);
    lemma_any_counted(after.secret_requests, seen);
    lemma_any_counted(after.secret_requests, seen_of);
    assert(!any(after.secret_requests, again)) by {
        if any(after.secret_requests, again) {
            let j = choose|j: int|
                0 <= j < after.secret_requests.len() && again(#[trigger] after.secret_requests[j]);
            assert(taken(after.secret_requests[j]));
        }
    }
    assert(!any(after.secret_requests, seen)) by {
        if any(after.secret_requests, seen) {
            let j = choose|j: int|
                0 <= j < after.secret_requests.len() && seen(#[trigger] after.secret_requests[j]);
            assert(taken(after.secret_requests[j]));
        }
    }
    assert(!any(after.secret_requests, seen_of)) by {
        if any(after.secret_requests, seen_of) {
            let j = choose|j: int|
                0 <= j < after.secret_requests.len() && seen_of(
                    #[trigger] after.secret_requests[j],
                );
            assert(taken(after.secret_requests[j]));
        }
    }
}

/// What was submitted for a request is what its requester gets, while the new
/// deadline is ahead.
pub proof fn a_submitted_secret_is_handed_out_as_it_was(
    state: StoreView,
    c: ClockReadingView,
    id: Seq<char>,
    agent_id: Seq<char>,
    enc: Seq<char>,
    ciphertext: Seq<char>,
    ttl_seconds: u64,
    later: ClockReadingView,
)
    requires
        unique(state.secret_requests, request_id()),
        state.submit_secret_request(c, id, agent_id, enc, ciphertext, ttl_seconds).1 == Ok::<
            _,
            StoreError,
        >(true),
        ({
            let after = state.submit_secret_request(
                c,
                id,
                agent_id,
                enc,
                ciphertext,
                ttl_seconds,
            ).0;
            &&& after.checkpoint_clock(later).1 is Ok
            &&& later.now_ms >= after.checkpoint_clock(later).0.clock.last_observed_ms
            &&& later.now_ms < c.now_ms + ttl_seconds * 1_000
        }),
    ensures
        state.submit_secret_request(
            c,
            id,
            agent_id,
            enc,
            ciphertext,
            ttl_seconds,
        ).0.consume_secret_request(later, id, agent_id).1 == Ok::<_, StoreError>(
            Some(EncryptedPayloadView { enc, ciphertext }),
        ),
{
    let s = state.checkpoint_clock(c).0;
    let now = s.now(c.now_ms);
    let rows = state.secret_requests;
    let ttl_ms = milliseconds(ttl_seconds)->0;
    let hit = live_request_in(id, state.tenant_id, agent_id, "pending"@, now);
    let change = request_submitted(enc, ciphertext, now, ttl_ms);
    let after = state.submit_secret_request(c, id, agent_id, enc, ciphertext, ttl_seconds).0;
    let i = lemma_unique_first(rows, request_id(), id, hit);
    let stuck = |v: SecretRequestRowView| hit(v) && change(v) is None;
    assert(!stuck(rows[i]));
    let f = |v: SecretRequestRowView| change(v)->0;
    assert(after.secret_requests == updated(rows, hit, f));
    lemma_unique_updated(rows, request_id(), hit, f);
    let then = after.checkpoint_clock(later).0.now(later.now_ms);
    let ready = live_request_in(id, after.tenant_id, agent_id, "submitted"@, then);
    assert(moment_after(now, ttl_ms) == Some((c.now_ms + ttl_ms) as i64));
    assert(ready(after.secret_requests[i]));
    lemma_unique_hit(after.secret_requests, request_id(), id, ready, i);
}

/// Nobody but the requester gets a secret, or takes it away.
pub proof fn a_secret_is_kept_from_other_agents(
    state: StoreView,
    c: ClockReadingView,
    id: Seq<char>,
    agent_id: Seq<char>,
    other_agent_id: Seq<char>,
    i: int,
)
    requires
        unique(state.secret_requests, request_id()),
        0 <= i < state.secret_requests.len(),
        state.secret_requests[i].id == id,
        state.secret_requests[i].requester_agent_id == agent_id,
        other_agent_id != agent_id,
        state.checkpoint_clock(c).1 is Ok,
    ensures
        finds_nothing(state.consume_secret_request(c, id, other_agent_id).1),
        state.consume_secret_request(c, id, other_agent_id).0.secret_requests
            == state.secret_requests,
        finds_nothing(state.request_status(c, id, other_agent_id).1),
        state.delete_secret_request(c, id, other_agent_id).0.secret_requests
            == state.secret_requests,
{
    let now = state.checkpoint_clock(c).0.now(c.now_ms);
    let rows = state.secret_requests;
    let hit = live_request_in(id, state.tenant_id, other_agent_id, "submitted"@, now);
    let of = live_request_of(id, state.tenant_id, other_agent_id, now);
    assert forall|j: int| 0 <= j < rows.len() implies !of(#[trigger] rows[j]) by {
        if of(rows[j]) && j < i {
            assert(request_id()(rows[j]) != request_id()(rows[i]));
        } else if of(rows[j]) && i < j {
            assert(request_id()(rows[i]) != request_id()(rows[j]));
        }
    }
    assert(!any(rows, of));
    assert(!any(rows, hit)) by {
        if any(rows, hit) {
            let j = choose|j: int| 0 <= j < rows.len() && hit(#[trigger] rows[j]);
            assert(of(rows[j]));
        }
    }
    lemma_any_counted(rows, hit);
    lemma_any_counted(rows, of);
    lemma_without_none(rows, of);
}

/// Deleting what nobody finds leaves a table as it is.
pub proof fn lemma_without_none<V>(rows: Seq<V>, p: spec_fn(V) -> bool)
    requires
        !any(rows, p),
    ensures
        without(rows, p) == rows,
    decreases rows.len(),
{
    reveal(Seq::filter);
    if rows.len() > 0 {
        let rest = rows.drop_last();
        assert(!any(rest, p)) by {
            if any(rest, p) {
                let i = choose|i: int| 0 <= i < rest.len() && p(#[trigger] rest[i]);
                assert(p(rows[i]));
            }
        }
        lemma_without_none(rest, p);
        assert(!p(rows[rows.len() - 1]));
        assert(rows =~= rest.push(rows.last()));
    }
}

/// A request under a fresh identifier is pending and can be read until its
/// deadline.
pub proof fn a_new_request_can_be_read(
    state: StoreView,
    c: ClockReadingView,
    id: Seq<char>,
    agent_id: Seq<char>,
    public_key: Seq<char>,
    description: Seq<char>,
    confirmation_code: Seq<char>,
    ttl_seconds: u64,
    later: ClockReadingView,
)
    requires
        state.open_secret_request(
            c,
            id,
            agent_id,
            public_key,
            description,
            confirmation_code,
            ttl_seconds,
        ).1 is Ok,
        ({
            let after = state.open_secret_request(
                c,
                id,
                agent_id,
                public_key,
                description,
                confirmation_code,
                ttl_seconds,
            ).0;
            &&& after.checkpoint_clock(later).1 is Ok
            &&& later.now_ms >= after.checkpoint_clock(later).0.clock.last_observed_ms
            &&& later.now_ms < c.now_ms + ttl_seconds * 1_000
        }),
    ensures
        ({
            let (after, created) = state.open_secret_request(
                c,
                id,
                agent_id,
                public_key,
                description,
                confirmation_code,
                ttl_seconds,
            );
            let metadata = after.secret_request_metadata(later, id).1;
            &&& created->Ok_0.id == id
            &&& created->Ok_0.expires_at_ms == c.now_ms + ttl_seconds * 1_000
            &&& metadata matches Ok(Some(found)) && found.requester_agent_id == agent_id
                && found.public_key == public_key && found.description == description
                && found.confirmation_code == confirmation_code && found.expires_at_ms
                == created->Ok_0.expires_at_ms
            &&& after.request_status(later, id, agent_id).1 == Ok::<_, StoreError>(
                Some(crate::records::SecretRequestStatus::Pending),
            )
        }),
{
    let s = state.checkpoint_clock(c).0;
    let after = state.open_secret_request(
        c,
        id,
        agent_id,
        public_key,
        description,
        confirmation_code,
        ttl_seconds,
    ).0;
    let rows = s.secret_requests;
    let row = after.secret_requests.last();
    let then = after.checkpoint_clock(later).0.now(later.now_ms);
    let seen = live_request(id, after.tenant_id, then);
    let of = live_request_of(id, after.tenant_id, agent_id, then);
    assert(after.secret_requests == rows.push(row));
    assert(!any(rows, seen)) by {
        if any(rows, seen) {
            let j = choose|j: int| 0 <= j < rows.len() && seen(#[trigger] rows[j]);
            assert(request_taken(id)(rows[j]));
        }
    }
    assert(!any(rows, of)) by {
        if any(rows, of) {
            let j = choose|j: int| 0 <= j < rows.len() && of(#[trigger] rows[j]);
            assert(request_taken(id)(rows[j]));
        }
    }
    lemma_push_found(rows, row, seen);
    lemma_push_found(rows, row, of);
}

/// The payload of an exchange is handed out once.
pub proof fn an_exchange_is_consumed_once(
    state: StoreView,
    c: ClockReadingView,
    id: Seq<char>,
    requester_id: Seq<char>,
    later: ClockReadingView,
    other_id: Seq<char>,
)
    requires
        unique(state.exchanges, exchange_id()),
        state.consume_exchange(c, id, requester_id).1 matches Ok(Some(_)),
        state.consume_exchange(c, id, requester_id).0.checkpoint_clock(later).1 is Ok,
    ensures
        ({
            let after = state.consume_exchange(c, id, requester_id).0;
            &&& !any(after.exchanges, exchange_with(id))
            &&& finds_nothing(after.consume_exchange(later, id, other_id).1)
            &&& finds_nothing(after.get_exchange(later, id).1)
        }),
{
    let now = state.checkpoint_clock(c).0.now(c.now_ms);
    let rows = state.exchanges;
    let hit = retrievable(id, state.tenant_id, requester_id, now);
    let after = state.consume_exchange(c, id, requester_id).0;
    lemma_any_counted(rows, hit);
    let i = lemma_unique_first(rows, exchange_id(), id, hit);
    lemma_filter_members(rows, |row: ExchangeRowView| !hit(row));
    let taken = exchange_with(id);
    assert forall|j: int| 0 <= j < after.exchanges.len() implies !taken(
        #[trigger] after.exchanges[j],
    ) by {
        assert(after.exchanges.contains(after.exchanges[j]));
        let k = choose|k: int| 0 <= k < rows.len() && rows[k] == after.exchanges[j];
        if taken(rows[k]) {
            if k < i {
                assert(exchange_id()(rows[k]) != exchange_id()(rows[i]));
            } else if i < k {
                assert(exchange_id()(rows[i]) != exchange_id()(rows[k]));
            }
        }
    }
    let then = after.checkpoint_clock(later).0.now(later.now_ms);
    let again = retrievable(id, after.tenant_id, other_id, then);
    let seen = live_exchange(id, after.tenant_id, then);
    lemma_any_counted(after.exchanges, again);
    lemma_any_counted(after.exchanges, seen);
    assert(!any(after.exchanges, again)) by {
        if any(after.exchanges, again) {
            let j = choose|j: int|
                0 <= j < after.exchanges.len() && again(#[trigger] after.exchanges[j]);
            assert(taken(after.exchanges[j]));
        }
    }
    assert(!any(after.exchanges, seen)) by {
        if any(after.exchanges, seen) {
            let j = choose|j: int|
                0 <= j < after.exchanges.len() && seen(#[trigger] after.exchanges[j]);
            assert(taken(after.exchanges[j]));
        }
    }
}

/// What a fulfiller submitted for an exchange is what its requester gets, while
/// the new deadline is ahead.
pub proof fn a_submitted_exchange_is_handed_out_as_it_was(
    state: StoreView,
    c: ClockReadingView,
    follow_up: ClockReadingView,
    id: Seq<char>,
    fulfiller_id: Seq<char>,
    enc: Seq<char>,
    ciphertext: Seq<char>,
    ttl_seconds: u64,
    requester_id: Seq<char>,
    later: ClockReadingView,
    i: int,
)
    requires
        unique(state.exchanges, exchange_id()),
        0 <= i < state.exchanges.len(),
        state.exchanges[i].record.exchange_id == id,
        state.exchanges[i].record.requester_id == requester_id,
        state.exchanges[i].policy_readable,
        state.submit_exchange(
            c,
            follow_up,
            id,
            fulfiller_id,
            enc,
            ciphertext,
            ttl_seconds,
        ).1 matches Ok(Some(_)),
        ({
            let after = state.submit_exchange(
                c,
                follow_up,
                id,
                fulfiller_id,
                enc,
                ciphertext,
                ttl_seconds,
            ).0;
            &&& after.checkpoint_clock(later).1 is Ok
            &&& later.now_ms >= after.checkpoint_clock(later).0.clock.last_observed_ms
            &&& later.now_ms < c.now_ms + ttl_seconds * 1_000
        }),
    ensures
        state.submit_exchange(
            c,
            follow_up,
            id,
            fulfiller_id,
            enc,
            ciphertext,
            ttl_seconds,
        ).0.consume_exchange(later, id, requester_id).1 matches Ok(Some(record)) && record.enc
            == Some(enc) && record.ciphertext == Some(ciphertext) && record.fulfilled_by == Some(
            fulfiller_id,
        ),
{
    let s = state.checkpoint_clock(c).0;
    let now = s.now(c.now_ms);
    let rows = state.exchanges;
    let ttl_ms = milliseconds(ttl_seconds)->0;
    let hit = reserved_by(id, state.tenant_id, fulfiller_id, now);
    let change = exchange_submitted(enc, ciphertext, moment_after(now, ttl_ms));
    let after = state.submit_exchange(
        c,
        follow_up,
        id,
        fulfiller_id,
        enc,
        ciphertext,
        ttl_seconds,
    ).0;
    let k = lemma_unique_first(rows, exchange_id(), id, hit);
    if k < i {
        assert(exchange_id()(rows[k]) != exchange_id()(rows[i]));
    } else if i < k {
        assert(exchange_id()(rows[i]) != exchange_id()(rows[k]));
    }
    let stuck = |v: ExchangeRowView| hit(v) && change(v) is None;
    assert(!stuck(rows[i]));
    let f = |v: ExchangeRowView| change(v)->0;
    assert(after.exchanges == updated(rows, hit, f));
    lemma_unique_updated(rows, exchange_id(), hit, f);
    let then = after.checkpoint_clock(later).0.now(later.now_ms);
    let ready = retrievable(id, after.tenant_id, requester_id, then);
    assert(moment_after(now, ttl_ms) == Some((c.now_ms + ttl_ms) as i64));
    assert(ready(after.exchanges[i]));
    lemma_unique_hit(after.exchanges, exchange_id(), id, ready, i);
}

/// Once an exchange is revoked, its payload is gone: nobody is handed one.
pub proof fn a_revoked_exchange_has_no_payload(
    state: StoreView,
    c: ClockReadingView,
    follow_up: ClockReadingView,
    id: Seq<char>,
    by: Option<Seq<char>>,
    ttl_seconds: u64,
    later: ClockReadingView,
    requester_id: Seq<char>,
)
    requires
        unique(state.exchanges, exchange_id()),
        state.revoke_exchange(c, follow_up, id, by, ttl_seconds).1 matches Ok(Some(_)),
        state.revoke_exchange(c, follow_up, id, by, ttl_seconds).0.checkpoint_clock(later).1 is Ok,
    ensures
        state.revoke_exchange(c, follow_up, id, by, ttl_seconds).1 matches Ok(Some(record))
            && record.status == "revoked"@ && record.enc is None && record.ciphertext is None,
        finds_nothing(state.revoke_exchange(c, follow_up, id, by, ttl_seconds).0.consume_exchange(
            later,
            id,
            requester_id,
        ).1),
{
    reveal_strlit("revoked");
    reveal_strlit("submitted");
    let s = state.checkpoint_clock(c).0;
    let now = s.now(c.now_ms);
    let rows = state.exchanges;
    let ttl_ms = milliseconds(ttl_seconds)->0;
    let hit = revocable(id, state.tenant_id, by, now);
    let change = exchange_revoked(moment_after(now, ttl_ms));
    let after = state.revoke_exchange(c, follow_up, id, by, ttl_seconds).0;
    let i = lemma_unique_first(rows, exchange_id(), id, hit);
    let stuck = |v: ExchangeRowView| hit(v) && change(v) is None;
    assert(!stuck(rows[i]));
    let f = |v: ExchangeRowView| change(v)->0;
    let changed = updated(rows, hit, f);
    assert(after.exchanges == changed);
    assert forall|k: int| 0 <= k < rows.len() && hit(#[trigger] rows[k]) implies exchange_id()(
        f(rows[k]),
    ) == exchange_id()(rows[k]) by {
        assert(!stuck(rows[k]));
    }
    lemma_unique_updated(rows, exchange_id(), hit, f);
    let revoked = changed[i];
    assert(revoked.record.status == "revoked"@);
    let read = StoreView { exchanges: changed, ..s };
    let seen = live_exchange(
        id,
        state.tenant_id,
        read.checkpoint_clock(follow_up).0.now(follow_up.now_ms),
    );
    lemma_first_satisfies(changed, seen);
    lemma_any_counted(changed, seen);
    let j = lemma_unique_first(changed, exchange_id(), id, seen);
    if i < j {
        assert(exchange_id()(changed[i]) != exchange_id()(changed[j]));
    } else if j < i {
        assert(exchange_id()(changed[j]) != exchange_id()(changed[i]));
    }
    let then = after.checkpoint_clock(later).0.now(later.now_ms);
    let ready = retrievable(id, after.tenant_id, requester_id, then);
    assert("revoked"@ != "submitted"@) by {
        assert("revoked"@.len() != "submitted"@.len());
    }
    assert(!any(changed, ready)) by {
        if any(changed, ready) {
            let k = choose|k: int| 0 <= k < changed.len() && ready(#[trigger] changed[k]);
            if i < k {
                assert(exchange_id()(changed[i]) != exchange_id()(changed[k]));
            } else if k < i {
                assert(exchange_id()(changed[k]) != exchange_id()(changed[i]));
            }
        }
    }
    lemma_any_counted(changed, ready);
}

} // verus!
