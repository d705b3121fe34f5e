//! What each step of an exchange does to it, by what the exchange says.

use crate::clock::ClockReadingView;
use crate::error::{DatabaseFault, StoreError};
use crate::exchanges::{
    exchange_with, live_exchange, reservable, reserved_by, retrievable, revocable,
};
use crate::keys::exchange_id;
use crate::moment_laws::{
    runs, runs_twice, the_checkpoint_passes_exactly_for_a_trusted_reading, timed,
};
use crate::records::ExchangeRecordView;
use crate::relation_laws::{
    lemma_none, lemma_push_found, lemma_sole, lemma_unique_replaced, unique,
};
use crate::store::StoreView;
use crate::tables::ExchangeRowView;
use crate::text::byte_count;
use vstd::prelude::*;

verus! {

/// What a read of a stored exchange answers: the record where its policy was readable.
pub open spec fn as_read(row: ExchangeRowView) -> Result<Option<ExchangeRecordView>, StoreError> {
    if row.policy_readable {
        Ok(Some(row.record))
    } else {
        Err(StoreError::MissingState("exchange policy"))
    }
}

/// An exchange is read by its tenant, as it is stored, until its deadline.
pub proof fn an_exchange_is_read_until_its_deadline(
    state: StoreView,
    c: ClockReadingView,
    id: Seq<char>,
    i: int,
)
    requires
        unique(state.exchanges, exchange_id()),
        runs(state, c),
        0 <= i < state.exchanges.len(),
        state.exchanges[i].record.exchange_id == id,
    ensures
        state.get_exchange(c, id) == (
            state.checkpoint_clock(c).0,
            if state.exchanges[i].record.workspace_id == state.tenant_id
                && state.exchanges[i].record.expires_at_ms > c.now_ms {
                as_read(state.exchanges[i])
            } else {
                Ok(None)
            },
        ),
{
    the_checkpoint_passes_exactly_for_a_trusted_reading(state, c);
    lemma_sole(
        state.exchanges,
        exchange_id(),
        live_exchange(id, state.tenant_id, Some(c.now_ms)),
        i,
    );
}

/// Under an identifier that no exchange has, nothing is read, reserved, submitted,
/// consumed or revoked.
pub proof fn an_absent_exchange_is_out_of_reach(
    state: StoreView,
    c: ClockReadingView,
    follow_up: ClockReadingView,
    id: Seq<char>,
    actor: Seq<char>,
    anybody: Option<Seq<char>>,
    enc: Seq<char>,
    ciphertext: Seq<char>,
    ttl_seconds: u64,
)
    requires
        runs(state, c),
        forall|i: int|
            0 <= i < state.exchanges.len() ==> (#[trigger] state.exchanges[i]).record.exchange_id
                != id,
        enc.len() > 0,
        ciphertext.len() > 0,
        0 < ttl_seconds * 1_000 <= i64::MAX,
    ensures
        ({
            let nothing = (
                state.checkpoint_clock(c).0,
                Ok::<Option<ExchangeRecordView>, StoreError>(None),
            );
            &&& state.get_exchange(c, id) == nothing
            &&& state.reserve_exchange(c, follow_up, id, actor) == nothing
            &&& state.submit_exchange(c, follow_up, id, actor, enc, ciphertext, ttl_seconds)
                == nothing
            &&& state.consume_exchange(c, id, actor) == nothing
            &&& state.revoke_exchange(c, follow_up, id, anybody, ttl_seconds) == nothing
        }),
{
    the_checkpoint_passes_exactly_for_a_trusted_reading(state, c);
    let rows = state.exchanges;
    let t = state.tenant_id;
    let now = Some(c.now_ms);
    lemma_none(rows, live_exchange(id, t, now));
    lemma_none(rows, reservable(id, t, actor, now));
    lemma_none(rows, reserved_by(id, t, actor, now));
    lemma_none(rows, retrievable(id, t, actor, now));
    lemma_none(rows, revocable(id, t, anybody, now));
}

/// A new exchange is stored for the tenant as it was described: pending, without a
/// fulfiller or a payload, from now until its time to live is over. It is answered as
/// it was stored, while it lives.
pub proof fn a_new_exchange_is_pending(
    state: StoreView,
    c: ClockReadingView,
    follow_up: ClockReadingView,
    exchange: ExchangeRecordView,
    ttl_seconds: u64,
)
    requires
        runs_twice(state, c, follow_up),
    ensures
        ({
            let (after, reply) = state.create_exchange(c, follow_up, exchange, ttl_seconds);
            let deadline = c.now_ms + ttl_seconds * 1_000;
            let taken = exists|i: int|
                0 <= i < state.exchanges.len() && (#[trigger] state.exchanges[i]).record.exchange_id
                    == exchange.exchange_id;
            let record = ExchangeRecordView {
                workspace_id: state.tenant_id,
                fulfilled_by: None,
                status: "pending"@,
                created_at_ms: c.now_ms,
                expires_at_ms: deadline as i64,
                enc: None,
                ciphertext: None,
                ..exchange
            };
            if byte_count(exchange.exchange_id) != 64 || exchange.secret_name.len() == 0 {
                after.exchanges == state.exchanges
                    && reply == Err::<ExchangeRecordView, StoreError>(
                    StoreError::InvalidInput("exchange"),
                )
            } else if ttl_seconds == 0 || ttl_seconds * 1_000 > i64::MAX {
                after.exchanges == state.exchanges
                    && reply == Err::<ExchangeRecordView, StoreError>(
                    StoreError::InvalidInput("exchange TTL"),
                )
            } else if deadline > i64::MAX || taken {
                after.exchanges == state.exchanges && reply is Err
            } else {
                &&& after.exchanges == state.exchanges.push(
                    ExchangeRowView { policy_readable: true, record },
                )
                &&& reply == if deadline > follow_up.now_ms {
                    Ok::<ExchangeRecordView, StoreError>(record)
                } else {
                    Err(StoreError::MissingState("created exchange"))
                }
            }
        }),
{
    the_checkpoint_passes_exactly_for_a_trusted_reading(state, c);
    let s = state.checkpoint_clock(c).0;
    let id = exchange.exchange_id;
    let rows = state.exchanges;
    assert(crate::relation::any(rows, exchange_with(id)) <==> exists|i: int|
        0 <= i < rows.len() && (#[trigger] rows[i]).record.exchange_id == id) by {
        if exists|i: int| 0 <= i < rows.len() && (#[trigger] rows[i]).record.exchange_id == id {
            let i = choose|i: int|
                0 <= i < rows.len() && (#[trigger] rows[i]).record.exchange_id == id;
            assert(exchange_with(id)(rows[i]));
        }
    }
    if s.insert_exchange(exchange, ttl_seconds, Some(c.now_ms)) is Ok {
        let inserted = s.insert_exchange(exchange, ttl_seconds, Some(c.now_ms))->Ok_0;
        the_checkpoint_passes_exactly_for_a_trusted_reading(s, follow_up);
        the_checkpoint_passes_exactly_for_a_trusted_reading(inserted, follow_up);
        let live = live_exchange(id, state.tenant_id, Some(follow_up.now_ms));
        assert forall|j: int| 0 <= j < rows.len() implies !live(#[trigger] rows[j]) by {
            assert(!exchange_with(id)(rows[j]));
        }
        lemma_none(rows, live);
        lemma_push_found(rows, inserted.exchanges.last(), live);
        if !live(inserted.exchanges.last()) {
            assert(inserted.exchanges.filter(live) == rows.filter(live));
        }
    }
}

/// A pending exchange is reserved by the fulfiller that it allows, and by nobody else.
/// It is then theirs.
pub proof fn only_the_allowed_fulfiller_reserves(
    state: StoreView,
    c: ClockReadingView,
    follow_up: ClockReadingView,
    id: Seq<char>,
    fulfiller: Seq<char>,
    i: int,
)
    requires
        unique(state.exchanges, exchange_id()),
        runs_twice(state, c, follow_up),
        0 <= i < state.exchanges.len(),
        state.exchanges[i].record.exchange_id == id,
    ensures
        ({
            let (after, reply) = state.reserve_exchange(c, follow_up, id, fulfiller);
            let row = state.exchanges[i];
            let next = ExchangeRowView {
                record: ExchangeRecordView {
                    status: "reserved"@,
                    fulfilled_by: Some(fulfiller),
                    ..row.record
                },
                ..row
            };
            if row.record.workspace_id == state.tenant_id && row.record.expires_at_ms > c.now_ms
                && row.record.status == "pending"@ && row.record.allowed_fulfiller_id == Some(
                fulfiller,
            ) {
                &&& after.exchanges == state.exchanges.update(i, next)
                &&& reply == if row.record.expires_at_ms > follow_up.now_ms {
                    as_read(next)
                } else {
                    Ok(None)
                }
            } else {
                after.exchanges == state.exchanges && reply == Ok::<
                    Option<ExchangeRecordView>,
                    StoreError,
                >(None)
            }
        }),
{
    the_checkpoint_passes_exactly_for_a_trusted_reading(state, c);
    let s = state.checkpoint_clock(c).0;
    the_checkpoint_passes_exactly_for_a_trusted_reading(s, follow_up);
    let hit = reservable(id, state.tenant_id, fulfiller, Some(c.now_ms));
    lemma_sole(state.exchanges, exchange_id(), hit, i);
    if hit(state.exchanges[i]) {
        let next = crate::exchanges::exchange_reserved(fulfiller)(state.exchanges[i]);
        let mid = StoreView { exchanges: state.exchanges.update(i, next), ..s };
        the_checkpoint_passes_exactly_for_a_trusted_reading(mid, follow_up);
        lemma_unique_replaced(state.exchanges, exchange_id(), i, next);
        lemma_sole(
            mid.exchanges,
            exchange_id(),
            live_exchange(id, state.tenant_id, Some(follow_up.now_ms)),
            i,
        );
    }
}

/// A payload is taken for a reserved exchange from the one who reserved it, and from
/// nobody else. The exchange then holds that payload, and lives on from now for the
/// time to live of a submission.
pub proof fn only_the_one_who_reserved_submits(
    state: StoreView,
    c: ClockReadingView,
    follow_up: ClockReadingView,
    id: Seq<char>,
    fulfiller: Seq<char>,
    enc: Seq<char>,
    ciphertext: Seq<char>,
    ttl_seconds: u64,
    i: int,
)
    requires
        unique(state.exchanges, exchange_id()),
        runs_twice(state, c, follow_up),
        0 <= i < state.exchanges.len(),
        state.exchanges[i].record.exchange_id == id,
    ensures
        ({
            let (after, reply) = state.submit_exchange(
                c,
                follow_up,
                id,
                fulfiller,
                enc,
                ciphertext,
                ttl_seconds,
            );
            let row = state.exchanges[i];
            let deadline = c.now_ms + ttl_seconds * 1_000;
            let next = ExchangeRowView {
                record: ExchangeRecordView {
                    status: "submitted"@,
                    enc: Some(enc),
                    ciphertext: Some(ciphertext),
                    expires_at_ms: deadline as i64,
                    ..row.record
                },
                ..row
            };
            let allowed = row.record.workspace_id == state.tenant_id && row.record.expires_at_ms
                > c.now_ms && row.record.status == "reserved"@ && row.record.fulfilled_by == Some(
                fulfiller,
            );
            if enc.len() == 0 || ciphertext.len() == 0 {
                after.exchanges == state.exchanges && reply == Err::<
                    Option<ExchangeRecordView>,
                    StoreError,
                >(StoreError::InvalidInput("exchange payload"))
            } else if ttl_seconds == 0 || ttl_seconds * 1_000 > i64::MAX {
                after.exchanges == state.exchanges && reply == Err::<
                    Option<ExchangeRecordView>,
                    StoreError,
                >(StoreError::InvalidInput("submitted exchange TTL"))
            } else if !allowed {
                after.exchanges == state.exchanges && reply == Ok::<
                    Option<ExchangeRecordView>,
                    StoreError,
                >(None)
            } else if deadline > i64::MAX {
                after.exchanges == state.exchanges && reply == Err::<
                    Option<ExchangeRecordView>,
                    StoreError,
                >(StoreError::Database(DatabaseFault::OutOfRange))
            } else {
                &&& after.exchanges == state.exchanges.update(i, next)
                &&& reply == if deadline > follow_up.now_ms {
                    as_read(next)
                } else {
                    Ok(None)
                }
            }
        }),
{
    the_checkpoint_passes_exactly_for_a_trusted_reading(state, c);
    let s = state.checkpoint_clock(c).0;
    the_checkpoint_passes_exactly_for_a_trusted_reading(s, follow_up);
    let hit = reserved_by(id, state.tenant_id, fulfiller, Some(c.now_ms));
    lemma_sole(state.exchanges, exchange_id(), hit, i);
    let deadline = c.now_ms + ttl_seconds * 1_000;
    if hit(state.exchanges[i]) && deadline <= i64::MAX {
        let next = crate::exchanges::exchange_submitted(enc, ciphertext, Some(deadline as i64))(
            state.exchanges[i],
        )->0;
        let mid = StoreView { exchanges: state.exchanges.update(i, next), ..s };
        the_checkpoint_passes_exactly_for_a_trusted_reading(mid, follow_up);
        lemma_unique_replaced(state.exchanges, exchange_id(), i, next);
        lemma_sole(
            mid.exchanges,
            exchange_id(),
            live_exchange(id, state.tenant_id, Some(follow_up.now_ms)),
            i,
        );
    }
}

/// A submitted exchange is handed out to its requester, and to nobody else, and is
/// deleted with that.
pub proof fn only_the_requester_consumes_a_submitted_exchange(
    state: StoreView,
    c: ClockReadingView,
    id: Seq<char>,
    requester: Seq<char>,
    i: int,
)
    requires
        unique(state.exchanges, exchange_id()),
        runs(state, c),
        0 <= i < state.exchanges.len(),
        state.exchanges[i].record.exchange_id == id,
    ensures
        ({
            let (after, reply) = state.consume_exchange(c, id, requester);
            let row = state.exchanges[i];
            if row.record.workspace_id == state.tenant_id && row.record.expires_at_ms > c.now_ms
                && row.record.requester_id == requester && row.record.status == "submitted"@ {
                &&& reply == as_read(row)
                &&& after.exchanges == if row.policy_readable {
                    state.exchanges.remove(i)
                } else {
                    state.exchanges
                }
            } else {
                after.exchanges == state.exchanges && reply == Ok::<
                    Option<ExchangeRecordView>,
                    StoreError,
                >(None)
            }
        }),
{
    the_checkpoint_passes_exactly_for_a_trusted_reading(state, c);
    lemma_sole(
        state.exchanges,
        exchange_id(),
        retrievable(id, state.tenant_id, requester, Some(c.now_ms)),
        i,
    );
}

/// An exchange that is pending, reserved, submitted or revoked is revoked by its
/// requester, or where nobody in particular asks, and by nobody else. It then holds no
/// payload, and is kept from now for the time to live of a revocation, or as long as
/// an earlier revocation said.
pub proof fn a_revocation_takes_the_payload(
    state: StoreView,
    c: ClockReadingView,
    follow_up: ClockReadingView,
    id: Seq<char>,
    requester: Option<Seq<char>>,
    ttl_seconds: u64,
    i: int,
)
    requires
        unique(state.exchanges, exchange_id()),
        runs_twice(state, c, follow_up),
        0 <= i < state.exchanges.len(),
        state.exchanges[i].record.exchange_id == id,
    ensures
        ({
            let (after, reply) = state.revoke_exchange(c, follow_up, id, requester, ttl_seconds);
            let row = state.exchanges[i];
            let until = if row.record.status == "revoked"@ {
                row.record.expires_at_ms as int
            } else {
                c.now_ms + ttl_seconds * 1_000
            };
            let next = ExchangeRowView {
                record: ExchangeRecordView {
                    status: "revoked"@,
                    enc: None,
                    ciphertext: None,
                    expires_at_ms: until as i64,
                    ..row.record
                },
                ..row
            };
            let allowed = row.record.workspace_id == state.tenant_id && row.record.expires_at_ms
                > c.now_ms && (row.record.status == "pending"@ || row.record.status == "reserved"@
                || row.record.status == "submitted"@ || row.record.status == "revoked"@) && (
            requester is None || requester->0 == row.record.requester_id);
            if ttl_seconds == 0 || ttl_seconds * 1_000 > i64::MAX {
                after.exchanges == state.exchanges && reply == Err::<
                    Option<ExchangeRecordView>,
                    StoreError,
                >(StoreError::InvalidInput("revoked exchange TTL"))
            } else if !allowed {
                after.exchanges == state.exchanges && reply == Ok::<
                    Option<ExchangeRecordView>,
                    StoreError,
                >(None)
            } else if until > i64::MAX {
                after.exchanges == state.exchanges && reply == Err::<
                    Option<ExchangeRecordView>,
                    StoreError,
                >(StoreError::Database(DatabaseFault::OutOfRange))
            } else {
                &&& after.exchanges == state.exchanges.update(i, next)
                &&& reply == if until > follow_up.now_ms {
                    as_read(next)
                } else {
                    Ok(None)
                }
            }
        }),
{
    the_checkpoint_passes_exactly_for_a_trusted_reading(state, c);
    let s = state.checkpoint_clock(c).0;
    the_checkpoint_passes_exactly_for_a_trusted_reading(s, follow_up);
    let hit = revocable(id, state.tenant_id, requester, Some(c.now_ms));
    lemma_sole(state.exchanges, exchange_id(), hit, i);
    let row = state.exchanges[i];
    let fresh = crate::limits::moment_after(Some(c.now_ms), (ttl_seconds * 1_000) as i64);
    let next = crate::exchanges::exchange_revoked(fresh)(row);
    if hit(row) && next is Some {
        let mid = StoreView { exchanges: state.exchanges.update(i, next->0), ..s };
        the_checkpoint_passes_exactly_for_a_trusted_reading(mid, follow_up);
        lemma_unique_replaced(state.exchanges, exchange_id(), i, next->0);
        lemma_sole(
            mid.exchanges,
            exchange_id(),
            live_exchange(id, state.tenant_id, Some(follow_up.now_ms)),
            i,
        );
    }
}

/// Once an exchange was revoked, nobody is handed its payload any more: every later
/// attempt to consume it finds nothing.
pub proof fn a_revoked_exchange_is_never_consumed(
    state: StoreView,
    c: ClockReadingView,
    follow_up: ClockReadingView,
    id: Seq<char>,
    requester: Option<Seq<char>>,
    ttl_seconds: u64,
    later: ClockReadingView,
    asker: Seq<char>,
    i: int,
)
    requires
        unique(state.exchanges, exchange_id()),
        runs_twice(state, c, follow_up),
        0 < ttl_seconds * 1_000 <= i64::MAX,
        c.now_ms + ttl_seconds * 1_000 <= i64::MAX,
        0 <= i < state.exchanges.len(),
        state.exchanges[i].record.exchange_id == id,
        state.exchanges[i].record.workspace_id == state.tenant_id,
        state.exchanges[i].record.expires_at_ms > c.now_ms,
        state.exchanges[i].record.status == "pending"@ || state.exchanges[i].record.status
            == "reserved"@ || state.exchanges[i].record.status == "submitted"@
            || state.exchanges[i].record.status == "revoked"@,
        requester is None || requester->0 == state.exchanges[i].record.requester_id,
        runs(state.revoke_exchange(c, follow_up, id, requester, ttl_seconds).0, later),
    ensures
        ({
            let after = state.revoke_exchange(c, follow_up, id, requester, ttl_seconds).0;
            &&& after.exchanges[i].record.status == "revoked"@
            &&& after.exchanges[i].record.enc is None
            &&& after.exchanges[i].record.ciphertext is None
            &&& after.consume_exchange(later, id, asker).1 == Ok::<
                Option<ExchangeRecordView>,
                StoreError,
            >(None)
        }),
{
    a_revocation_takes_the_payload(state, c, follow_up, id, requester, ttl_seconds, i);
    let after = state.revoke_exchange(c, follow_up, id, requester, ttl_seconds).0;
    assert(after.exchanges[i].record.exchange_id == id);
    lemma_unique_replaced(state.exchanges, exchange_id(), i, after.exchanges[i]);
    only_the_requester_consumes_a_submitted_exchange(after, later, id, asker, i);
    reveal_strlit("revoked");
    reveal_strlit("submitted");
    assert("revoked"@.len() == 7 && "submitted"@.len() == 9);
}

/// The steps of an exchange touch no table but that of the exchanges.
pub proof fn exchange_steps_touch_only_exchanges(
    state: StoreView,
    c: ClockReadingView,
    follow_up: ClockReadingView,
    exchange: ExchangeRecordView,
    id: Seq<char>,
    actor: Seq<char>,
    anybody: Option<Seq<char>>,
    enc: Seq<char>,
    ciphertext: Seq<char>,
    ttl_seconds: u64,
)
    requires
        runs_twice(state, c, follow_up),
    ensures
        ({
            let only = |after: StoreView|
                after == (StoreView { exchanges: after.exchanges, ..timed(state, after) });
            &&& only(state.create_exchange(c, follow_up, exchange, ttl_seconds).0)
            &&& only(state.reserve_exchange(c, follow_up, id, actor).0)
            &&& only(
                state.submit_exchange(c, follow_up, id, actor, enc, ciphertext, ttl_seconds).0,
            )
            &&& only(state.consume_exchange(c, id, actor).0)
            &&& only(state.revoke_exchange(c, follow_up, id, anybody, ttl_seconds).0)
        }),
{
}

} // verus!
