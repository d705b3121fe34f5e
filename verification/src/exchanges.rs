//! Exchanges of secrets between agents.

use crate::clock::{ClockReading, ClockReadingView};
use crate::error::{DatabaseFault, StoreError};
use crate::limits::{
    deadline, is_unexpired, milliseconds, moment_after, positive_milliseconds, unexpired,
};
use crate::records::{ExchangeRecord, ExchangeRecordView};
use crate::relation::{
    answer, answer_option, any, any_row, attempt_rows, attempted, find_row, first, option_view,
    push_row, remove_rows, update_rows, updated, without, Duplicate,
};
use crate::store::{Store, StoreView};
use crate::tables::{ExchangeRow, ExchangeRowView};
use crate::text::{byte_count, byte_len, is_text, optional_str, same};
use vstd::prelude::*;

verus! {

/// The live exchange with an identifier.
pub open spec fn live_exchange(id: Seq<char>, tenant_id: Seq<char>, now: Option<i64>) -> spec_fn(
    ExchangeRowView,
) -> bool {
    |row: ExchangeRowView|
        row.record.exchange_id == id && row.record.workspace_id == tenant_id && unexpired(
            row.record.expires_at_ms,
            now,
        )
}

/// The exchange with an identifier, of any tenant.
pub open spec fn exchange_with(id: Seq<char>) -> spec_fn(ExchangeRowView) -> bool {
    |row: ExchangeRowView| row.record.exchange_id == id
}

/// The live pending exchange that an agent may fulfil.
pub open spec fn reservable(
    id: Seq<char>,
    tenant_id: Seq<char>,
    fulfiller_id: Seq<char>,
    now: Option<i64>,
) -> spec_fn(ExchangeRowView) -> bool {
    |row: ExchangeRowView|
        live_exchange(id, tenant_id, now)(row) && row.record.status == "pending"@
            && row.record.allowed_fulfiller_id == Some(fulfiller_id)
}

/// An exchange that an agent reserved.
pub open spec fn exchange_reserved(fulfiller_id: Seq<char>) -> spec_fn(
    ExchangeRowView,
) -> ExchangeRowView {
    |row: ExchangeRowView|
        ExchangeRowView {
            record: ExchangeRecordView {
                status: "reserved"@,
                fulfilled_by: Some(fulfiller_id),
                ..row.record
            },
            ..row
        }
}

/// The live exchange that an agent reserved.
pub open spec fn reserved_by(
    id: Seq<char>,
    tenant_id: Seq<char>,
    fulfiller_id: Seq<char>,
    now: Option<i64>,
) -> spec_fn(ExchangeRowView) -> bool {
    |row: ExchangeRowView|
        live_exchange(id, tenant_id, now)(row) && row.record.status == "reserved"@
            && row.record.fulfilled_by == Some(fulfiller_id)
}

/// An exchange with its payload and a new deadline, where that fits.
pub open spec fn exchange_submitted(
    enc: Seq<char>,
    ciphertext: Seq<char>,
    expires_at_ms: Option<i64>,
) -> spec_fn(ExchangeRowView) -> Option<ExchangeRowView> {
    |row: ExchangeRowView|
        match expires_at_ms {
            None => None,
            Some(at_ms) => Some(
                ExchangeRowView {
                    record: ExchangeRecordView {
                        status: "submitted"@,
                        enc: Some(enc),
                        ciphertext: Some(ciphertext),
                        expires_at_ms: at_ms,
                        ..row.record
                    },
                    ..row
                },
            ),
        }
}

/// The live exchange whose payload waits for its requester.
pub open spec fn retrievable(
    id: Seq<char>,
    tenant_id: Seq<char>,
    requester_id: Seq<char>,
    now: Option<i64>,
) -> spec_fn(ExchangeRowView) -> bool {
    |row: ExchangeRowView|
        live_exchange(id, tenant_id, now)(row) && row.record.requester_id == requester_id
            && row.record.status == "submitted"@
}

/// The live exchange that can be revoked, by its requester where one is given.
pub open spec fn revocable(
    id: Seq<char>,
    tenant_id: Seq<char>,
    requester_id: Option<Seq<char>>,
    now: Option<i64>,
) -> spec_fn(ExchangeRowView) -> bool {
    |row: ExchangeRowView|
        live_exchange(id, tenant_id, now)(row) && (row.record.status == "pending"@
            || row.record.status == "reserved"@ || row.record.status == "submitted"@
            || row.record.status == "revoked"@) && (requester_id is None || Some(
            row.record.requester_id,
        ) == requester_id)
}

/// An exchange that is revoked and lost its payload. One that was revoked
/// before keeps its deadline.
pub open spec fn exchange_revoked(expires_at_ms: Option<i64>) -> spec_fn(ExchangeRowView) -> Option<
    ExchangeRowView,
> {
    |row: ExchangeRowView|
        {
            let until = if row.record.status == "revoked"@ {
                Some(row.record.expires_at_ms)
            } else {
                expires_at_ms
            };
            match until {
                None => None,
                Some(at_ms) => Some(
                    ExchangeRowView {
                        record: ExchangeRecordView {
                            status: "revoked"@,
                            enc: None,
                            ciphertext: None,
                            expires_at_ms: at_ms,
                            ..row.record
                        },
                        ..row
                    },
                ),
            }
        }
}

/// An exchange as it enters the table.
pub open spec fn fresh_exchange(
    exchange: ExchangeRecordView,
    tenant_id: Seq<char>,
    created_at_ms: i64,
    expires_at_ms: i64,
) -> ExchangeRowView {
    ExchangeRowView {
        policy_readable: true,
        record: ExchangeRecordView {
            workspace_id: tenant_id,
            fulfilled_by: None,
            status: "pending"@,
            created_at_ms,
            expires_at_ms,
            enc: None,
            ciphertext: None,
            ..exchange
        },
    }
}

/// What is read of an exchange row.
pub open spec fn read_exchange(row: Option<ExchangeRowView>) -> Result<
    Option<ExchangeRecordView>,
    StoreError,
> {
    match row {
        None => Ok(None),
        Some(found) => if found.policy_readable {
            Ok(Some(found.record))
        } else {
            Err(StoreError::MissingState("exchange policy"))
        },
    }
}

impl StoreView {
    /// Read a live exchange.
    pub open spec fn get_exchange(self, c: ClockReadingView, id: Seq<char>) -> (
        StoreView,
        Result<Option<ExchangeRecordView>, StoreError>,
    ) {
        let (s, gate) = self.checkpoint_clock(c);
        match gate {
            Err(error) => (s, Err(error)),
            Ok(()) => (
                s,
                read_exchange(
                    first(s.exchanges, live_exchange(id, s.tenant_id, s.now(c.now_ms))),
                ),
            ),
        }
    }

    /// The state with a new exchange.
    pub open spec fn insert_exchange(
        self,
        exchange: ExchangeRecordView,
        ttl_seconds: u64,
        now: Option<i64>,
    ) -> Result<StoreView, StoreError> {
        if byte_count(exchange.exchange_id) != 64 || exchange.secret_name.len() == 0 {
            Err(StoreError::InvalidInput("exchange"))
        } else {
            match (milliseconds(ttl_seconds), now) {
                (None, _) => Err(StoreError::InvalidInput("exchange TTL")),
                (Some(_), None) => Err(StoreError::Database(DatabaseFault::ClockBehind)),
                (Some(ttl_ms), Some(now_ms)) => match moment_after(now, ttl_ms) {
                    None => Err(StoreError::Database(DatabaseFault::OutOfRange)),
                    Some(expires_at_ms) => if any(
                        self.exchanges,
                        exchange_with(exchange.exchange_id),
                    ) {
                        Err(StoreError::Database(DatabaseFault::DuplicateKey))
                    } else {
                        Ok(
                            StoreView {
                                exchanges: self.exchanges.push(
                                    fresh_exchange(
                                        exchange,
                                        self.tenant_id,
                                        now_ms,
                                        expires_at_ms,
                                    ),
                                ),
                                ..self
                            },
                        )
                    },
                },
            }
        }
    }

    /// Create an exchange, then read it back at a reading of its own.
    pub open spec fn create_exchange(
        self,
        c: ClockReadingView,
        follow_up: ClockReadingView,
        exchange: ExchangeRecordView,
        ttl_seconds: u64,
    ) -> (StoreView, Result<ExchangeRecordView, StoreError>) {
        let (s, gate) = self.checkpoint_clock(c);
        match gate {
            Err(error) => (s, Err(error)),
            Ok(()) => match s.insert_exchange(exchange, ttl_seconds, s.now(c.now_ms)) {
                Err(error) => (s, Err(error)),
                Ok(inserted) => {
                    let (after, found) = inserted.get_exchange(follow_up, exchange.exchange_id);
                    (
                        after,
                        match found {
                            Err(error) => Err(error),
                            Ok(None) => Err(StoreError::MissingState("created exchange")),
                            Ok(Some(record)) => Ok(record),
                        },
                    )
                },
            },
        }
    }

    /// Reserve an exchange, then read it back at a reading of its own.
    pub open spec fn reserve_exchange(
        self,
        c: ClockReadingView,
        follow_up: ClockReadingView,
        id: Seq<char>,
        fulfiller_id: Seq<char>,
    ) -> (StoreView, Result<Option<ExchangeRecordView>, StoreError>) {
        let (s, gate) = self.checkpoint_clock(c);
        let hit = reservable(id, s.tenant_id, fulfiller_id, s.now(c.now_ms));
        match gate {
            Err(error) => (s, Err(error)),
            Ok(()) => if !any(s.exchanges, hit) {
                (s, Ok(None))
            } else {
                StoreView {
                    exchanges: updated(s.exchanges, hit, exchange_reserved(fulfiller_id)),
                    ..s
                }.get_exchange(follow_up, id)
            },
        }
    }

    /// Submit the payload of an exchange, then read it back at a reading of its
    /// own.
    pub open spec fn submit_exchange(
        self,
        c: ClockReadingView,
        follow_up: ClockReadingView,
        id: Seq<char>,
        fulfiller_id: Seq<char>,
        enc: Seq<char>,
        ciphertext: Seq<char>,
        ttl_seconds: u64,
    ) -> (StoreView, Result<Option<ExchangeRecordView>, StoreError>) {
        let (s, gate) = self.checkpoint_clock(c);
        let now = s.now(c.now_ms);
        let hit = reserved_by(id, s.tenant_id, fulfiller_id, now);
        match gate {
            Err(error) => (s, Err(error)),
            Ok(()) => if enc.len() == 0 || ciphertext.len() == 0 {
                (s, Err(StoreError::InvalidInput("exchange payload")))
            } else {
                match milliseconds(ttl_seconds) {
                    None => (s, Err(StoreError::InvalidInput("submitted exchange TTL"))),
                    Some(ttl_ms) => match attempted(
                        s.exchanges,
                        hit,
                        exchange_submitted(enc, ciphertext, moment_after(now, ttl_ms)),
                    ) {
                        None => (s, Err(StoreError::Database(DatabaseFault::OutOfRange))),
                        Some(exchanges) => if !any(s.exchanges, hit) {
                            (s, Ok(None))
                        } else {
                            StoreView { exchanges, ..s }.get_exchange(follow_up, id)
                        },
                    },
                }
            },
        }
    }

    /// Hand a payload to its requester and delete the exchange.
    pub open spec fn consume_exchange(
        self,
        c: ClockReadingView,
        id: Seq<char>,
        requester_id: Seq<char>,
    ) -> (StoreView, Result<Option<ExchangeRecordView>, StoreError>) {
        let (s, gate) = self.checkpoint_clock(c);
        let hit = retrievable(id, s.tenant_id, requester_id, s.now(c.now_ms));
        match gate {
            Err(error) => (s, Err(error)),
            Ok(()) => match read_exchange(first(s.exchanges, hit)) {
                Err(error) => (s, Err(error)),
                Ok(record) => (
                    StoreView { exchanges: without(s.exchanges, hit), ..s },
                    Ok(record),
                ),
            },
        }
    }

    /// Revoke an exchange, then read it back at a reading of its own.
    pub open spec fn revoke_exchange(
        self,
        c: ClockReadingView,
        follow_up: ClockReadingView,
        id: Seq<char>,
        requester_id: Option<Seq<char>>,
        revoked_ttl_seconds: u64,
    ) -> (StoreView, Result<Option<ExchangeRecordView>, StoreError>) {
        let (s, gate) = self.checkpoint_clock(c);
        let now = s.now(c.now_ms);
        let hit = revocable(id, s.tenant_id, requester_id, now);
        match gate {
            Err(error) => (s, Err(error)),
            Ok(()) => match milliseconds(revoked_ttl_seconds) {
                None => (s, Err(StoreError::InvalidInput("revoked exchange TTL"))),
                Some(ttl_ms) => match attempted(
                    s.exchanges,
                    hit,
                    exchange_revoked(moment_after(now, ttl_ms)),
                ) {
                    None => (s, Err(StoreError::Database(DatabaseFault::OutOfRange))),
                    Some(exchanges) => if !any(s.exchanges, hit) {
                        (s, Ok(None))
                    } else {
                        StoreView { exchanges, ..s }.get_exchange(follow_up, id)
                    },
                },
            },
        }
    }
}

fn is_live_exchange(row: &ExchangeRow, id: &str, tenant_id: &str, now: Option<i64>) -> (yes: bool)
    ensures
        yes == live_exchange(id@, tenant_id@, now)(row@),
{
    same(&row.record.exchange_id, id) && same(&row.record.workspace_id, tenant_id) && is_unexpired(
        row.record.expires_at_ms,
        now,
    )
}

impl Store {
    /// Read a live exchange.
    pub fn get_exchange(&mut self, reading: &ClockReading, exchange_id: &str) -> (reply: Result<
        Option<ExchangeRecord>,
        StoreError,
    >)
        ensures
            (final(self)@, answer_option(reply)) == old(self)@.get_exchange(
                reading@,
                exchange_id@,
            ),
    {
        if let Err(error) = self.checkpoint_clock(reading) {
            return Err(error);
        }
        let now = self.now(reading.now_ms);
        let tenant_id = &self.tenant_id;
        let found = find_row(
            &self.exchanges,
            |row: &ExchangeRow| -> (b: bool)
                ensures b == live_exchange(exchange_id@, tenant_id@, now)(row@)
                { is_live_exchange(row, exchange_id, tenant_id, now) },
            Ghost(live_exchange(exchange_id@, tenant_id@, now)),
        );
        match found {
            None => Ok(None),
            Some(at) => if self.exchanges[at].policy_readable {
                Ok(Some(self.exchanges[at].record.duplicate()))
            } else {
                Err(StoreError::MissingState("exchange policy"))
            },
        }
    }

    fn insert_exchange(
        &mut self,
        exchange: &ExchangeRecord,
        ttl_seconds: u64,
        now: Option<i64>,
    ) -> (reply: Result<(), StoreError>)
        ensures
            match old(self)@.insert_exchange(exchange@, ttl_seconds, now) {
                Ok(after) => reply is Ok && final(self)@ == after,
                Err(error) => reply == Err::<(), StoreError>(error) && final(self)@ == old(self)@,
            },
    {
        if byte_len(&exchange.exchange_id) != 64 || exchange.secret_name.as_str().is_empty() {
            return Err(StoreError::InvalidInput("exchange"));
        }
        let ttl_ms: i64 = match positive_milliseconds(ttl_seconds, "exchange TTL") {
            Ok(ttl_ms) => ttl_ms,
            Err(error) => {
                return Err(error);
            },
        };
        let now_ms: i64 = match now {
            Some(now_ms) => now_ms,
            None => {
                return Err(StoreError::Database(DatabaseFault::ClockBehind));
            },
        };
        let expires_at_ms: i64 = match deadline(now, ttl_ms) {
            Some(expires_at_ms) => expires_at_ms,
            None => {
                return Err(StoreError::Database(DatabaseFault::OutOfRange));
            },
        };
        let id = &exchange.exchange_id;
        let taken = any_row(
            &self.exchanges,
            |row: &ExchangeRow| -> (b: bool)
                ensures b == exchange_with(id@)(row@)
                { same(&row.record.exchange_id, id) },
            Ghost(exchange_with(id@)),
        );
        if taken {
            return Err(StoreError::Database(DatabaseFault::DuplicateKey));
        }
        let mut record = exchange.duplicate();
        record.workspace_id = self.tenant_id.clone();
        record.fulfilled_by = None;
        record.status = "pending".to_owned();
        record.created_at_ms = now_ms;
        record.expires_at_ms = expires_at_ms;
        record.enc = None;
        record.ciphertext = None;
        push_row(&mut self.exchanges, ExchangeRow { policy_readable: true, record });
        Ok(())
    }

    /// Create a pending exchange and read it back. The second reading is the
    /// one at which it is read.
    pub fn create_exchange(
        &mut self,
        reading: &ClockReading,
        follow_up: &ClockReading,
        exchange: &ExchangeRecord,
        ttl_seconds: u64,
    ) -> (reply: Result<ExchangeRecord, StoreError>)
        ensures
            (final(self)@, answer(reply)) == old(self)@.create_exchange(
                reading@,
                follow_up@,
                exchange@,
                ttl_seconds,
            ),
    {
        if let Err(error) = self.checkpoint_clock(reading) {
            return Err(error);
        }
        let now = self.now(reading.now_ms);
        if let Err(error) = self.insert_exchange(exchange, ttl_seconds, now) {
            return Err(error);
        }
        match self.get_exchange(follow_up, &exchange.exchange_id) {
            Err(error) => Err(error),
            Ok(None) => Err(StoreError::MissingState("created exchange")),
            Ok(Some(record)) => Ok(record),
        }
    }

    /// Reserve a pending exchange for the agent that may fulfil it.
    pub fn reserve_exchange(
        &mut self,
        reading: &ClockReading,
        follow_up: &ClockReading,
        exchange_id: &str,
        fulfiller_id: &str,
    ) -> (reply: Result<Option<ExchangeRecord>, StoreError>)
        ensures
            (final(self)@, answer_option(reply)) == old(self)@.reserve_exchange(
                reading@,
                follow_up@,
                exchange_id@,
                fulfiller_id@,
            ),
    {
        if let Err(error) = self.checkpoint_clock(reading) {
            return Err(error);
        }
        let now = self.now(reading.now_ms);
        let tenant_id = &self.tenant_id;
        let ghost hit = reservable(exchange_id@, tenant_id@, fulfiller_id@, now);
        let found = any_row(
            &self.exchanges,
            |row: &ExchangeRow| -> (b: bool)
                ensures b == hit(row@)
                {
                    is_live_exchange(row, exchange_id, tenant_id, now) && same(
                        &row.record.status,
                        "pending",
                    ) && is_text(&row.record.allowed_fulfiller_id, fulfiller_id)
                },
            Ghost(hit),
        );
        if !found {
            return Ok(None);
        }
        update_rows(
            &mut self.exchanges,
            |row: &ExchangeRow| -> (b: bool)
                ensures b == hit(row@)
                {
                    is_live_exchange(row, exchange_id, tenant_id, now) && same(
                        &row.record.status,
                        "pending",
                    ) && is_text(&row.record.allowed_fulfiller_id, fulfiller_id)
                },
            |row: &ExchangeRow| -> (next: ExchangeRow)
                ensures next@ == exchange_reserved(fulfiller_id@)(row@)
                {
                    let mut next = row.duplicate();
                    next.record.status = "reserved".to_owned();
                    next.record.fulfilled_by = Some(fulfiller_id.to_owned());
                    next
                },
            Ghost(hit),
            Ghost(exchange_reserved(fulfiller_id@)),
        );
        self.get_exchange(follow_up, exchange_id)
    }

    /// Submit the payload of a reserved exchange and set its new deadline.
    pub fn submit_exchange(
        &mut self,
        reading: &ClockReading,
        follow_up: &ClockReading,
        exchange_id: &str,
        fulfiller_id: &str,
        enc: &str,
        ciphertext: &str,
        ttl_seconds: u64,
    ) -> (reply: Result<Option<ExchangeRecord>, StoreError>)
        ensures
            (final(self)@, answer_option(reply)) == old(self)@.submit_exchange(
                reading@,
                follow_up@,
                exchange_id@,
                fulfiller_id@,
                enc@,
                ciphertext@,
                ttl_seconds,
            ),
    {
        if let Err(error) = self.checkpoint_clock(reading) {
            return Err(error);
        }
        if enc.is_empty() || ciphertext.is_empty() {
            return Err(StoreError::InvalidInput("exchange payload"));
        }
        let ttl_ms: i64 = match positive_milliseconds(ttl_seconds, "submitted exchange TTL") {
            Ok(ttl_ms) => ttl_ms,
            Err(error) => {
                return Err(error);
            },
        };
        let now = self.now(reading.now_ms);
        let until = deadline(now, ttl_ms);
        let tenant_id = &self.tenant_id;
        let ghost hit = reserved_by(exchange_id@, tenant_id@, fulfiller_id@, now);
        let ghost rows = self@.exchanges;
        let changed = attempt_rows(
            &mut self.exchanges,
            |row: &ExchangeRow| -> (b: bool)
                ensures b == hit(row@)
                {
                    is_live_exchange(row, exchange_id, tenant_id, now) && same(
                        &row.record.status,
                        "reserved",
                    ) && is_text(&row.record.fulfilled_by, fulfiller_id)
                },
            |row: &ExchangeRow| -> (next: Option<ExchangeRow>)
                ensures option_view(next) == exchange_submitted(enc@, ciphertext@, until)(row@)
                {
                    match until {
                        Some(expires_at_ms) => {
                            let mut next = row.duplicate();
                            next.record.status = "submitted".to_owned();
                            next.record.enc = Some(enc.to_owned());
                            next.record.ciphertext = Some(ciphertext.to_owned());
                            next.record.expires_at_ms = expires_at_ms;
                            Some(next)
                        },
                        None => None,
                    }
                },
            Ghost(hit),
            Ghost(exchange_submitted(enc@, ciphertext@, until)),
        );
        proof {
            crate::relation::lemma_any_counted(rows, hit);
            crate::relation::lemma_updated_none(
                rows,
                hit,
                |v: ExchangeRowView| exchange_submitted(enc@, ciphertext@, until)(v)->0,
            );
        }
        match changed {
            None => Err(StoreError::Database(DatabaseFault::OutOfRange)),
            Some(rows) => if rows == 0 {
                Ok(None)
            } else {
                self.get_exchange(follow_up, exchange_id)
            },
        }
    }

    /// Return submitted ciphertext to its requester and delete it.
    pub fn consume_exchange(
        &mut self,
        reading: &ClockReading,
        exchange_id: &str,
        requester_id: &str,
    ) -> (reply: Result<Option<ExchangeRecord>, StoreError>)
        ensures
            (final(self)@, answer_option(reply)) == old(self)@.consume_exchange(
                reading@,
                exchange_id@,
                requester_id@,
            ),
    {
        if let Err(error) = self.checkpoint_clock(reading) {
            return Err(error);
        }
        let now = self.now(reading.now_ms);
        let tenant_id = &self.tenant_id;
        let ghost hit = retrievable(exchange_id@, tenant_id@, requester_id@, now);
        let found = find_row(
            &self.exchanges,
            |row: &ExchangeRow| -> (b: bool)
                ensures b == hit(row@)
                {
                    is_live_exchange(row, exchange_id, tenant_id, now) && same(
                        &row.record.requester_id,
                        requester_id,
                    ) && same(&row.record.status, "submitted")
                },
            Ghost(hit),
        );
        let record = match found {
            None => None,
            Some(at) => {
                if !self.exchanges[at].policy_readable {
                    return Err(StoreError::MissingState("exchange policy"));
                }
                Some(self.exchanges[at].record.duplicate())
            },
        };
        remove_rows(
            &mut self.exchanges,
            |row: &ExchangeRow| -> (b: bool)
                ensures b == hit(row@)
                {
                    is_live_exchange(row, exchange_id, tenant_id, now) && same(
                        &row.record.requester_id,
                        requester_id,
                    ) && same(&row.record.status, "submitted")
                },
            Ghost(hit),
        );
        Ok(record)
    }

    /// Revoke an exchange and drop its payload. A requester revokes only its
    /// own.
    pub fn revoke_exchange(
        &mut self,
        reading: &ClockReading,
        follow_up: &ClockReading,
        exchange_id: &str,
        requester_id: Option<&str>,
        revoked_ttl_seconds: u64,
    ) -> (reply: Result<Option<ExchangeRecord>, StoreError>)
        ensures
            (final(self)@, answer_option(reply)) == old(self)@.revoke_exchange(
                reading@,
                follow_up@,
                exchange_id@,
                optional_str(requester_id),
                revoked_ttl_seconds,
            ),
    {
        if let Err(error) = self.checkpoint_clock(reading) {
            return Err(error);
        }
        let ttl_ms: i64 = match positive_milliseconds(revoked_ttl_seconds, "revoked exchange TTL") {
            Ok(ttl_ms) => ttl_ms,
            Err(error) => {
                return Err(error);
            },
        };
        let now = self.now(reading.now_ms);
        let until = deadline(now, ttl_ms);
        let tenant_id = &self.tenant_id;
        let ghost hit = revocable(exchange_id@, tenant_id@, optional_str(requester_id), now);
        let ghost rows = self@.exchanges;
        let changed = attempt_rows(
            &mut self.exchanges,
            |row: &ExchangeRow| -> (b: bool)
                ensures b == hit(row@)
                {
                    let own = match requester_id {
                        Some(requester_id) => same(&row.record.requester_id, requester_id),
                        None => true,
                    };
                    let status = &row.record.status;
                    is_live_exchange(row, exchange_id, tenant_id, now) && (same(status, "pending")
                        || same(status, "reserved") || same(status, "submitted") || same(
                        status,
                        "revoked",
                    )) && own
                },
            |row: &ExchangeRow| -> (next: Option<ExchangeRow>)
                ensures option_view(next) == exchange_revoked(until)(row@)
                {
                    let kept = if same(&row.record.status, "revoked") {
                        Some(row.record.expires_at_ms)
                    } else {
                        until
                    };
                    match kept {
                        Some(expires_at_ms) => {
                            let mut next = row.duplicate();
                            next.record.status = "revoked".to_owned();
                            next.record.enc = None;
                            next.record.ciphertext = None;
                            next.record.expires_at_ms = expires_at_ms;
                            Some(next)
                        },
                        None => None,
                    }
                },
            Ghost(hit),
            Ghost(exchange_revoked(until)),
        );
        proof {
            crate::relation::lemma_any_counted(rows, hit);
            crate::relation::lemma_updated_none(
                rows,
                hit,
                |v: ExchangeRowView| exchange_revoked(until)(v)->0,
            );
        }
        match changed {
            None => Err(StoreError::Database(DatabaseFault::OutOfRange)),
            Some(rows) => if rows == 0 {
                Ok(None)
            } else {
                self.get_exchange(follow_up, exchange_id)
            },
        }
    }
}

} // verus!
