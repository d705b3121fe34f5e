//! Requests for secrets: created by an agent, answered by a person, consumed
//! once.

use crate::clock::{ClockReading, ClockReadingView};
use crate::error::{DatabaseFault, StoreError};
use crate::ids::{is_hex_id, new_hex_id};
use crate::limits::{
    deadline, exact_sum, is_unexpired, milliseconds, moment_after, parse_request_status,
    positive_milliseconds, request_status, unexpired,
};
use crate::records::{
    CreatedSecretRequest, CreatedSecretRequestView, EncryptedPayload, EncryptedPayloadView,
    SecretRequestMetadata, SecretRequestMetadataView, SecretRequestStatus,
};
use crate::relation::{
    answer, answer_option, any, any_row, attempt_rows, attempted, count, find_row, first,
    option_view, push_row, remove_rows, without, Duplicate,
};
use crate::store::{Store, StoreView};
use crate::tables::{SecretRequestRow, SecretRequestRowView};
use crate::text::same;
use vstd::prelude::*;

verus! {

/// The request with an identifier, of any tenant.
pub open spec fn request_taken(id: Seq<char>) -> spec_fn(SecretRequestRowView) -> bool {
    |row: SecretRequestRowView| row.id == id
}

/// The live request with an identifier.
pub open spec fn live_request(id: Seq<char>, tenant_id: Seq<char>, now: Option<i64>) -> spec_fn(
    SecretRequestRowView,
) -> bool {
    |row: SecretRequestRowView|
        row.id == id && row.tenant_id == tenant_id && unexpired(row.expires_at_ms, now)
}

/// The live request of an agent.
pub open spec fn live_request_of(
    id: Seq<char>,
    tenant_id: Seq<char>,
    agent_id: Seq<char>,
    now: Option<i64>,
) -> spec_fn(SecretRequestRowView) -> bool {
    |row: SecretRequestRowView|
        live_request(id, tenant_id, now)(row) && row.requester_agent_id == agent_id
}

/// The live request of an agent with a status.
pub open spec fn live_request_in(
    id: Seq<char>,
    tenant_id: Seq<char>,
    agent_id: Seq<char>,
    status: Seq<char>,
    now: Option<i64>,
) -> spec_fn(SecretRequestRowView) -> bool {
    |row: SecretRequestRowView|
        live_request_of(id, tenant_id, agent_id, now)(row) && row.status == status
}

/// A request that was answered, unless its new deadline does not fit.
pub open spec fn request_submitted(
    enc: Seq<char>,
    ciphertext: Seq<char>,
    now: Option<i64>,
    ttl_ms: i64,
) -> spec_fn(SecretRequestRowView) -> Option<SecretRequestRowView> {
    |row: SecretRequestRowView|
        match moment_after(now, ttl_ms) {
            None => None,
            Some(expires_at_ms) => Some(
                SecretRequestRowView {
                    status: "submitted"@,
                    enc: Some(enc),
                    ciphertext: Some(ciphertext),
                    submitted_at_ms: now,
                    expires_at_ms,
                    ..row
                },
            ),
        }
}

/// What a browser may read of a request.
pub open spec fn request_metadata(row: SecretRequestRowView) -> SecretRequestMetadataView {
    SecretRequestMetadataView {
        requester_agent_id: row.requester_agent_id,
        public_key: row.public_key,
        description: row.description,
        confirmation_code: row.confirmation_code,
        expires_at_ms: row.expires_at_ms,
    }
}

/// The status of an optional request.
pub open spec fn found_status(row: Option<SecretRequestRowView>) -> Result<
    Option<SecretRequestStatus>,
    StoreError,
> {
    match row {
        None => Ok(None),
        Some(found) => match request_status(found.status) {
            Ok(status) => Ok(Some(status)),
            Err(error) => Err(error),
        },
    }
}

impl StoreView {
    /// A request as it enters the table.
    pub open spec fn fresh_request(
        self,
        id: Seq<char>,
        requester_agent_id: Seq<char>,
        public_key: Seq<char>,
        description: Seq<char>,
        confirmation_code: Seq<char>,
        now_ms: i64,
        expires_at_ms: i64,
    ) -> SecretRequestRowView {
        SecretRequestRowView {
            id,
            tenant_id: self.tenant_id,
            requester_agent_id,
            public_key,
            description,
            confirmation_code,
            status: "pending"@,
            require_user_auth: false,
            created_at_ms: now_ms,
            expires_at_ms,
            submitted_at_ms: None,
            enc: None,
            ciphertext: None,
        }
    }

    /// Create a request under an identifier.
    pub open spec fn open_secret_request(
        self,
        c: ClockReadingView,
        id: Seq<char>,
        requester_agent_id: Seq<char>,
        public_key: Seq<char>,
        description: Seq<char>,
        confirmation_code: Seq<char>,
        ttl_seconds: u64,
    ) -> (StoreView, Result<CreatedSecretRequestView, StoreError>) {
        let (s, gate) = self.checkpoint_clock(c);
        match gate {
            Err(error) => (s, Err(error)),
            Ok(()) => if requester_agent_id.len() == 0 || public_key.len() == 0
                || confirmation_code.len() == 0 {
                (s, Err(StoreError::InvalidInput("secret request")))
            } else {
                match (milliseconds(ttl_seconds), s.now(c.now_ms)) {
                    (None, _) => (s, Err(StoreError::InvalidInput("request TTL"))),
                    (Some(_), None) => (
                        s,
                        Err(StoreError::Database(DatabaseFault::ClockBehind)),
                    ),
                    (Some(ttl_ms), Some(now_ms)) => match exact_sum(now_ms, ttl_ms) {
                        None => (s, Err(StoreError::Database(DatabaseFault::OutOfRange))),
                        Some(expires_at_ms) => if any(s.secret_requests, request_taken(id)) {
                            (s, Err(StoreError::Database(DatabaseFault::DuplicateKey)))
                        } else {
                            (
                                StoreView {
                                    secret_requests: s.secret_requests.push(
                                        s.fresh_request(
                                            id,
                                            requester_agent_id,
                                            public_key,
                                            description,
                                            confirmation_code,
                                            now_ms,
                                            expires_at_ms,
                                        ),
                                    ),
                                    ..s
                                },
                                Ok(CreatedSecretRequestView { id, expires_at_ms }),
                            )
                        },
                    },
                }
            },
        }
    }

    /// Read what a browser may see of a live request.
    pub open spec fn secret_request_metadata(self, c: ClockReadingView, id: Seq<char>) -> (
        StoreView,
        Result<Option<SecretRequestMetadataView>, StoreError>,
    ) {
        let (s, gate) = self.checkpoint_clock(c);
        match gate {
            Err(error) => (s, Err(error)),
            Ok(()) => (
                s,
                Ok(
                    match first(
                        s.secret_requests,
                        live_request(id, s.tenant_id, s.now(c.now_ms)),
                    ) {
                        Some(row) => Some(request_metadata(row)),
                        None => None,
                    },
                ),
            ),
        }
    }

    /// Read the status of a live request.
    pub open spec fn browser_request_status(self, c: ClockReadingView, id: Seq<char>) -> (
        StoreView,
        Result<Option<SecretRequestStatus>, StoreError>,
    ) {
        let (s, gate) = self.checkpoint_clock(c);
        match gate {
            Err(error) => (s, Err(error)),
            Ok(()) => (
                s,
                found_status(
                    first(s.secret_requests, live_request(id, s.tenant_id, s.now(c.now_ms))),
                ),
            ),
        }
    }

    /// Delete a live request of an agent.
    pub open spec fn delete_secret_request(
        self,
        c: ClockReadingView,
        id: Seq<char>,
        requester_agent_id: Seq<char>,
    ) -> (StoreView, Result<bool, StoreError>) {
        let (s, gate) = self.checkpoint_clock(c);
        let hit = live_request_of(id, s.tenant_id, requester_agent_id, s.now(c.now_ms));
        match gate {
            Err(error) => (s, Err(error)),
            Ok(()) => (
                StoreView { secret_requests: without(s.secret_requests, hit), ..s },
                Ok(count(s.secret_requests, hit) == 1),
            ),
        }
    }

    /// Answer a live pending request of an agent with an encrypted secret.
    pub open spec fn submit_secret_request(
        self,
        c: ClockReadingView,
        id: Seq<char>,
        requester_agent_id: Seq<char>,
        enc: Seq<char>,
        ciphertext: Seq<char>,
        submitted_ttl_seconds: u64,
    ) -> (StoreView, Result<bool, StoreError>) {
        let (s, gate) = self.checkpoint_clock(c);
        let now = s.now(c.now_ms);
        let hit = live_request_in(id, s.tenant_id, requester_agent_id, "pending"@, now);
        match gate {
            Err(error) => (s, Err(error)),
            Ok(()) => if enc.len() == 0 || ciphertext.len() == 0 {
                (s, Err(StoreError::InvalidInput("encrypted payload")))
            } else {
                match milliseconds(submitted_ttl_seconds) {
                    None => (s, Err(StoreError::InvalidInput("submitted TTL"))),
                    Some(ttl_ms) => match attempted(
                        s.secret_requests,
                        hit,
                        request_submitted(enc, ciphertext, now, ttl_ms),
                    ) {
                        None => (s, Err(StoreError::Database(DatabaseFault::OutOfRange))),
                        Some(secret_requests) => (
                            StoreView { secret_requests, ..s },
                            Ok(any(s.secret_requests, hit)),
                        ),
                    },
                }
            },
        }
    }

    /// Read the status of a live request of an agent.
    pub open spec fn request_status(
        self,
        c: ClockReadingView,
        id: Seq<char>,
        requester_agent_id: Seq<char>,
    ) -> (StoreView, Result<Option<SecretRequestStatus>, StoreError>) {
        let (s, gate) = self.checkpoint_clock(c);
        match gate {
            Err(error) => (s, Err(error)),
            Ok(()) => (
                s,
                found_status(
                    first(
                        s.secret_requests,
                        live_request_of(id, s.tenant_id, requester_agent_id, s.now(c.now_ms)),
                    ),
                ),
            ),
        }
    }

    /// Hand out the secret of a live answered request and delete the request.
    pub open spec fn consume_secret_request(
        self,
        c: ClockReadingView,
        id: Seq<char>,
        requester_agent_id: Seq<char>,
    ) -> (StoreView, Result<Option<EncryptedPayloadView>, StoreError>) {
        let (s, gate) = self.checkpoint_clock(c);
        let hit = live_request_in(
            id,
            s.tenant_id,
            requester_agent_id,
            "submitted"@,
            s.now(c.now_ms),
        );
        match gate {
            Err(error) => (s, Err(error)),
            Ok(()) => match first(s.secret_requests, hit) {
                None => (s, Ok(None)),
                Some(row) => match (row.enc, row.ciphertext) {
                    (Some(enc), Some(ciphertext)) => (
                        StoreView { secret_requests: without(s.secret_requests, hit), ..s },
                        Ok(Some(EncryptedPayloadView { enc, ciphertext })),
                    ),
                    _ => (s, Err(StoreError::Database(DatabaseFault::MissingValue))),
                },
            },
        }
    }
}

fn is_live_request(row: &SecretRequestRow, id: &str, tenant_id: &str, now: Option<i64>) -> (yes:
    bool)
    ensures
        yes == live_request(id@, tenant_id@, now)(row@),
{
    same(&row.id, id) && same(&row.tenant_id, tenant_id) && is_unexpired(row.expires_at_ms, now)
}

impl Store {
    /// Create a request under an identifier.
    pub fn open_secret_request(
        &mut self,
        reading: &ClockReading,
        id: &str,
        requester_agent_id: &str,
        public_key: &str,
        description: &str,
        confirmation_code: &str,
        ttl_seconds: u64,
    ) -> (reply: Result<CreatedSecretRequest, StoreError>)
        ensures
            (final(self)@, answer(reply)) == old(self)@.open_secret_request(
                reading@,
                id@,
                requester_agent_id@,
                public_key@,
                description@,
                confirmation_code@,
                ttl_seconds,
            ),
    {
        if let Err(error) = self.checkpoint_clock(reading) {
            return Err(error);
        }
        if requester_agent_id.is_empty() || public_key.is_empty() || confirmation_code.is_empty() {
            return Err(StoreError::InvalidInput("secret request"));
        }
        let ttl_ms: i64 = match positive_milliseconds(ttl_seconds, "request TTL") {
            Ok(ttl_ms) => ttl_ms,
            Err(error) => {
                return Err(error);
            },
        };
        let now_ms: i64 = match self.now(reading.now_ms) {
            Some(now_ms) => now_ms,
            None => {
                return Err(StoreError::Database(DatabaseFault::ClockBehind));
            },
        };
        let expires_at_ms: i64 = match now_ms.checked_add(ttl_ms) {
            Some(at_ms) => at_ms,
            None => {
                return Err(StoreError::Database(DatabaseFault::OutOfRange));
            },
        };
        let taken = any_row(
            &self.secret_requests,
            |row: &SecretRequestRow| -> (b: bool)
                ensures b == request_taken(id@)(row@)
                { same(&row.id, id) },
            Ghost(request_taken(id@)),
        );
        if taken {
            return Err(StoreError::Database(DatabaseFault::DuplicateKey));
        }
        let row = SecretRequestRow {
            id: id.to_owned(),
            tenant_id: self.tenant_id.clone(),
            requester_agent_id: requester_agent_id.to_owned(),
            public_key: public_key.to_owned(),
            description: description.to_owned(),
            confirmation_code: confirmation_code.to_owned(),
            status: "pending".to_owned(),
            require_user_auth: false,
            created_at_ms: now_ms,
            expires_at_ms,
            submitted_at_ms: None,
            enc: None,
            ciphertext: None,
        };
        push_row(&mut self.secret_requests, row);
        Ok(CreatedSecretRequest { id: id.to_owned(), expires_at_ms })
    }

    /// Create a request under a fresh identifier. Returns the identifier.
    pub fn create_secret_request(
        &mut self,
        reading: &ClockReading,
        requester_agent_id: &str,
        public_key: &str,
        description: &str,
        confirmation_code: &str,
        ttl_seconds: u64,
    ) -> (reply: Result<String, StoreError>)
        ensures
            exists|id: Seq<char>|
                {
                    let (after, created) = old(self)@.open_secret_request(
                        reading@,
                        id,
                        requester_agent_id@,
                        public_key@,
                        description@,
                        confirmation_code@,
                        ttl_seconds,
                    );
                    &&& #[trigger] is_hex_id(id)
                    &&& final(self)@ == after
                    &&& match created {
                        Ok(request) => reply is Ok && reply->Ok_0@ == request.id,
                        Err(error) => reply is Err && reply->Err_0 == error,
                    }
                },
    {
        match self.create_secret_request_with_expiry(
            reading,
            requester_agent_id,
            public_key,
            description,
            confirmation_code,
            ttl_seconds,
        ) {
            Ok(created) => Ok(created.id),
            Err(error) => Err(error),
        }
    }

    /// Create a request under a fresh identifier. Returns the identifier and the
    /// deadline.
    pub fn create_secret_request_with_expiry(
        &mut self,
        reading: &ClockReading,
        requester_agent_id: &str,
        public_key: &str,
        description: &str,
        confirmation_code: &str,
        ttl_seconds: u64,
    ) -> (reply: Result<CreatedSecretRequest, StoreError>)
        ensures
            exists|id: Seq<char>| #[trigger] is_hex_id(id) && (final(self)@, answer(reply)) == old(
                self,
            )@.open_secret_request(
                reading@,
                id,
                requester_agent_id@,
                public_key@,
                description@,
                confirmation_code@,
                ttl_seconds,
            ),
    {
        let id = new_hex_id();
        self.open_secret_request(
            reading,
            &id,
            requester_agent_id,
            public_key,
            description,
            confirmation_code,
            ttl_seconds,
        )
    }

    /// Read what a browser may see of a live request.
    pub fn secret_request_metadata(&mut self, reading: &ClockReading, request_id: &str) -> (reply:
        Result<Option<SecretRequestMetadata>, StoreError>)
        ensures
            (final(self)@, answer_option(reply)) == old(self)@.secret_request_metadata(
                reading@,
                request_id@,
            ),
    {
        if let Err(error) = self.checkpoint_clock(reading) {
            return Err(error);
        }
        let now = self.now(reading.now_ms);
        match self.find_live_request(request_id, now) {
            Some(at) => {
                let row = &self.secret_requests[at];
                Ok(
                    Some(
                        SecretRequestMetadata {
                            requester_agent_id: row.requester_agent_id.clone(),
                            public_key: row.public_key.clone(),
                            description: row.description.clone(),
                            confirmation_code: row.confirmation_code.clone(),
                            expires_at_ms: row.expires_at_ms,
                        },
                    ),
                )
            },
            None => Ok(None),
        }
    }

    fn find_live_request(&self, id: &str, now: Option<i64>) -> (found: Option<usize>)
        ensures
            match found {
                Some(at) => {
                    &&& at < self.secret_requests@.len()
                    &&& first(
                        self@.secret_requests,
                        live_request(id@, self@.tenant_id, now),
                    ) == Some(self.secret_requests@[at as int]@)
                },
                None => first(
                    self@.secret_requests,
                    live_request(id@, self@.tenant_id, now),
                ) is None,
            },
    {
        let tenant_id = &self.tenant_id;
        find_row(
            &self.secret_requests,
            |row: &SecretRequestRow| -> (b: bool)
                ensures b == live_request(id@, tenant_id@, now)(row@)
                { is_live_request(row, id, tenant_id, now) },
            Ghost(live_request(id@, tenant_id@, now)),
        )
    }

    /// Read the status of a live request.
    pub fn browser_request_status(&mut self, reading: &ClockReading, request_id: &str) -> (reply:
        Result<Option<SecretRequestStatus>, StoreError>)
        ensures
            (final(self)@, reply) == old(self)@.browser_request_status(reading@, request_id@),
    {
        if let Err(error) = self.checkpoint_clock(reading) {
            return Err(error);
        }
        let now = self.now(reading.now_ms);
        match self.find_live_request(request_id, now) {
            Some(at) => match parse_request_status(self.secret_requests[at].status.clone()) {
                Ok(status) => Ok(Some(status)),
                Err(error) => Err(error),
            },
            None => Ok(None),
        }
    }

    /// Delete a live request of an agent.
    pub fn delete_secret_request(
        &mut self,
        reading: &ClockReading,
        request_id: &str,
        requester_agent_id: &str,
    ) -> (reply: Result<bool, StoreError>)
        ensures
            (final(self)@, reply) == old(self)@.delete_secret_request(
                reading@,
                request_id@,
                requester_agent_id@,
            ),
    {
        if let Err(error) = self.checkpoint_clock(reading) {
            return Err(error);
        }
        let now = self.now(reading.now_ms);
        let tenant_id = &self.tenant_id;
        let ghost hit = live_request_of(request_id@, tenant_id@, requester_agent_id@, now);
        let removed: usize = remove_rows(
            &mut self.secret_requests,
            |row: &SecretRequestRow| -> (b: bool)
                ensures b == hit(row@)
                {
                    is_live_request(row, request_id, tenant_id, now) && same(
                        &row.requester_agent_id,
                        requester_agent_id,
                    )
                },
            Ghost(hit),
        );
        Ok(removed == 1)
    }

    /// Answer a live pending request of an agent with an encrypted secret.
    pub fn submit_secret_request(
        &mut self,
        reading: &ClockReading,
        request_id: &str,
        requester_agent_id: &str,
        enc: &str,
        ciphertext: &str,
        submitted_ttl_seconds: u64,
    ) -> (reply: Result<bool, StoreError>)
        ensures
            (final(self)@, reply) == old(self)@.submit_secret_request(
                reading@,
                request_id@,
                requester_agent_id@,
                enc@,
                ciphertext@,
                submitted_ttl_seconds,
            ),
    {
        if let Err(error) = self.checkpoint_clock(reading) {
            return Err(error);
        }
        if enc.is_empty() || ciphertext.is_empty() {
            return Err(StoreError::InvalidInput("encrypted payload"));
        }
        let ttl_ms: i64 = match positive_milliseconds(submitted_ttl_seconds, "submitted TTL") {
            Ok(ttl_ms) => ttl_ms,
            Err(error) => {
                return Err(error);
            },
        };
        let now = self.now(reading.now_ms);
        let expires_at = deadline(now, ttl_ms);
        let tenant_id = &self.tenant_id;
        let ghost hit = live_request_in(
            request_id@,
            tenant_id@,
            requester_agent_id@,
            "pending"@,
            now,
        );
        let ghost change = request_submitted(enc@, ciphertext@, now, ttl_ms);
        let submitted = attempt_rows(
            &mut self.secret_requests,
            |row: &SecretRequestRow| -> (b: bool)
                ensures b == hit(row@)
                {
                    is_live_request(row, request_id, tenant_id, now) && same(
                        &row.requester_agent_id,
                        requester_agent_id,
                    ) && same(&row.status, "pending")
                },
            |row: &SecretRequestRow| -> (next: Option<SecretRequestRow>)
                ensures option_view(next) == change(row@)
                {
                    match expires_at {
                        None => None,
                        Some(expires_at_ms) => {
                            let mut next = row.duplicate();
                            next.status = "submitted".to_owned();
                            next.enc = Some(enc.to_owned());
                            next.ciphertext = Some(ciphertext.to_owned());
                            next.submitted_at_ms = now;
                            next.expires_at_ms = expires_at_ms;
                            Some(next)
                        },
                    }
                },
            Ghost(hit),
            Ghost(change),
        );
        proof {
            crate::relation::lemma_any_counted(
                old(self)@.checkpoint_clock(reading@).0.secret_requests,
                hit,
            );
        }
        match submitted {
            Some(rows) => Ok(rows > 0),
            None => Err(StoreError::Database(DatabaseFault::OutOfRange)),
        }
    }

    /// Read the status of a live request of an agent.
    pub fn request_status(
        &mut self,
        reading: &ClockReading,
        request_id: &str,
        requester_agent_id: &str,
    ) -> (reply: Result<Option<SecretRequestStatus>, StoreError>)
        ensures
            (final(self)@, reply) == old(self)@.request_status(
                reading@,
                request_id@,
                requester_agent_id@,
            ),
    {
        if let Err(error) = self.checkpoint_clock(reading) {
            return Err(error);
        }
        let now = self.now(reading.now_ms);
        let tenant_id = &self.tenant_id;
        let ghost hit = live_request_of(request_id@, tenant_id@, requester_agent_id@, now);
        let found = find_row(
            &self.secret_requests,
            |row: &SecretRequestRow| -> (b: bool)
                ensures b == hit(row@)
                {
                    is_live_request(row, request_id, tenant_id, now) && same(
                        &row.requester_agent_id,
                        requester_agent_id,
                    )
                },
            Ghost(hit),
        );
        match found {
            Some(at) => match parse_request_status(self.secret_requests[at].status.clone()) {
                Ok(status) => Ok(Some(status)),
                Err(error) => Err(error),
            },
            None => Ok(None),
        }
    }

    /// Hand out the secret of a live answered request, once.
    pub fn consume_secret_request(
        &mut self,
        reading: &ClockReading,
        request_id: &str,
        requester_agent_id: &str,
    ) -> (reply: Result<Option<EncryptedPayload>, StoreError>)
        ensures
            (final(self)@, answer_option(reply)) == old(self)@.consume_secret_request(
                reading@,
                request_id@,
                requester_agent_id@,
            ),
    {
        if let Err(error) = self.checkpoint_clock(reading) {
            return Err(error);
        }
        let now = self.now(reading.now_ms);
        let tenant_id = &self.tenant_id;
        let ghost hit = live_request_in(
            request_id@,
            tenant_id@,
            requester_agent_id@,
            "submitted"@,
            now,
        );
        let found = find_row(
            &self.secret_requests,
            |row: &SecretRequestRow| -> (b: bool)
                ensures b == hit(row@)
                {
                    is_live_request(row, request_id, tenant_id, now) && same(
                        &row.requester_agent_id,
                        requester_agent_id,
                    ) && same(&row.status, "submitted")
                },
            Ghost(hit),
        );
        let at: usize = match found {
            Some(at) => at,
            None => {
                return Ok(None);
            },
        };
        let payload = match (&self.secret_requests[at].enc, &self.secret_requests[at].ciphertext) {
            (Some(enc), Some(ciphertext)) => EncryptedPayload {
                enc: enc.clone(),
                ciphertext: ciphertext.clone(),
            },
            _ => {
                return Err(StoreError::Database(DatabaseFault::MissingValue));
            },
        };
        remove_rows(
            &mut self.secret_requests,
            |row: &SecretRequestRow| -> (b: bool)
                ensures b == hit(row@)
                {
                    is_live_request(row, request_id, tenant_id, now) && same(
                        &row.requester_agent_id,
                        requester_agent_id,
                    ) && same(&row.status, "submitted")
                },
            Ghost(hit),
        );
        Ok(Some(payload))
    }
}

} // verus!
