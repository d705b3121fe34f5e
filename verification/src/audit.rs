//! The audit log and the life of exchanges. Both hold metadata only.

use crate::clock::{audit_event_with, ClockReading, ClockReadingView};
use crate::error::{DatabaseFault, StoreError};
use crate::ids::{is_hex_id, new_hex_id};
use crate::json::{is_json, json_valid};
use crate::limits::{clamp_limit, page_size};
use crate::paging::{ahead, cursor_view, is_ahead, is_before, place_before};
use crate::records::{AuditRecord, AuditRecordView, LifecycleRecord, LifecycleRecordView};
use crate::relation::{
    answer_rows, any, any_row, order_rows, ordered, page, page_rows, push_row, select_rows,
    selected,
};
use crate::store::{Store, StoreView};
use crate::tables::{AuditRow, AuditRowView, LifecycleRow, LifecycleRowView};
use crate::text::{copy_optional, is_text, optional_str, own, same};
use vstd::prelude::*;

verus! {

/// Stored metadata as it is read: the text where it is JSON, else `null`.
pub open spec fn read_metadata(text: Seq<char>) -> Seq<char> {
    if json_valid(text) {
        text
    } else {
        "null"@
    }
}

/// The audit record of an event.
pub open spec fn audit_of() -> spec_fn(AuditRowView) -> AuditRecordView {
    |row: AuditRowView|
        AuditRecordView {
            id: row.id,
            workspace_id: row.tenant_id,
            event_type: row.action,
            actor_id: row.actor_id,
            actor_type: row.actor_type,
            resource_id: row.target_id,
            metadata: read_metadata(row.metadata_json),
            created_at_ms: row.created_at_ms,
        }
}

/// The audit record of a step in the life of an exchange.
pub open spec fn step_of(exchange_id: Seq<char>) -> spec_fn(LifecycleRowView) -> AuditRecordView {
    |row: LifecycleRowView|
        AuditRecordView {
            id: row.id,
            workspace_id: row.tenant_id,
            event_type: row.event,
            actor_id: row.actor_id,
            actor_type: "local"@,
            resource_id: Some(exchange_id),
            metadata: read_metadata(row.metadata_json),
            created_at_ms: row.created_at_ms,
        }
}

/// The steps of an exchange.
pub open spec fn step_in(tenant_id: Seq<char>, exchange_id: Seq<char>) -> spec_fn(
    LifecycleRowView,
) -> bool {
    |row: LifecycleRowView| row.tenant_id == tenant_id && row.exchange_id == Some(exchange_id)
}

/// The step with an identifier.
pub open spec fn step_with(id: Seq<char>) -> spec_fn(LifecycleRowView) -> bool {
    |row: LifecycleRowView| row.id == id
}

/// The events of a tenant behind a cursor, newest first.
pub open spec fn event_ahead(tenant_id: Seq<char>, cursor: Option<(i64, Seq<char>)>) -> spec_fn(
    AuditRowView,
) -> bool {
    |row: AuditRowView|
        row.tenant_id == tenant_id && ahead(cursor, row.created_at_ms, row.id)
}

/// Records by creation and identifier.
pub open spec fn oldest_first() -> spec_fn(AuditRecordView, AuditRecordView) -> bool {
    |a: AuditRecordView, b: AuditRecordView|
        place_before(a.created_at_ms, a.id, b.created_at_ms, b.id)
}

/// Records by creation and identifier, the newest first.
pub open spec fn newest_first() -> spec_fn(AuditRecordView, AuditRecordView) -> bool {
    |a: AuditRecordView, b: AuditRecordView|
        place_before(b.created_at_ms, b.id, a.created_at_ms, a.id)
}

impl StoreView {
    /// List the steps of an exchange.
    pub open spec fn list_exchange_lifecycle(
        self,
        c: ClockReadingView,
        exchange_id: Seq<char>,
        limit: u32,
    ) -> (StoreView, Result<Seq<AuditRecordView>, StoreError>) {
        let (s, gate) = self.checkpoint_clock(c);
        match gate {
            Err(error) => (s, Err(error)),
            Ok(()) => (
                s,
                Ok(
                    page(
                        ordered(
                            selected(
                                s.exchange_lifecycle,
                                step_in(s.tenant_id, exchange_id),
                                step_of(exchange_id),
                            ),
                            oldest_first(),
                        ),
                        page_size(limit, 200),
                    ),
                ),
            ),
        }
    }

    /// Append a step in the life of an exchange.
    pub open spec fn append_lifecycle(self, c: ClockReadingView, record: LifecycleRecordView) -> (
        StoreView,
        Result<(), StoreError>,
    ) {
        let (s, gate) = self.checkpoint_clock(c);
        match (gate, s.now(c.now_ms)) {
            (Err(error), _) => (s, Err(error)),
            (Ok(()), None) => (s, Err(StoreError::Database(DatabaseFault::ClockBehind))),
            (Ok(()), Some(now_ms)) => if any(s.exchange_lifecycle, step_with(record.record_id)) {
                (s, Err(StoreError::Database(DatabaseFault::DuplicateKey)))
            } else {
                (
                    StoreView {
                        exchange_lifecycle: s.exchange_lifecycle.push(
                            LifecycleRowView {
                                id: record.record_id,
                                tenant_id: s.tenant_id,
                                exchange_id: record.exchange_id,
                                event: record.event_type,
                                actor_id: record.actor_id,
                                metadata_json: match record.metadata {
                                    Some(text) => text,
                                    None => "null"@,
                                },
                                created_at_ms: now_ms,
                            },
                        ),
                        ..s
                    },
                    Ok(()),
                )
            },
        }
    }

    /// Append an audit event.
    pub open spec fn append_audit(
        self,
        c: ClockReadingView,
        id: Seq<char>,
        event_type: Seq<char>,
        actor_type: Seq<char>,
        actor_id: Option<Seq<char>>,
        target_type: Seq<char>,
        target_id: Option<Seq<char>>,
        metadata_json: Seq<char>,
    ) -> (StoreView, Result<(), StoreError>) {
        let (s, gate) = self.checkpoint_clock(c);
        match (gate, s.now(c.now_ms)) {
            (Err(error), _) => (s, Err(error)),
            (Ok(()), None) => (s, Err(StoreError::Database(DatabaseFault::ClockBehind))),
            (Ok(()), Some(now_ms)) => if any(s.audit_events, audit_event_with(id)) {
                (s, Err(StoreError::Database(DatabaseFault::DuplicateKey)))
            } else {
                (
                    s.audited(
                        AuditRowView {
                            id,
                            tenant_id: s.tenant_id,
                            actor_type,
                            actor_id,
                            action: event_type,
                            target_type,
                            target_id,
                            metadata_json,
                            created_at_ms: now_ms,
                        },
                    ),
                    Ok(()),
                )
            },
        }
    }

    /// The newest audit events behind a cursor.
    pub open spec fn audit_page(
        self,
        c: ClockReadingView,
        cursor: Option<(i64, Seq<char>)>,
        size: int,
    ) -> (StoreView, Result<Seq<AuditRecordView>, StoreError>) {
        let (s, gate) = self.checkpoint_clock(c);
        match gate {
            Err(error) => (s, Err(error)),
            Ok(()) => (
                s,
                Ok(
                    page(
                        ordered(
                            selected(
                                s.audit_events,
                                event_ahead(s.tenant_id, cursor),
                                audit_of(),
                            ),
                            newest_first(),
                        ),
                        size,
                    ),
                ),
            ),
        }
    }
}

fn readable_metadata(text: &str) -> (metadata: String)
    ensures
        metadata@ == read_metadata(text@),
{
    if is_json(text) {
        text.to_owned()
    } else {
        "null".to_owned()
    }
}

impl Store {
    /// List the steps of an exchange, the oldest first.
    pub fn list_exchange_lifecycle(
        &mut self,
        reading: &ClockReading,
        exchange_id: &str,
        limit: u32,
    ) -> (reply: Result<Vec<AuditRecord>, StoreError>)
        ensures
            (final(self)@, answer_rows(reply)) == old(self)@.list_exchange_lifecycle(
                reading@,
                exchange_id@,
                limit,
            ),
    {
        if let Err(error) = self.checkpoint_clock(reading) {
            return Err(error);
        }
        let size: usize = clamp_limit(limit, 200);
        let tenant_id = &self.tenant_id;
        let found = select_rows(
            &self.exchange_lifecycle,
            |row: &LifecycleRow| -> (b: bool)
                ensures b == step_in(tenant_id@, exchange_id@)(row@)
                { same(&row.tenant_id, tenant_id) && is_text(&row.exchange_id, exchange_id) },
            |row: &LifecycleRow| -> (record: AuditRecord)
                ensures record@ == step_of(exchange_id@)(row@)
                {
                    AuditRecord {
                        id: row.id.clone(),
                        workspace_id: row.tenant_id.clone(),
                        event_type: row.event.clone(),
                        actor_id: copy_optional(&row.actor_id),
                        actor_type: "local".to_owned(),
                        resource_id: Some(exchange_id.to_owned()),
                        metadata: readable_metadata(&row.metadata_json),
                        created_at_ms: row.created_at_ms,
                    }
                },
            Ghost(step_in(tenant_id@, exchange_id@)),
            Ghost(step_of(exchange_id@)),
        );
        let sorted = order_rows(
            found,
            |a: &AuditRecord, b: &AuditRecord| -> (less: bool)
                ensures less == oldest_first()(a@, b@)
                { is_before(a.created_at_ms, &a.id, b.created_at_ms, &b.id) },
            Ghost(oldest_first()),
        );
        Ok(page_rows(sorted, size))
    }

    /// Append a step in the life of an exchange.
    pub fn append_lifecycle(&mut self, reading: &ClockReading, record: &LifecycleRecord) -> (reply:
        Result<(), StoreError>)
        ensures
            (final(self)@, reply) == old(self)@.append_lifecycle(reading@, record@),
    {
        if let Err(error) = self.checkpoint_clock(reading) {
            return Err(error);
        }
        let created_at_ms: i64 = match self.now(reading.now_ms) {
            Some(now_ms) => now_ms,
            None => {
                return Err(StoreError::Database(DatabaseFault::ClockBehind));
            },
        };
        let id = &record.record_id;
        let taken = any_row(
            &self.exchange_lifecycle,
            |row: &LifecycleRow| -> (b: bool)
                ensures b == step_with(id@)(row@)
                { same(&row.id, id) },
            Ghost(step_with(id@)),
        );
        if taken {
            return Err(StoreError::Database(DatabaseFault::DuplicateKey));
        }
        let row = LifecycleRow {
            id: record.record_id.clone(),
            tenant_id: self.tenant_id.clone(),
            exchange_id: copy_optional(&record.exchange_id),
            event: record.event_type.clone(),
            actor_id: copy_optional(&record.actor_id),
            metadata_json: match &record.metadata {
                Some(text) => text.clone(),
                None => "null".to_owned(),
            },
            created_at_ms,
        };
        push_row(&mut self.exchange_lifecycle, row);
        Ok(())
    }

    /// Append an audit event under a given identifier.
    pub fn append_audit_with_id(
        &mut self,
        reading: &ClockReading,
        id: &str,
        event_type: &str,
        actor_type: &str,
        actor_id: Option<&str>,
        target_type: &str,
        target_id: Option<&str>,
        metadata_json: &str,
    ) -> (reply: Result<(), StoreError>)
        ensures
            (final(self)@, reply) == old(self)@.append_audit(
                reading@,
                id@,
                event_type@,
                actor_type@,
                optional_str(actor_id),
                target_type@,
                optional_str(target_id),
                metadata_json@,
            ),
    {
        if let Err(error) = self.checkpoint_clock(reading) {
            return Err(error);
        }
        let created_at_ms: i64 = match self.now(reading.now_ms) {
            Some(now_ms) => now_ms,
            None => {
                return Err(StoreError::Database(DatabaseFault::ClockBehind));
            },
        };
        if self.audit_id_taken(id) {
            return Err(StoreError::Database(DatabaseFault::DuplicateKey));
        }
        let row = AuditRow {
            id: id.to_owned(),
            tenant_id: self.tenant_id.clone(),
            actor_type: actor_type.to_owned(),
            actor_id: own(actor_id),
            action: event_type.to_owned(),
            target_type: target_type.to_owned(),
            target_id: own(target_id),
            metadata_json: metadata_json.to_owned(),
            created_at_ms,
        };
        push_row(&mut self.audit_events, row);
        Ok(())
    }

    /// Append an audit event under a fresh identifier. The metadata is JSON.
    pub fn append_audit(
        &mut self,
        reading: &ClockReading,
        event_type: &str,
        actor_type: &str,
        actor_id: Option<&str>,
        target_type: &str,
        target_id: Option<&str>,
        metadata_json: &str,
    ) -> (reply: Result<(), StoreError>)
        ensures
            exists|id: Seq<char>| #[trigger] is_hex_id(id) && (final(self)@, reply) == old(
                self,
            )@.append_audit(
                reading@,
                id,
                event_type@,
                actor_type@,
                optional_str(actor_id),
                target_type@,
                optional_str(target_id),
                metadata_json@,
            ),
    {
        let id = new_hex_id();
        self.append_audit_with_id(
            reading,
            &id,
            event_type,
            actor_type,
            actor_id,
            target_type,
            target_id,
            metadata_json,
        )
    }

    fn audit_page(
        &mut self,
        reading: &ClockReading,
        cursor: Option<(i64, String)>,
        size: usize,
    ) -> (reply: Result<Vec<AuditRecord>, StoreError>)
        ensures
            (final(self)@, answer_rows(reply)) == old(self)@.audit_page(
                reading@,
                cursor_view(cursor),
                size as int,
            ),
    {
        if let Err(error) = self.checkpoint_clock(reading) {
            return Err(error);
        }
        let tenant_id = &self.tenant_id;
        let ghost shown = event_ahead(tenant_id@, cursor_view(cursor));
        let found = select_rows(
            &self.audit_events,
            |row: &AuditRow| -> (b: bool)
                ensures b == shown(row@)
                {
                    same(&row.tenant_id, tenant_id) && is_ahead(
                        &cursor,
                        row.created_at_ms,
                        &row.id,
                    )
                },
            |row: &AuditRow| -> (record: AuditRecord)
                ensures record@ == audit_of()(row@)
                {
                    AuditRecord {
                        id: row.id.clone(),
                        workspace_id: row.tenant_id.clone(),
                        event_type: row.action.clone(),
                        actor_id: copy_optional(&row.actor_id),
                        actor_type: row.actor_type.clone(),
                        resource_id: copy_optional(&row.target_id),
                        metadata: readable_metadata(&row.metadata_json),
                        created_at_ms: row.created_at_ms,
                    }
                },
            Ghost(shown),
            Ghost(audit_of()),
        );
        let sorted = order_rows(
            found,
            |a: &AuditRecord, b: &AuditRecord| -> (less: bool)
                ensures less == newest_first()(a@, b@)
                { is_before(b.created_at_ms, &b.id, a.created_at_ms, &a.id) },
            Ghost(newest_first()),
        );
        Ok(page_rows(sorted, size))
    }

    /// List the newest audit events.
    pub fn list_audit(&mut self, reading: &ClockReading, limit: u32) -> (reply: Result<
        Vec<AuditRecord>,
        StoreError,
    >)
        ensures
            (final(self)@, answer_rows(reply)) == old(self)@.audit_page(
                reading@,
                None,
                page_size(limit, 200),
            ),
    {
        let size: usize = clamp_limit(limit, 200);
        self.audit_page(reading, None, size)
    }

    /// List the newest audit events behind a cursor.
    pub fn list_audit_after_cursor(
        &mut self,
        reading: &ClockReading,
        cursor: Option<(i64, String)>,
        limit: u32,
    ) -> (reply: Result<Vec<AuditRecord>, StoreError>)
        ensures
            (final(self)@, answer_rows(reply)) == old(self)@.audit_page(
                reading@,
                cursor_view(cursor),
                page_size(limit, 101),
            ),
    {
        let size: usize = clamp_limit(limit, 101);
        self.audit_page(reading, cursor, size)
    }
}

} // verus!
