//! Workloads and their registrations.

use crate::clock::{ClockReading, ClockReadingView};
use crate::error::{DatabaseFault, StoreError};
use crate::limits::{clamp_limit, page_size};
use crate::node_authority::{active_node, revoke_workload_row, workload_revoked};
use crate::paging::{ahead, cursor_view, is_ahead, is_before, place_before};
use crate::records::{WorkloadRecord, WorkloadRecordView};
use crate::relation::{
    answer_option, answer_rows, any, any_row, attempt_rows, attempted, count, count_rows, find_row,
    first, option_view, order_rows, ordered, page, page_rows, push_row, rows_view, select_rows,
    selected, Duplicate,
};
use crate::store::{stepped, Store, StoreView};
use crate::tables::{NodeRow, NodeRowView, WorkloadRow, WorkloadRowView};
use crate::text::{optional_str, same};
use vstd::prelude::*;

verus! {

/// The workload with an identifier.
pub open spec fn workload_with(id: Seq<char>, tenant_id: Seq<char>) -> spec_fn(
    WorkloadRowView,
) -> bool {
    |row: WorkloadRowView| row.record.id == id && row.tenant_id == tenant_id
}

/// The workload with an identifier, of any tenant.
pub open spec fn workload_taken(id: Seq<char>) -> spec_fn(WorkloadRowView) -> bool {
    |row: WorkloadRowView| row.record.id == id
}

/// The workload of a row.
pub open spec fn workload_of() -> spec_fn(WorkloadRowView) -> WorkloadRecordView {
    |row: WorkloadRowView| row.record
}

/// The workloads of a tenant that a list shows: of one node where one is given,
/// and behind the cursor.
pub open spec fn listed_workload(
    tenant_id: Seq<char>,
    node_id: Option<Seq<char>>,
    cursor: Option<(i64, Seq<char>)>,
) -> spec_fn(WorkloadRowView) -> bool {
    |row: WorkloadRowView|
        row.tenant_id == tenant_id && (node_id is None || Some(row.record.node_id) == node_id)
            && ahead(cursor, row.record.created_at_ms, row.record.id)
}

/// Workloads by creation and identifier, the newest first.
pub open spec fn newest_workload() -> spec_fn(WorkloadRecordView, WorkloadRecordView) -> bool {
    |a: WorkloadRecordView, b: WorkloadRecordView|
        place_before(b.created_at_ms, b.id, a.created_at_ms, a.id)
}

/// The active workload with an identifier and a version.
pub open spec fn active_workload(id: Seq<char>, tenant_id: Seq<char>, version: i64) -> spec_fn(
    WorkloadRowView,
) -> bool {
    |row: WorkloadRowView|
        row.record.id == id && row.tenant_id == tenant_id && row.record.status == "active"@
            && row.record.version == version
}

/// The active workload with an identifier and a version, on an active node.
pub open spec fn editable_workload(
    nodes: Seq<NodeRowView>,
    id: Seq<char>,
    tenant_id: Seq<char>,
    version: i64,
) -> spec_fn(WorkloadRowView) -> bool {
    |row: WorkloadRowView|
        active_workload(id, tenant_id, version)(row) && any(
            nodes,
            active_node(row.record.node_id, tenant_id),
        )
}

/// A workload with another registration, unless one of its versions is
/// exhausted.
pub open spec fn workload_edited(
    unit: Seq<char>,
    account: Seq<char>,
    consumption_mode: Seq<char>,
    local_ceiling_seconds: i64,
) -> spec_fn(WorkloadRowView) -> Option<WorkloadRowView> {
    |row: WorkloadRowView|
        if row.record.version == i64::MAX || row.record.registration_version == i64::MAX {
            None
        } else {
            Some(
                WorkloadRowView {
                    record: WorkloadRecordView {
                        unit,
                        account,
                        consumption_mode,
                        local_ceiling_seconds,
                        registration_version: (row.record.registration_version + 1) as i64,
                        version: (row.record.version + 1) as i64,
                        ..row.record
                    },
                    ..row
                },
            )
        }
}

impl StoreView {
    /// List workloads.
    pub open spec fn list_workloads(
        self,
        c: ClockReadingView,
        node_id: Option<Seq<char>>,
        limit: u32,
        cursor: Option<(i64, Seq<char>)>,
    ) -> (StoreView, Result<Seq<WorkloadRecordView>, StoreError>) {
        let (s, gate) = self.checkpoint_clock(c);
        match gate {
            Err(error) => (s, Err(error)),
            Ok(()) => (
                s,
                Ok(
                    page(
                        ordered(
                            selected(
                                s.workloads,
                                listed_workload(s.tenant_id, node_id, cursor),
                                workload_of(),
                            ),
                            newest_workload(),
                        ),
                        page_size(limit, 101),
                    ),
                ),
            ),
        }
    }

    /// Read a workload.
    pub open spec fn workload_by_id(self, c: ClockReadingView, id: Seq<char>) -> (
        StoreView,
        Result<Option<WorkloadRecordView>, StoreError>,
    ) {
        let (s, gate) = self.checkpoint_clock(c);
        match gate {
            Err(error) => (s, Err(error)),
            Ok(()) => (
                s,
                Ok(
                    match first(s.workloads, workload_with(id, s.tenant_id)) {
                        Some(row) => Some(row.record),
                        None => None,
                    },
                ),
            ),
        }
    }

    /// The state with the signed policy and then the signed registration of a
    /// workload sent to its node.
    pub open spec fn send_registration(
        self,
        node_id: Seq<char>,
        registration_json: Seq<char>,
        policy_json: Seq<char>,
        now: Option<i64>,
    ) -> Result<StoreView, StoreError> {
        match self.enqueue(node_id, policy_json, now) {
            Err(error) => Err(error),
            Ok(sent) => sent.enqueue(node_id, registration_json, now),
        }
    }

    /// The state with a new workload on an active node.
    pub open spec fn insert_workload(
        self,
        record: WorkloadRecordView,
        created_by: Seq<char>,
        registration_json: Seq<char>,
        policy_json: Seq<char>,
        now: Option<i64>,
    ) -> Result<StoreView, StoreError> {
        match now {
            None => Err(StoreError::Database(DatabaseFault::ClockBehind)),
            Some(now_ms) => if any(self.workloads, workload_taken(record.id)) {
                Err(StoreError::Database(DatabaseFault::DuplicateKey))
            } else {
                StoreView {
                    workloads: self.workloads.push(
                        WorkloadRowView {
                            tenant_id: self.tenant_id,
                            created_by,
                            record: WorkloadRecordView {
                                registration_version: 1,
                                status: "active"@,
                                created_at_ms: now_ms,
                                revoked_at_ms: None,
                                version: 1,
                                ..record
                            },
                        },
                    ),
                    ..self
                }.send_registration(record.node_id, registration_json, policy_json, now)
            },
        }
    }

    /// Register a workload: what happens to the state, and whether the node is
    /// active.
    pub open spec fn create_workload(
        self,
        c: ClockReadingView,
        record: WorkloadRecordView,
        created_by: Seq<char>,
        registration_json: Seq<char>,
        policy_json: Seq<char>,
    ) -> (StoreView, Result<bool, StoreError>) {
        let (s, gate) = self.checkpoint_clock(c);
        match gate {
            Err(error) => (s, Err(error)),
            Ok(()) => if count(s.nodes, active_node(record.node_id, s.tenant_id)) != 1 {
                (s, Ok(false))
            } else {
                match s.insert_workload(
                    record,
                    created_by,
                    registration_json,
                    policy_json,
                    s.now(c.now_ms),
                ) {
                    Err(error) => (s, Err(error)),
                    Ok(after) => (after, Ok(true)),
                }
            },
        }
    }

    /// The state with changed workloads, and whether exactly one was meant. Only
    /// then is the new registration sent.
    pub open spec fn rewrite_workload(
        self,
        hit: spec_fn(WorkloadRowView) -> bool,
        change: spec_fn(WorkloadRowView) -> Option<WorkloadRowView>,
        node_id: Seq<char>,
        registration_json: Seq<char>,
        policy_json: Seq<char>,
        now: Option<i64>,
    ) -> Result<(StoreView, bool), StoreError> {
        match attempted(self.workloads, hit, change) {
            None => Err(StoreError::Database(DatabaseFault::OutOfRange)),
            Some(workloads) => {
                let changed = StoreView { workloads, ..self };
                if count(self.workloads, hit) != 1 {
                    Ok((changed, false))
                } else {
                    match changed.send_registration(node_id, registration_json, policy_json, now) {
                        Err(error) => Err(error),
                        Ok(after) => Ok((after, true)),
                    }
                }
            },
        }
    }

    /// Change the registration of a workload.
    pub open spec fn update_workload(
        self,
        c: ClockReadingView,
        id: Seq<char>,
        expected_version: i64,
        unit: Seq<char>,
        account: Seq<char>,
        consumption_mode: Seq<char>,
        local_ceiling_seconds: i64,
        node_id: Seq<char>,
        registration_json: Seq<char>,
        policy_json: Seq<char>,
    ) -> (StoreView, Result<bool, StoreError>) {
        let (s, gate) = self.checkpoint_clock(c);
        match gate {
            Err(error) => (s, Err(error)),
            Ok(()) => match s.rewrite_workload(
                editable_workload(s.nodes, id, s.tenant_id, expected_version),
                workload_edited(unit, account, consumption_mode, local_ceiling_seconds),
                node_id,
                registration_json,
                policy_json,
                s.now(c.now_ms),
            ) {
                Err(error) => (s, Err(error)),
                Ok((after, changed)) => (after, Ok(changed)),
            },
        }
    }

    /// Revoke a workload.
    pub open spec fn revoke_workload(
        self,
        c: ClockReadingView,
        id: Seq<char>,
        node_id: Seq<char>,
        expected_version: i64,
        registration_json: Seq<char>,
        policy_json: Seq<char>,
    ) -> (StoreView, Result<bool, StoreError>) {
        let (s, gate) = self.checkpoint_clock(c);
        match gate {
            Err(error) => (s, Err(error)),
            Ok(()) => match s.rewrite_workload(
                active_workload(id, s.tenant_id, expected_version),
                workload_revoked(s.now(c.now_ms)),
                node_id,
                registration_json,
                policy_json,
                s.now(c.now_ms),
            ) {
                Err(error) => (s, Err(error)),
                Ok((after, changed)) => (after, Ok(changed)),
            },
        }
    }
}

fn is_active_node(row: &NodeRow, id: &str, tenant_id: &str) -> (yes: bool)
    ensures
        yes == active_node(id@, tenant_id@)(row@),
{
    same(&row.id, id) && same(&row.tenant_id, tenant_id) && same(&row.status, "active")
}

fn is_active_workload(row: &WorkloadRow, id: &str, tenant_id: &str, version: i64) -> (yes: bool)
    ensures
        yes == active_workload(id@, tenant_id@, version)(row@),
{
    same(&row.record.id, id) && same(&row.tenant_id, tenant_id) && same(
        &row.record.status,
        "active",
    ) && row.record.version == version
}

impl Store {
    /// List workloads, the newest first, of one node where one is given.
    pub fn list_workloads(
        &mut self,
        reading: &ClockReading,
        node_id: Option<&str>,
        limit: u32,
        cursor: Option<(i64, String)>,
    ) -> (reply: Result<Vec<WorkloadRecord>, StoreError>)
        ensures
            (final(self)@, answer_rows(reply)) == old(self)@.list_workloads(
                reading@,
                optional_str(node_id),
                limit,
                cursor_view(cursor),
            ),
    {
        if let Err(error) = self.checkpoint_clock(reading) {
            return Err(error);
        }
        let size: usize = clamp_limit(limit, 101);
        let tenant_id = &self.tenant_id;
        let ghost shown = listed_workload(tenant_id@, optional_str(node_id), cursor_view(cursor));
        let found = select_rows(
            &self.workloads,
            |row: &WorkloadRow| -> (b: bool)
                ensures b == shown(row@)
                {
                    let here = match node_id {
                        Some(node_id) => same(&row.record.node_id, node_id),
                        None => true,
                    };
                    same(&row.tenant_id, tenant_id) && here && is_ahead(
                        &cursor,
                        row.record.created_at_ms,
                        &row.record.id,
                    )
                },
            |row: &WorkloadRow| -> (record: WorkloadRecord)
                ensures record@ == workload_of()(row@)
                { row.record.duplicate() },
            Ghost(shown),
            Ghost(workload_of()),
        );
        let sorted = order_rows(
            found,
            |a: &WorkloadRecord, b: &WorkloadRecord| -> (less: bool)
                ensures less == newest_workload()(a@, b@)
                { is_before(b.created_at_ms, &b.id, a.created_at_ms, &a.id) },
            Ghost(newest_workload()),
        );
        Ok(page_rows(sorted, size))
    }

    /// Read a workload.
    pub fn workload_by_id(&mut self, reading: &ClockReading, id: &str) -> (reply: Result<
        Option<WorkloadRecord>,
        StoreError,
    >)
        ensures
            (final(self)@, answer_option(reply)) == old(self)@.workload_by_id(reading@, id@),
    {
        if let Err(error) = self.checkpoint_clock(reading) {
            return Err(error);
        }
        let tenant_id = &self.tenant_id;
        let found = find_row(
            &self.workloads,
            |row: &WorkloadRow| -> (b: bool)
                ensures b == workload_with(id@, tenant_id@)(row@)
                { same(&row.record.id, id) && same(&row.tenant_id, tenant_id) },
            Ghost(workload_with(id@, tenant_id@)),
        );
        match found {
            Some(at) => Ok(Some(self.workloads[at].record.duplicate())),
            None => Ok(None),
        }
    }

    fn send_registration(
        &mut self,
        node_id: &str,
        registration_json: &str,
        policy_json: &str,
        now: Option<i64>,
    ) -> (reply: Result<(), StoreError>)
        ensures
            stepped(
                old(self)@.send_registration(node_id@, registration_json@, policy_json@, now),
                final(self)@,
                reply,
            ),
    {
        if let Err(error) = self.enqueue_node_document(node_id, policy_json, now) {
            return Err(error);
        }
        self.enqueue_node_document(node_id, registration_json, now)
    }

    fn insert_workload(
        &mut self,
        record: &WorkloadRecord,
        created_by: &str,
        registration_json: &str,
        policy_json: &str,
        now: Option<i64>,
    ) -> (reply: Result<(), StoreError>)
        ensures
            stepped(
                old(self)@.insert_workload(
                    record@,
                    created_by@,
                    registration_json@,
                    policy_json@,
                    now,
                ),
                final(self)@,
                reply,
            ),
    {
        let created_at_ms: i64 = match now {
            Some(now_ms) => now_ms,
            None => {
                return Err(StoreError::Database(DatabaseFault::ClockBehind));
            },
        };
        let id = &record.id;
        let taken = any_row(
            &self.workloads,
            |row: &WorkloadRow| -> (b: bool)
                ensures b == workload_taken(id@)(row@)
                { same(&row.record.id, id) },
            Ghost(workload_taken(id@)),
        );
        if taken {
            return Err(StoreError::Database(DatabaseFault::DuplicateKey));
        }
        let mut fresh = record.duplicate();
        fresh.registration_version = 1;
        fresh.status = "active".to_owned();
        fresh.created_at_ms = created_at_ms;
        fresh.revoked_at_ms = None;
        fresh.version = 1;
        let row = WorkloadRow {
            tenant_id: self.tenant_id.clone(),
            created_by: created_by.to_owned(),
            record: fresh,
        };
        push_row(&mut self.workloads, row);
        self.send_registration(&record.node_id, registration_json, policy_json, now)
    }

    /// Register a workload on an active node and send the node its signed policy
    /// and registration. Returns whether the node is active.
    pub fn create_workload(
        &mut self,
        reading: &ClockReading,
        record: &WorkloadRecord,
        created_by: &str,
        registration_envelope_json: &str,
        policy_envelope_json: &str,
    ) -> (reply: Result<bool, StoreError>)
        ensures
            (final(self)@, reply) == old(self)@.create_workload(
                reading@,
                record@,
                created_by@,
                registration_envelope_json@,
                policy_envelope_json@,
            ),
    {
        if let Err(error) = self.checkpoint_clock(reading) {
            return Err(error);
        }
        let tenant_id = &self.tenant_id;
        let node_id = &record.node_id;
        let nodes: usize = count_rows(
            &self.nodes,
            |row: &NodeRow| -> (b: bool)
                ensures b == active_node(node_id@, tenant_id@)(row@)
                { is_active_node(row, node_id, tenant_id) },
            Ghost(active_node(node_id@, tenant_id@)),
        );
        if nodes != 1 {
            return Ok(false);
        }
        let now = self.now(reading.now_ms);
        let mut transaction = self.duplicate();
        match transaction.insert_workload(
            record,
            created_by,
            registration_envelope_json,
            policy_envelope_json,
            now,
        ) {
            Ok(()) => {
                *self = transaction;
                Ok(true)
            },
            Err(error) => Err(error),
        }
    }

    /// Change the registration of an active workload on an active node, and
    /// send the node its signed policy and registration. Returns whether the
    /// workload is at the expected version.
    pub fn update_workload(
        &mut self,
        reading: &ClockReading,
        id: &str,
        expected_version: i64,
        unit: &str,
        account: &str,
        consumption_mode: &str,
        local_ceiling_seconds: i64,
        node_id: &str,
        registration_envelope_json: &str,
        policy_envelope_json: &str,
    ) -> (reply: Result<bool, StoreError>)
        ensures
            (final(self)@, reply) == old(self)@.update_workload(
                reading@,
                id@,
                expected_version,
                unit@,
                account@,
                consumption_mode@,
                local_ceiling_seconds,
                node_id@,
                registration_envelope_json@,
                policy_envelope_json@,
            ),
    {
        if let Err(error) = self.checkpoint_clock(reading) {
            return Err(error);
        }
        let now = self.now(reading.now_ms);
        let mut transaction = self.duplicate();
        let tenant_id = &transaction.tenant_id;
        let nodes = &transaction.nodes;
        let ghost hit = editable_workload(
            rows_view(nodes@),
            id@,
            tenant_id@,
            expected_version,
        );
        let ghost change = workload_edited(
            unit@,
            account@,
            consumption_mode@,
            local_ceiling_seconds,
        );
        let changed = attempt_rows(
            &mut transaction.workloads,
            |row: &WorkloadRow| -> (b: bool)
                ensures b == hit(row@)
                {
                    let home = &row.record.node_id;
                    is_active_workload(row, id, tenant_id, expected_version) && any_row(
                        nodes,
                        |node: &NodeRow| -> (c: bool)
                            ensures c == active_node(home@, tenant_id@)(node@)
                            { is_active_node(node, home, tenant_id) },
                        Ghost(active_node(home@, tenant_id@)),
                    )
                },
            |row: &WorkloadRow| -> (next: Option<WorkloadRow>)
                ensures option_view(next) == change(row@)
                {
                    if row.record.version == i64::MAX || row.record.registration_version
                        == i64::MAX {
                        return None;
                    }
                    let mut next = row.duplicate();
                    next.record.unit = unit.to_owned();
                    next.record.account = account.to_owned();
                    next.record.consumption_mode = consumption_mode.to_owned();
                    next.record.local_ceiling_seconds = local_ceiling_seconds;
                    next.record.registration_version = row.record.registration_version + 1;
                    next.record.version = row.record.version + 1;
                    Some(next)
                },
            Ghost(hit),
            Ghost(change),
        );
        match changed {
            None => Err(StoreError::Database(DatabaseFault::OutOfRange)),
            Some(rows) => {
                if rows != 1 {
                    *self = transaction;
                    return Ok(false);
                }
                match transaction.send_registration(
                    node_id,
                    registration_envelope_json,
                    policy_envelope_json,
                    now,
                ) {
                    Ok(()) => {
                        *self = transaction;
                        Ok(true)
                    },
                    Err(error) => Err(error),
                }
            },
        }
    }

    /// Revoke an active workload and send its node the signed policy and
    /// registration. Returns whether the workload is at the expected version.
    pub fn revoke_workload(
        &mut self,
        reading: &ClockReading,
        id: &str,
        node_id: &str,
        expected_version: i64,
        registration_envelope_json: &str,
        policy_envelope_json: &str,
    ) -> (reply: Result<bool, StoreError>)
        ensures
            (final(self)@, reply) == old(self)@.revoke_workload(
                reading@,
                id@,
                node_id@,
                expected_version,
                registration_envelope_json@,
                policy_envelope_json@,
            ),
    {
        if let Err(error) = self.checkpoint_clock(reading) {
            return Err(error);
        }
        let now = self.now(reading.now_ms);
        let mut transaction = self.duplicate();
        let tenant_id = &transaction.tenant_id;
        let ghost hit = active_workload(id@, tenant_id@, expected_version);
        let changed = attempt_rows(
            &mut transaction.workloads,
            |row: &WorkloadRow| -> (b: bool)
                ensures b == hit(row@)
                { is_active_workload(row, id, tenant_id, expected_version) },
            |row: &WorkloadRow| -> (next: Option<WorkloadRow>)
                ensures option_view(next) == workload_revoked(now)(row@)
                { revoke_workload_row(row, now) },
            Ghost(hit),
            Ghost(workload_revoked(now)),
        );
        match changed {
            None => Err(StoreError::Database(DatabaseFault::OutOfRange)),
            Some(rows) => {
                if rows != 1 {
                    *self = transaction;
                    return Ok(false);
                }
                match transaction.send_registration(
                    node_id,
                    registration_envelope_json,
                    policy_envelope_json,
                    now,
                ) {
                    Ok(()) => {
                        *self = transaction;
                        Ok(true)
                    },
                    Err(error) => Err(error),
                }
            },
        }
    }
}

} // verus!
