//! The schema that the tables must have, and how a controller is brought up on
//! them.

use crate::clock::{
    ClockSample, ClockSampleView, PersistedClockAnchor, PersistedClockAnchorView, StartupClockCheck,
};
use crate::error::StoreError;
use crate::records::ClockReconciliation;
use crate::relation::{any, any_row, option_view, rows_view, Duplicate};
use crate::store::{ControllerMeta, ControllerMetaView, Store, StoreView};
use crate::text::{begins_with, copy_optional, holds_text, same, texts};
use vstd::prelude::*;

verus! {

/// The version of the schema that this library works on.
pub const SCHEMA_VERSION: i64 = 9;

/// How far the clocks may drift where nothing else is configured.
pub const DEFAULT_CLOCK_TOLERANCE_MS: u64 = 2_000;

/// The databases that hold the tables.
#[derive(Debug, Clone, Copy, PartialEq, Eq, Structural)]
pub enum DatabaseKind {
    Sqlite,
    Postgres,
}

/// A table that exists.
#[derive(Debug, PartialEq, Eq)]
pub struct TableShape {
    pub name: String,
    pub columns: Vec<String>,
}

/// What a `TableShape` stands for.
#[verifier::ext_equal]
pub struct TableShapeView {
    pub name: Seq<char>,
    pub columns: Seq<Seq<char>>,
}

impl View for TableShape {
    type V = TableShapeView;

    open spec fn view(&self) -> TableShapeView {
        TableShapeView { name: self.name@, columns: texts(self.columns@) }
    }
}

/// What a database holds before it is migrated: its tables, and the version in
/// the meta row where there is one.
#[derive(Debug, PartialEq, Eq)]
pub struct SchemaSnapshot {
    pub tables: Vec<TableShape>,
    pub version: Option<i64>,
}

/// What a `SchemaSnapshot` stands for.
#[verifier::ext_equal]
pub struct SchemaSnapshotView {
    pub tables: Seq<TableShapeView>,
    pub version: Option<i64>,
}

impl View for SchemaSnapshot {
    type V = SchemaSnapshotView;

    open spec fn view(&self) -> SchemaSnapshotView {
        SchemaSnapshotView { tables: rows_view(self.tables@), version: self.version }
    }
}

/// A step of a migration.
#[derive(Debug, Clone, Copy, PartialEq, Eq)]
pub enum MigrationStep {
    /// Run the script of a version, which leaves what exists as it is.
    Script(&'static str),
    /// Add the columns that a table of an older version lacks.
    Complete(&'static str),
}

/// What a connection starts from.
#[derive(Debug, PartialEq, Eq)]
pub struct Startup {
    /// Where the database is.
    pub url: String,
    /// What the database held before it was migrated.
    pub schema: SchemaSnapshot,
    /// The meta row, where there is one.
    pub meta: Option<ControllerMeta>,
    /// The clock row, where there is one.
    pub clock: Option<PersistedClockAnchor>,
    /// The tenant of a controller that has no meta row yet.
    pub candidate_tenant_id: String,
    /// The database clock when the meta row is written.
    pub meta_ms: i64,
    /// The host clock, absent where it cannot be read.
    pub sample: Option<ClockSample>,
    /// The database clock when the clock row is written.
    pub clock_ms: i64,
}

/// What a `Startup` stands for.
#[verifier::ext_equal]
pub struct StartupView {
    pub url: Seq<char>,
    pub schema: SchemaSnapshotView,
    pub meta: Option<ControllerMetaView>,
    pub clock: Option<PersistedClockAnchorView>,
    pub candidate_tenant_id: Seq<char>,
    pub meta_ms: i64,
    pub sample: Option<ClockSampleView>,
    pub clock_ms: i64,
}

impl View for Startup {
    type V = StartupView;

    open spec fn view(&self) -> StartupView {
        StartupView {
            url: self.url@,
            schema: self.schema@,
            meta: option_view(self.meta),
            clock: option_view(self.clock),
            candidate_tenant_id: self.candidate_tenant_id@,
            meta_ms: self.meta_ms,
            sample: option_view(self.sample),
            clock_ms: self.clock_ms,
        }
    }
}

/// The database that an address leads to.
pub open spec fn kind_of(url: Seq<char>) -> Result<DatabaseKind, StoreError> {
    if "sqlite:"@.is_prefix_of(url) {
        Ok(DatabaseKind::Sqlite)
    } else if "postgres://"@.is_prefix_of(url) || "postgresql://"@.is_prefix_of(url) {
        Ok(DatabaseKind::Postgres)
    } else {
        Err(StoreError::InvalidInput("BLINDPASS_DATABASE_URL"))
    }
}

/// The tables that a version introduced, or changed.
pub open spec fn introduced_tables(version: int) -> Seq<Seq<char>> {
    if version == 1 {
        seq![
            "controller_meta"@,
            "operators"@,
            "bootstrap_tokens"@,
            "operator_sessions"@,
            "agents"@,
            "secret_requests"@,
            "exchanges"@,
            "approvals"@,
            "exchange_lifecycle"@,
            "policies"@,
            "audit_events"@,
            "rate_windows"@,
            "quota_counters"@,
        ]
    } else if version == 2 {
        seq![
            "idempotency_keys"@,
        ]
    } else if version == 3 {
        seq![
            "controller_clock"@,
        ]
    } else if version == 4 {
        seq![
            "controller_clock"@,
        ]
    } else if version == 5 {
        seq![
            "enrollment_requests"@,
            "nodes"@,
            "node_key_history"@,
            "node_sessions"@,
            "workloads"@,
            "fleet_policies"@,
            "operations"@,
            "operation_approvals"@,
            "grants"@,
            "grant_tombstones"@,
            "node_inbox"@,
            "node_events"@,
        ]
    } else if version == 6 {
        seq![
            "enrollment_requests"@,
        ]
    } else if version == 7 {
        seq![
            "node_challenges"@,
        ]
    } else if version == 8 {
        seq![
            "operation_approvals"@,
        ]
    } else if version == 9 {
        seq![
            "operations"@,
        ]
    } else {
        Seq::empty()
    }
}

/// The columns that a version added to the table that it changed.
pub open spec fn introduced_columns(version: int) -> Seq<Seq<char>> {
    if version == 4 {
        seq![
            "boot_id"@,
            "boottime_ms"@,
            "host_wall_ms"@,
            "fenced_at"@,
        ]
    } else if version == 6 {
        seq![
            "requested_name"@,
            "protocol_version"@,
            "capabilities_json"@,
        ]
    } else if version == 7 {
        seq![
            "nonce_hash"@,
            "key_version"@,
            "issuer_epoch"@,
            "capabilities_json"@,
            "capabilities_hash"@,
            "consumed_at"@,
        ]
    } else if version == 8 {
        seq![
            "decision_key_hash"@,
        ]
    } else if version == 9 {
        seq![
            "resource_id"@,
            "requested_ttl_seconds"@,
            "broker_event_key"@,
        ]
    } else {
        Seq::empty()
    }
}

/// The table that a version added columns to.
pub open spec fn changed_table(version: int) -> Seq<char> {
    if version == 4 {
        "controller_clock"@
    } else if version == 6 {
        "enrollment_requests"@
    } else if version == 7 {
        "node_challenges"@
    } else if version == 8 {
        "operation_approvals"@
    } else {
        "operations"@
    }
}

/// The table with a name.
pub open spec fn table_named(name: Seq<char>) -> spec_fn(TableShapeView) -> bool {
    |table: TableShapeView| table.name == name
}

/// The table with a name and a column.
pub open spec fn table_with_column(name: Seq<char>, column: Seq<char>) -> spec_fn(
    TableShapeView,
) -> bool {
    |table: TableShapeView| table.name == name && table.columns.contains(column)
}

impl SchemaSnapshotView {
    /// Whether a table exists.
    pub open spec fn has_table(self, name: Seq<char>) -> bool {
        any(self.tables, table_named(name))
    }

    /// Whether a table has a column.
    pub open spec fn has_column(self, table: Seq<char>, column: Seq<char>) -> bool {
        any(self.tables, table_with_column(table, column))
    }

    /// Whether everything that a version introduced is there.
    pub open spec fn has_version(self, version: int) -> bool {
        &&& forall|i: int|
            0 <= i < introduced_tables(version).len() ==> self.has_table(
                #[trigger] introduced_tables(version)[i],
            )
        &&& forall|i: int|
            0 <= i < introduced_columns(version).len() ==> self.has_column(
                changed_table(version),
                #[trigger] introduced_columns(version)[i],
            )
    }

    /// Whether the database can be migrated: it holds no controller yet, or one
    /// of a known version with everything that its version has.
    pub open spec fn supported(self) -> bool {
        !self.has_table("controller_meta"@) || match self.version {
            None => false,
            Some(version) => 1 <= version <= SCHEMA_VERSION && forall|v: int|
                1 <= v <= version ==> #[trigger] self.has_version(v),
        }
    }
}

/// The type of a column that an older SQLite database may lack.
pub open spec fn column_type(table: Seq<char>, column: Seq<char>) -> Seq<char> {
    if table == "controller_clock"@ {
        if column == "boot_id"@ {
            "TEXT"@
        } else {
            "INTEGER"@
        }
    } else if column == "requested_name"@ {
        "TEXT NOT NULL DEFAULT ''"@
    } else {
        "TEXT"@
    }
}

/// The columns that a table of an older SQLite database may lack.
pub open spec fn late_columns(table: Seq<char>) -> Seq<Seq<char>> {
    if table == "controller_clock"@ {
        introduced_columns(4)
    } else if table == "enrollment_requests"@ {
        introduced_columns(6)
    } else {
        Seq::empty()
    }
}

/// The statement that adds a column.
pub open spec fn add_column(table: Seq<char>, column: Seq<char>) -> Seq<char> {
    "ALTER TABLE "@ + table + " ADD COLUMN "@ + column + " "@ + column_type(table, column)
}

/// The statements that add those of some columns which a table lacks.
pub open spec fn column_statements(
    table: Seq<char>,
    columns: Seq<Seq<char>>,
    present: Seq<Seq<char>>,
) -> Seq<Seq<char>>
    decreases columns.len(),
{
    if columns.len() == 0 {
        Seq::empty()
    } else {
        let rest = column_statements(table, columns.drop_last(), present);
        if present.contains(columns.last()) {
            rest
        } else {
            rest.push(add_column(table, columns.last()))
        }
    }
}

/// The steps that bring a database up to the present version.
pub open spec fn migration(kind: DatabaseKind) -> Seq<MigrationStep> {
    match kind {
        DatabaseKind::Sqlite => seq![
            MigrationStep::Script("0001_init"),
            MigrationStep::Script("0002_admin_idempotency"),
            MigrationStep::Script("0003_controller_clock"),
            MigrationStep::Complete("controller_clock"),
            MigrationStep::Script("0005_fleet"),
            MigrationStep::Complete("enrollment_requests"),
            MigrationStep::Script("0007_node_channel"),
            MigrationStep::Script("0008_fleet_authorization"),
            MigrationStep::Script("0009_operation_bindings"),
        ],
        DatabaseKind::Postgres => seq![
            MigrationStep::Script("0001_init"),
            MigrationStep::Script("0002_admin_idempotency"),
            MigrationStep::Script("0003_controller_clock"),
            MigrationStep::Script("0004_clock_anchor"),
            MigrationStep::Script("0005_fleet"),
            MigrationStep::Script("0006_enrollment_submission"),
            MigrationStep::Script("0007_node_channel"),
            MigrationStep::Script("0008_fleet_authorization"),
            MigrationStep::Script("0009_operation_bindings"),
        ],
    }
}

/// The meta row of a controller: the one that exists, with its schema version
/// raised, or a new one.
pub open spec fn meta_row(
    found: Option<ControllerMetaView>,
    candidate_tenant_id: Seq<char>,
    now_ms: i64,
) -> ControllerMetaView {
    match found {
        Some(meta) => if meta.schema_version < SCHEMA_VERSION {
            ControllerMetaView { schema_version: SCHEMA_VERSION, ..meta }
        } else {
            meta
        },
        None => ControllerMetaView {
            schema_version: SCHEMA_VERSION,
            tenant_id: candidate_tenant_id,
            issuer_epoch: 1,
            created_at_ms: now_ms,
        },
    }
}

/// The clock row of a controller: the one that exists, or a new one.
pub open spec fn clock_row(
    found: Option<PersistedClockAnchorView>,
    sample: ClockSampleView,
    now_ms: i64,
) -> PersistedClockAnchorView {
    match found {
        Some(clock) => clock,
        None => PersistedClockAnchorView {
            last_observed_ms: now_ms,
            boot_id: sample.boot_id,
            boottime_ms: Some(sample.boottime_ms),
            host_wall_ms: Some(sample.host_wall_ms),
            fenced_at: None,
        },
    }
}

impl StoreView {
    /// The state of a controller on its tables, before its clock is brought up
    /// to the present.
    pub open spec fn prepare(self, startup: StartupView, tolerance_ms: u64) -> (
        StoreView,
        Result<(), StoreError>,
    ) {
        if tolerance_ms == 0 || tolerance_ms > i64::MAX {
            (self, Err(StoreError::InvalidInput("clock tolerance")))
        } else {
            match kind_of(startup.url) {
                Err(error) => (self, Err(error)),
                Ok(_) => if !startup.schema.supported() {
                    (self, Err(StoreError::UnsupportedSchemaVersion))
                } else {
                    let meta = meta_row(
                        startup.meta,
                        startup.candidate_tenant_id,
                        startup.meta_ms,
                    );
                    let owned = StoreView {
                        tenant_id: meta.tenant_id,
                        meta,
                        clock_tolerance_ms: tolerance_ms as i64,
                        clock_monitor: None,
                        ..self
                    };
                    match startup.sample {
                        None => (owned, Err(StoreError::ClockSourceUnavailable)),
                        Some(sample) => (
                            StoreView {
                                clock: clock_row(startup.clock, sample, startup.clock_ms),
                                ..owned
                            },
                            Ok(()),
                        ),
                    }
                },
            }
        }
    }

    /// What is left of the store when its clock was reconciled on a database, and
    /// what was removed.
    pub open spec fn reconcile_clock(
        self,
        url: Seq<char>,
        schema: SchemaSnapshotView,
        sample: Option<ClockSampleView>,
        database_ms: i64,
        audit_id: Seq<char>,
    ) -> (StoreView, Result<ClockReconciliation, StoreError>) {
        match kind_of(url) {
            Err(error) => (self, Err(error)),
            Ok(_) => if !schema.supported() {
                (self, Err(StoreError::UnsupportedSchemaVersion))
            } else if !schema.has_table("controller_clock"@) {
                (self, Err(StoreError::MissingState("controller clock")))
            } else {
                self.recover_clock(sample, database_ms, audit_id)
            },
        }
    }

    /// Bring a controller up on its tables.
    pub open spec fn connect_with_clock_source(
        self,
        startup: StartupView,
        tolerance_ms: u64,
        check: StartupClockCheck,
        database_ms: i64,
        monotonic_ms: u64,
        audit_id: Seq<char>,
    ) -> (StoreView, Result<(), StoreError>) {
        let (prepared, reply) = self.prepare(startup, tolerance_ms);
        match (reply, startup.sample) {
            (Err(error), _) => (prepared, Err(error)),
            (Ok(()), None) => (prepared, Err(StoreError::ClockSourceUnavailable)),
            (Ok(()), Some(sample)) => prepared.initialize_clock(
                sample,
                check,
                database_ms,
                monotonic_ms,
                audit_id,
            ),
        }
    }
}

/// Tell which database an address leads to.
pub fn database_kind(url: &str) -> (reply: Result<DatabaseKind, StoreError>)
    ensures
        reply == kind_of(url@),
{
    if begins_with(url, "sqlite:") {
        Ok(DatabaseKind::Sqlite)
    } else if begins_with(url, "postgres://") || begins_with(url, "postgresql://") {
        Ok(DatabaseKind::Postgres)
    } else {
        Err(StoreError::InvalidInput("BLINDPASS_DATABASE_URL"))
    }
}

fn names(list: &[&str]) -> (owned: Vec<String>)
    ensures
        owned@.len() == list@.len(),
        forall|i: int| 0 <= i < list@.len() ==> (#[trigger] owned@[i])@ == list@[i]@,
{
    let mut owned: Vec<String> = Vec::new();
    let mut i: usize = 0;
    while i < list.len()
        invariant
            i <= list@.len(),
            owned@.len() == i,
            forall|j: int| 0 <= j < i ==> (#[trigger] owned@[j])@ == list@[j]@,
        decreases list@.len() - i,
    {
        owned.push(list[i].to_owned());
        i = i + 1;
    }
    owned
}

fn tables_of_version(version: i64) -> (tables: Vec<String>)
    ensures
        texts(tables@) =~= introduced_tables(version as int),
{
    if version == 1 {
        names(
            &[
                "controller_meta",
                "operators",
                "bootstrap_tokens",
                "operator_sessions",
                "agents",
                "secret_requests",
                "exchanges",
                "approvals",
                "exchange_lifecycle",
                "policies",
                "audit_events",
                "rate_windows",
                "quota_counters",
            ],
        )
    } else if version == 2 {
        names(
            &[
                "idempotency_keys",
            ],
        )
    } else if version == 3 {
        names(
            &[
                "controller_clock",
            ],
        )
    } else if version == 4 {
        names(
            &[
                "controller_clock",
            ],
        )
    } else if version == 5 {
        names(
            &[
                "enrollment_requests",
                "nodes",
                "node_key_history",
                "node_sessions",
                "workloads",
                "fleet_policies",
                "operations",
                "operation_approvals",
                "grants",
                "grant_tombstones",
                "node_inbox",
                "node_events",
            ],
        )
    } else if version == 6 {
        names(
            &[
                "enrollment_requests",
            ],
        )
    } else if version == 7 {
        names(
            &[
                "node_challenges",
            ],
        )
    } else if version == 8 {
        names(
            &[
                "operation_approvals",
            ],
        )
    } else if version == 9 {
        names(
            &[
                "operations",
            ],
        )
    } else {
        names(&[])
    }
}

fn columns_of_version(version: i64) -> (columns: Vec<String>)
    ensures
        texts(columns@) =~= introduced_columns(version as int),
{
    if version == 4 {
        names(
            &[
                "boot_id",
                "boottime_ms",
                "host_wall_ms",
                "fenced_at",
            ],
        )
    } else if version == 6 {
        names(
            &[
                "requested_name",
                "protocol_version",
                "capabilities_json",
            ],
        )
    } else if version == 7 {
        names(
            &[
                "nonce_hash",
                "key_version",
                "issuer_epoch",
                "capabilities_json",
                "capabilities_hash",
                "consumed_at",
            ],
        )
    } else if version == 8 {
        names(
            &[
                "decision_key_hash",
            ],
        )
    } else if version == 9 {
        names(
            &[
                "resource_id",
                "requested_ttl_seconds",
                "broker_event_key",
            ],
        )
    } else {
        names(&[])
    }
}

fn table_of_version(version: i64) -> (table: &'static str)
    ensures
        table@ == changed_table(version as int),
{
    if version == 4 {
        "controller_clock"
    } else if version == 6 {
        "enrollment_requests"
    } else if version == 7 {
        "node_challenges"
    } else if version == 8 {
        "operation_approvals"
    } else {
        "operations"
    }
}

impl SchemaSnapshot {
    fn has_table(&self, name: &str) -> (yes: bool)
        ensures
            yes == self@.has_table(name@),
    {
        any_row(
            &self.tables,
            |table: &TableShape| -> (b: bool)
                ensures b == table_named(name@)(table@)
                { same(&table.name, name) },
            Ghost(table_named(name@)),
        )
    }

    fn has_column(&self, table: &str, column: &str) -> (yes: bool)
        ensures
            yes == self@.has_column(table@, column@),
    {
        any_row(
            &self.tables,
            |shape: &TableShape| -> (b: bool)
                ensures b == table_with_column(table@, column@)(shape@)
                { same(&shape.name, table) && holds_text(&shape.columns, column) },
            Ghost(table_with_column(table@, column@)),
        )
    }

    fn has_tables(&self, names: &Vec<String>) -> (yes: bool)
        ensures
            yes == (forall|i: int|
                0 <= i < texts(names@).len() ==> self@.has_table(#[trigger] texts(names@)[i])),
    {
        let ghost nv = texts(names@);
        let mut i: usize = 0;
        while i < names.len()
            invariant
                i <= names@.len(),
                nv == texts(names@),
                forall|j: int| 0 <= j < i ==> self@.has_table(#[trigger] nv[j]),
            decreases names@.len() - i,
        {
            if !self.has_table(&names[i]) {
                proof {
                    assert(!self@.has_table(nv[i as int]));
                }
                return false;
            }
            i = i + 1;
        }
        true
    }

    fn has_columns(&self, table: &str, columns: &Vec<String>) -> (yes: bool)
        ensures
            yes == (forall|i: int|
                0 <= i < texts(columns@).len() ==> self@.has_column(
                    table@,
                    #[trigger] texts(columns@)[i],
                )),
    {
        let ghost cv = texts(columns@);
        let mut i: usize = 0;
        while i < columns.len()
            invariant
                i <= columns@.len(),
                cv == texts(columns@),
                forall|j: int| 0 <= j < i ==> self@.has_column(table@, #[trigger] cv[j]),
            decreases columns@.len() - i,
        {
            if !self.has_column(table, &columns[i]) {
                proof {
                    assert(!self@.has_column(table@, cv[i as int]));
                }
                return false;
            }
            i = i + 1;
        }
        true
    }

    fn has_version(&self, version: i64) -> (yes: bool)
        ensures
            yes == self@.has_version(version as int),
    {
        let tables = tables_of_version(version);
        let columns = columns_of_version(version);
        self.has_tables(&tables) && self.has_columns(table_of_version(version), &columns)
    }

    /// Refuse a database of an unknown version, and one that lacks what its
    /// version has. A database without a controller is accepted.
    pub fn validate_existing_schema_version(&self) -> (reply: Result<(), StoreError>)
        ensures
            reply == if self@.supported() {
                Ok::<(), StoreError>(())
            } else {
                Err(StoreError::UnsupportedSchemaVersion)
            },
    {
        if !self.has_table("controller_meta") {
            return Ok(());
        }
        let version: i64 = match self.version {
            Some(version) => version,
            None => {
                return Err(StoreError::UnsupportedSchemaVersion);
            },
        };
        if version < 1 || version > SCHEMA_VERSION {
            return Err(StoreError::UnsupportedSchemaVersion);
        }
        let mut v: i64 = 1;
        while v <= version
            invariant
                1 <= v <= version + 1,
                1 <= version <= SCHEMA_VERSION,
                self@.has_table("controller_meta"@),
                self@.version == Some(version),
                forall|u: int| 1 <= u < v ==> #[trigger] self@.has_version(u),
            decreases version + 1 - v,
        {
            if !self.has_version(v) {
                return Err(StoreError::UnsupportedSchemaVersion);
            }
            v = v + 1;
        }
        Ok(())
    }
}

/// The steps that bring a database up to the present version, in order.
pub fn migrate(kind: DatabaseKind) -> (steps: Vec<MigrationStep>)
    ensures
        steps@ == migration(kind),
{
    let mut steps: Vec<MigrationStep> = Vec::new();
    steps.push(MigrationStep::Script("0001_init"));
    steps.push(MigrationStep::Script("0002_admin_idempotency"));
    steps.push(MigrationStep::Script("0003_controller_clock"));
    match kind {
        DatabaseKind::Sqlite => {
            steps.push(MigrationStep::Complete("controller_clock"));
            steps.push(MigrationStep::Script("0005_fleet"));
            steps.push(MigrationStep::Complete("enrollment_requests"));
        },
        DatabaseKind::Postgres => {
            steps.push(MigrationStep::Script("0004_clock_anchor"));
            steps.push(MigrationStep::Script("0005_fleet"));
            steps.push(MigrationStep::Script("0006_enrollment_submission"));
        },
    }
    steps.push(MigrationStep::Script("0007_node_channel"));
    steps.push(MigrationStep::Script("0008_fleet_authorization"));
    steps.push(MigrationStep::Script("0009_operation_bindings"));
    proof {
        assert(steps@ =~= migration(kind));
    }
    steps
}

fn type_of_column(table: &str, column: &str) -> (definition: &'static str)
    ensures
        definition@ == column_type(table@, column@),
{
    if same(table, "controller_clock") {
        if same(column, "boot_id") {
            "TEXT"
        } else {
            "INTEGER"
        }
    } else if same(column, "requested_name") {
        "TEXT NOT NULL DEFAULT ''"
    } else {
        "TEXT"
    }
}

/// The statements that add the columns which a table of an older SQLite
/// database lacks.
pub fn missing_columns(table: &str, present: &Vec<String>) -> (statements: Vec<String>)
    ensures
        texts(statements@) == column_statements(table@, late_columns(table@), texts(present@)),
{
    let columns = if same(table, "controller_clock") {
        columns_of_version(4)
    } else if same(table, "enrollment_requests") {
        columns_of_version(6)
    } else {
        names(&[])
    };
    let ghost cv = texts(columns@);
    let mut statements: Vec<String> = Vec::new();
    let mut i: usize = 0;
    proof {
        assert(cv =~= late_columns(table@));
        assert(texts(statements@) =~= Seq::empty());
    }
    while i < columns.len()
        invariant
            i <= columns@.len(),
            cv == texts(columns@),
            texts(statements@) == column_statements(table@, cv.take(i as int), texts(present@)),
        decreases columns@.len() - i,
    {
        proof {
            assert(cv.take(i + 1).drop_last() =~= cv.take(i as int));
            assert(cv.take(i + 1).last() == columns@[i as int]@);
        }
        if !holds_text(present, &columns[i]) {
            let mut statement = "ALTER TABLE ".to_owned();
            statement.append(table);
            statement.append(" ADD COLUMN ");
            statement.append(&columns[i]);
            statement.append(" ");
            statement.append(type_of_column(table, &columns[i]));
            let ghost before = texts(statements@);
            let ghost text = statement@;
            statements.push(statement);
            proof {
                assert(texts(statements@) =~= before.push(text));
            }
        }
        i = i + 1;
    }
    proof {
        assert(cv.take(i as int) =~= cv);
    }
    statements
}

impl Store {
    /// Bring a controller up on the tables of this store: its rows are kept, its
    /// meta row, its tenant and its clock row are those that were found or new
    /// ones.
    pub fn prepare(&mut self, startup: &Startup, tolerance_ms: u64) -> (reply: Result<
        (),
        StoreError,
    >)
        ensures
            (final(self)@, reply) == old(self)@.prepare(startup@, tolerance_ms),
    {
        if tolerance_ms == 0 || tolerance_ms > i64::MAX as u64 {
            return Err(StoreError::InvalidInput("clock tolerance"));
        }
        if let Err(error) = database_kind(&startup.url) {
            return Err(error);
        }
        if let Err(error) = startup.schema.validate_existing_schema_version() {
            return Err(error);
        }
        let mut meta = match &startup.meta {
            Some(meta) => meta.duplicate(),
            None => ControllerMeta {
                schema_version: SCHEMA_VERSION,
                tenant_id: startup.candidate_tenant_id.clone(),
                issuer_epoch: 1,
                created_at_ms: startup.meta_ms,
            },
        };
        if meta.schema_version < SCHEMA_VERSION {
            meta.schema_version = SCHEMA_VERSION;
        }
        self.tenant_id = meta.tenant_id.clone();
        self.meta = meta;
        self.clock_tolerance_ms = tolerance_ms as i64;
        self.clock_monitor = None;
        match &startup.sample {
            None => Err(StoreError::ClockSourceUnavailable),
            Some(sample) => {
                self.clock = match &startup.clock {
                    Some(clock) => clock.duplicate(),
                    None => PersistedClockAnchor {
                        last_observed_ms: startup.clock_ms,
                        boot_id: copy_optional(&sample.boot_id),
                        boottime_ms: Some(sample.boottime_ms),
                        host_wall_ms: Some(sample.host_wall_ms),
                        fenced_at: None,
                    },
                };
                Ok(())
            },
        }
    }

    /// Bring a controller up with the tolerance that holds where nothing else is
    /// configured.
    pub fn connect(
        &mut self,
        startup: &Startup,
        check: StartupClockCheck,
        database_ms: i64,
        monotonic_ms: u64,
        audit_id: &str,
    ) -> (reply: Result<(), StoreError>)
        ensures
            (final(self)@, reply) == old(self)@.connect_with_clock_source(
                startup@,
                DEFAULT_CLOCK_TOLERANCE_MS,
                check,
                database_ms,
                monotonic_ms,
                audit_id@,
            ),
    {
        self.connect_with_clock_source(
            startup,
            DEFAULT_CLOCK_TOLERANCE_MS,
            check,
            database_ms,
            monotonic_ms,
            audit_id,
        )
    }

    /// Bring a controller up with a tolerance of its own.
    pub fn connect_with_tolerance(
        &mut self,
        startup: &Startup,
        tolerance_ms: u64,
        check: StartupClockCheck,
        database_ms: i64,
        monotonic_ms: u64,
        audit_id: &str,
    ) -> (reply: Result<(), StoreError>)
        ensures
            (final(self)@, reply) == old(self)@.connect_with_clock_source(
                startup@,
                tolerance_ms,
                check,
                database_ms,
                monotonic_ms,
                audit_id@,
            ),
    {
        self.connect_with_clock_source(
            startup,
            tolerance_ms,
            check,
            database_ms,
            monotonic_ms,
            audit_id,
        )
    }

    /// Bring a controller up on the tables of this store, then bring its clock
    /// up to the present. `check` compares the recorded moment with the present
    /// one.
    pub fn connect_with_clock_source(
        &mut self,
        startup: &Startup,
        tolerance_ms: u64,
        check: StartupClockCheck,
        database_ms: i64,
        monotonic_ms: u64,
        audit_id: &str,
    ) -> (reply: Result<(), StoreError>)
        ensures
            (final(self)@, reply) == old(self)@.connect_with_clock_source(
                startup@,
                tolerance_ms,
                check,
                database_ms,
                monotonic_ms,
                audit_id@,
            ),
    {
        if let Err(error) = self.prepare(startup, tolerance_ms) {
            return Err(error);
        }
        match &startup.sample {
            None => Err(StoreError::ClockSourceUnavailable),
            Some(sample) => self.initialize_clock(
                sample,
                check,
                database_ms,
                monotonic_ms,
                audit_id,
            ),
        }
    }

    /// Recover a stopped controller's store, on a database that holds a clock
    /// and whose schema is supported, as `recover_clock` says.
    pub fn reconcile_clock(
        &mut self,
        url: &str,
        schema: &SchemaSnapshot,
        sample: Option<&ClockSample>,
        database_ms: i64,
        audit_id: &str,
    ) -> (reply: Result<ClockReconciliation, StoreError>)
        ensures
            (final(self)@, reply) == old(self)@.reconcile_clock(
                url@,
                schema@,
                match sample {
                    Some(host) => Some(host@),
                    None => None,
                },
                database_ms,
                audit_id@,
            ),
    {
        if let Err(error) = database_kind(url) {
            return Err(error);
        }
        if let Err(error) = schema.validate_existing_schema_version() {
            return Err(error);
        }
        if !schema.has_table("controller_clock") {
            return Err(StoreError::MissingState("controller clock"));
        }
        self.recover_clock(sample, database_ms, audit_id)
    }
}

} // verus!
