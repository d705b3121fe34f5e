//! What a controller starts from, by what its database says.

use crate::clock::{ClockSampleView, PersistedClockAnchorView, StartupClockCheck};
use crate::error::StoreError;
use crate::records::ClockReconciliation;
use crate::relation::any;
use crate::schema::{
    column_statements, kind_of, late_columns, migration, table_named, table_with_column,
    DatabaseKind, MigrationStep, SchemaSnapshotView, StartupView,
};
use crate::store::{ControllerMetaView, StoreView};
use vstd::prelude::*;

verus! {

/// Whether a text begins with another one.
pub open spec fn starts_with(text: Seq<char>, start: Seq<char>) -> bool {
    start.len() <= text.len() && text.take(start.len() as int) == start
}

/// The address of a database tells its kind by how it begins, and is refused where it
/// begins otherwise.
pub proof fn an_address_tells_its_database(url: Seq<char>)
    ensures
        kind_of(url) == if starts_with(url, "sqlite:"@) {
            Ok::<DatabaseKind, StoreError>(DatabaseKind::Sqlite)
        } else if starts_with(url, "postgres://"@) || starts_with(url, "postgresql://"@) {
            Ok(DatabaseKind::Postgres)
        } else {
            Err(StoreError::InvalidInput("BLINDPASS_DATABASE_URL"))
        },
{
    lemma_starts_with(url, "sqlite:"@);
    lemma_starts_with(url, "postgres://"@);
    lemma_starts_with(url, "postgresql://"@);
}

proof fn lemma_starts_with(text: Seq<char>, start: Seq<char>)
    ensures
        start.is_prefix_of(text) == starts_with(text, start),
{
    if start.is_prefix_of(text) {
        assert(text.take(start.len() as int) =~= start);
    }
    if starts_with(text, start) {
        assert(start =~= text.subrange(0, start.len() as int));
    }
}

/// Whether a database has a table.
pub open spec fn table_is_there(schema: SchemaSnapshotView, name: Seq<char>) -> bool {
    exists|q: int| 0 <= q < schema.tables.len() && (#[trigger] schema.tables[q]).name == name
}

/// Whether a database has a column of a table.
pub open spec fn column_is_there(
    schema: SchemaSnapshotView,
    name: Seq<char>,
    column: Seq<char>,
) -> bool {
    exists|q: int|
        0 <= q < schema.tables.len() && (#[trigger] schema.tables[q]).name == name
            && schema.tables[q].columns.contains(column)
}

/// Whether a database has everything that its version says.
pub open spec fn is_complete(schema: SchemaSnapshotView, version: i64) -> bool {
    &&& table_is_there(schema, "controller_meta"@)
    &&& table_is_there(schema, "operators"@)
    &&& table_is_there(schema, "bootstrap_tokens"@)
    &&& table_is_there(schema, "operator_sessions"@)
    &&& table_is_there(schema, "agents"@)
    &&& table_is_there(schema, "secret_requests"@)
    &&& table_is_there(schema, "exchanges"@)
    &&& table_is_there(schema, "approvals"@)
    &&& table_is_there(schema, "exchange_lifecycle"@)
    &&& table_is_there(schema, "policies"@)
    &&& table_is_there(schema, "audit_events"@)
    &&& table_is_there(schema, "rate_windows"@)
    &&& table_is_there(schema, "quota_counters"@)
    &&& version >= 2 ==> table_is_there(schema, "idempotency_keys"@)
    &&& version >= 3 ==> table_is_there(schema, "controller_clock"@)
    &&& version >= 4 ==> column_is_there(schema, "controller_clock"@, "boot_id"@)
        && column_is_there(schema, "controller_clock"@, "boottime_ms"@) && column_is_there(
        schema,
        "controller_clock"@,
        "host_wall_ms"@,
    ) && column_is_there(schema, "controller_clock"@, "fenced_at"@)
    &&& version >= 5 ==> table_is_there(schema, "enrollment_requests"@) && table_is_there(
        schema,
        "nodes"@,
    ) && table_is_there(schema, "node_key_history"@) && table_is_there(schema, "node_sessions"@)
        && table_is_there(schema, "workloads"@) && table_is_there(schema, "fleet_policies"@)
        && table_is_there(schema, "operations"@) && table_is_there(schema, "operation_approvals"@)
        && table_is_there(schema, "grants"@) && table_is_there(schema, "grant_tombstones"@)
        && table_is_there(schema, "node_inbox"@) && table_is_there(schema, "node_events"@)
    &&& version >= 6 ==> column_is_there(schema, "enrollment_requests"@, "requested_name"@)
        && column_is_there(schema, "enrollment_requests"@, "protocol_version"@)
        && column_is_there(schema, "enrollment_requests"@, "capabilities_json"@)
    &&& version >= 7 ==> table_is_there(schema, "node_challenges"@) && column_is_there(
        schema,
        "node_challenges"@,
        "nonce_hash"@,
    ) && column_is_there(schema, "node_challenges"@, "key_version"@) && column_is_there(
        schema,
        "node_challenges"@,
        "issuer_epoch"@,
    ) && column_is_there(schema, "node_challenges"@, "capabilities_json"@) && column_is_there(
        schema,
        "node_challenges"@,
        "capabilities_hash"@,
    ) && column_is_there(schema, "node_challenges"@, "consumed_at"@)
    &&& version >= 8 ==> column_is_there(schema, "operation_approvals"@, "decision_key_hash"@)
    &&& version >= 9 ==> column_is_there(schema, "operations"@, "resource_id"@)
        && column_is_there(schema, "operations"@, "requested_ttl_seconds"@) && column_is_there(
        schema,
        "operations"@,
        "broker_event_key"@,
    )
}

proof fn lemma_tables(schema: SchemaSnapshotView)
    ensures
        forall|name: Seq<char>| #[trigger]
            schema.has_table(name) == table_is_there(schema, name),
        forall|name: Seq<char>, column: Seq<char>| #[trigger]
            schema.has_column(name, column) == column_is_there(schema, name, column),
{
    assert forall|name: Seq<char>| #[trigger] schema.has_table(name) == table_is_there(
        schema,
        name,
    ) by {
        let hit = table_named(name);
        if any(schema.tables, hit) {
            let q = choose|q: int| 0 <= q < schema.tables.len() && hit(#[trigger] schema.tables[q]);
            assert(schema.tables[q].name == name);
        }
        if table_is_there(schema, name) {
            let q = choose|q: int|
                0 <= q < schema.tables.len() && (#[trigger] schema.tables[q]).name == name;
            assert(hit(schema.tables[q]));
        }
    }
    assert forall|name: Seq<char>, column: Seq<char>| #[trigger]
        schema.has_column(name, column) == column_is_there(schema, name, column) by {
        let hit = table_with_column(name, column);
        if any(schema.tables, hit) {
            let q = choose|q: int| 0 <= q < schema.tables.len() && hit(#[trigger] schema.tables[q]);
            assert(schema.tables[q].name == name);
        }
        if column_is_there(schema, name, column) {
            let q = choose|q: int|
                0 <= q < schema.tables.len() && (#[trigger] schema.tables[q]).name == name
                    && schema.tables[q].columns.contains(column);
            assert(hit(schema.tables[q]));
        }
    }
}

/// A database is taken exactly where it is new, or has a version from one to nine and
/// everything that this version says.
#[verifier::rlimit(60)]
pub proof fn a_database_is_taken_new_or_complete(schema: SchemaSnapshotView)
    ensures
        schema.supported() <==> !table_is_there(schema, "controller_meta"@) || (schema.version
            is Some && 1 <= schema.version->0 <= 9 && is_complete(schema, schema.version->0)),
{
    lemma_tables(schema);
    if schema.version is Some && 1 <= schema.version->0 <= 9 {
        let version = schema.version->0;
        lemma_version(schema, 1);
        lemma_version(schema, 2);
        lemma_version(schema, 3);
        lemma_version(schema, 4);
        lemma_version(schema, 5);
        lemma_version(schema, 6);
        lemma_version(schema, 7);
        lemma_version(schema, 8);
        lemma_version(schema, 9);
        if is_complete(schema, version) {
            assert forall|v: int| 1 <= v <= version implies #[trigger] schema.has_version(v) by {
                assert(v == 1 || v == 2 || v == 3 || v == 4 || v == 5 || v == 6 || v == 7 || v == 8
                    || v == 9);
            }
        }
        if forall|v: int| 1 <= v <= version ==> #[trigger] schema.has_version(v) {
            assert(version >= 1 ==> schema.has_version(1));
            assert(version >= 2 ==> schema.has_version(2));
            assert(version >= 3 ==> schema.has_version(3));
            assert(version >= 4 ==> schema.has_version(4));
            assert(version >= 5 ==> schema.has_version(5));
            assert(version >= 6 ==> schema.has_version(6));
            assert(version >= 7 ==> schema.has_version(7));
            assert(version >= 8 ==> schema.has_version(8));
            assert(version >= 9 ==> schema.has_version(9));
        }
    }
}

/// What the presence of one version means, name by name.
spec fn version_is_there(schema: SchemaSnapshotView, version: int) -> bool {
    let tables = crate::schema::introduced_tables(version);
    let columns = crate::schema::introduced_columns(version);
    let changed = crate::schema::changed_table(version);
    &&& tables.len() > 0 ==> schema.has_table(tables[0])
    &&& tables.len() > 1 ==> schema.has_table(tables[1])
    &&& tables.len() > 2 ==> schema.has_table(tables[2])
    &&& tables.len() > 3 ==> schema.has_table(tables[3])
    &&& tables.len() > 4 ==> schema.has_table(tables[4])
    &&& tables.len() > 5 ==> schema.has_table(tables[5])
    &&& tables.len() > 6 ==> schema.has_table(tables[6])
    &&& tables.len() > 7 ==> schema.has_table(tables[7])
    &&& tables.len() > 8 ==> schema.has_table(tables[8])
    &&& tables.len() > 9 ==> schema.has_table(tables[9])
    &&& tables.len() > 10 ==> schema.has_table(tables[10])
    &&& tables.len() > 11 ==> schema.has_table(tables[11])
    &&& tables.len() > 12 ==> schema.has_table(tables[12])
    &&& columns.len() > 0 ==> schema.has_column(changed, columns[0])
    &&& columns.len() > 1 ==> schema.has_column(changed, columns[1])
    &&& columns.len() > 2 ==> schema.has_column(changed, columns[2])
    &&& columns.len() > 3 ==> schema.has_column(changed, columns[3])
    &&& columns.len() > 4 ==> schema.has_column(changed, columns[4])
    &&& columns.len() > 5 ==> schema.has_column(changed, columns[5])
}

proof fn lemma_version(schema: SchemaSnapshotView, version: int)
    requires
        1 <= version <= 9,
    ensures
        schema.has_version(version) == version_is_there(schema, version),
{
    let tables = crate::schema::introduced_tables(version);
    let columns = crate::schema::introduced_columns(version);
    let changed = crate::schema::changed_table(version);
    assert(tables.len() <= 13 && columns.len() <= 6);
    if version_is_there(schema, version) {
        assert forall|i: int|
            0 <= i < tables.len() implies schema.has_table(#[trigger] tables[i]) by {
            assert(i == 0 || i == 1 || i == 2 || i == 3 || i == 4 || i == 5 || i == 6 || i == 7 || i
                == 8 || i == 9 || i == 10 || i == 11 || i == 12);
        }
        assert forall|i: int| 0 <= i < columns.len() implies schema.has_column(
            changed,
            #[trigger] columns[i],
        ) by {
            assert(i == 0 || i == 1 || i == 2 || i == 3 || i == 4 || i == 5);
        }
    }
}

/// What is added to a table is a column for each one that it lacks, in order.
proof fn lemma_statements(table: Seq<char>, columns: Seq<Seq<char>>, present: Seq<Seq<char>>)
    ensures
        column_statements(table, columns, present) == columns.filter(
            |column: Seq<char>| !present.contains(column),
        ).map_values(|column: Seq<char>| crate::schema::add_column(table, column)),
    decreases columns.len(),
{
    reveal(Seq::filter);
    let lacks = |column: Seq<char>| !present.contains(column);
    let addition = |column: Seq<char>| crate::schema::add_column(table, column);
    if columns.len() > 0 {
        let rest = columns.drop_last();
        lemma_statements(table, rest, present);
        if lacks(columns.last()) {
            assert(rest.filter(lacks).push(columns.last()).map_values(addition) =~= rest.filter(
                lacks,
            ).map_values(addition).push(addition(columns.last())));
        }
    } else {
        assert(columns.filter(lacks).map_values(addition) =~= Seq::empty());
    }
}

/// The clock table is completed by the columns that it lacks of its boot, which is a
/// text, and of its three times, which are numbers.
pub proof fn a_clock_table_is_completed(present: Seq<Seq<char>>)
    ensures
        column_statements(
            "controller_clock"@,
            late_columns("controller_clock"@),
            present,
        ) == seq!["boot_id"@, "boottime_ms"@, "host_wall_ms"@, "fenced_at"@].filter(
            |column: Seq<char>| !present.contains(column),
        ).map_values(
            |column: Seq<char>|
                "ALTER TABLE "@ + "controller_clock"@ + " ADD COLUMN "@ + column + " "@ + (
                if column == "boot_id"@ {
                    "TEXT"@
                } else {
                    "INTEGER"@
                }),
        ),
{
    let table = "controller_clock"@;
    lemma_statements(table, late_columns(table), present);
    assert(late_columns(table) =~= seq!["boot_id"@, "boottime_ms"@, "host_wall_ms"@, "fenced_at"@]);
    assert((|column: Seq<char>| crate::schema::add_column(table, column)) =~= (|column: Seq<char>|
        "ALTER TABLE "@ + "controller_clock"@ + " ADD COLUMN "@ + column + " "@ + (if column
            == "boot_id"@ {
            "TEXT"@
        } else {
            "INTEGER"@
        })));
}

/// The table of enrollments is completed by the columns that it lacks of its name, which
/// is empty at first, and of its protocol and capabilities. No other table is completed.
pub proof fn an_enrollment_table_is_completed(table: Seq<char>, present: Seq<Seq<char>>)
    requires
        table != "controller_clock"@,
    ensures
        column_statements(table, late_columns(table), present) == if table
            == "enrollment_requests"@ {
            seq!["requested_name"@, "protocol_version"@, "capabilities_json"@].filter(
                |column: Seq<char>| !present.contains(column),
            ).map_values(
                |column: Seq<char>|
                    "ALTER TABLE "@ + table + " ADD COLUMN "@ + column + " "@ + (if column
                        == "requested_name"@ {
                        "TEXT NOT NULL DEFAULT ''"@
                    } else {
                        "TEXT"@
                    }),
            )
        } else {
            Seq::empty()
        },
{
    lemma_statements(table, late_columns(table), present);
    if table == "enrollment_requests"@ {
        assert(late_columns(table) =~= seq![
            "requested_name"@,
            "protocol_version"@,
            "capabilities_json"@,
        ]);
        assert((|column: Seq<char>| crate::schema::add_column(table, column)) =~= (|
            column: Seq<char>,
        |
            "ALTER TABLE "@ + table + " ADD COLUMN "@ + column + " "@ + (if column
                == "requested_name"@ {
                "TEXT NOT NULL DEFAULT ''"@
            } else {
                "TEXT"@
            })));
    }
}

/// A migration runs nine steps, in the order of the versions. What one kind of database
/// does by a script for the fourth and the sixth version, the other does by completing
/// the table.
pub proof fn a_migration_runs_every_version_in_order(kind: DatabaseKind)
    ensures
        ({
            let steps = migration(kind);
            &&& steps.len() == 9
            &&& steps[0] == MigrationStep::Script("0001_init")
            &&& steps[1] == MigrationStep::Script("0002_admin_idempotency")
            &&& steps[2] == MigrationStep::Script("0003_controller_clock")
            &&& steps[3] == if kind is Sqlite {
                MigrationStep::Complete("controller_clock")
            } else {
                MigrationStep::Script("0004_clock_anchor")
            }
            &&& steps[4] == MigrationStep::Script("0005_fleet")
            &&& steps[5] == if kind is Sqlite {
                MigrationStep::Complete("enrollment_requests")
            } else {
                MigrationStep::Script("0006_enrollment_submission")
            }
            &&& steps[6] == MigrationStep::Script("0007_node_channel")
            &&& steps[7] == MigrationStep::Script("0008_fleet_authorization")
            &&& steps[8] == MigrationStep::Script("0009_operation_bindings")
        }),
{
}

/// A controller starts with a tolerance of at least a millisecond, on a database of a
/// known kind that is taken. It keeps the tenant, the epoch and the clock row that it
/// finds, raises an older version to nine, and makes what it does not find: its tenant
/// is then the one proposed, its epoch one, and its clock row that of the reading.
/// Without a reading of the host it stops before the clock row.
pub proof fn a_controller_starts_from_what_it_finds(
    state: StoreView,
    startup: StartupView,
    tolerance_ms: u64,
)
    ensures
        ({
            let (after, reply) = state.prepare(startup, tolerance_ms);
            let known = starts_with(startup.url, "sqlite:"@) || starts_with(
                startup.url,
                "postgres://"@,
            ) || starts_with(startup.url, "postgresql://"@);
            let meta = match startup.meta {
                Some(found) => ControllerMetaView {
                    schema_version: if found.schema_version < 9 {
                        9
                    } else {
                        found.schema_version
                    },
                    ..found
                },
                None => ControllerMetaView {
                    schema_version: 9,
                    tenant_id: startup.candidate_tenant_id,
                    issuer_epoch: 1,
                    created_at_ms: startup.meta_ms,
                },
            };
            let owned = StoreView {
                tenant_id: meta.tenant_id,
                meta,
                clock_tolerance_ms: tolerance_ms as i64,
                clock_monitor: None,
                ..state
            };
            if tolerance_ms == 0 || tolerance_ms > i64::MAX {
                after == state
                    && reply == Err::<(), StoreError>(StoreError::InvalidInput("clock tolerance"))
            } else if !known {
                after == state && reply == Err::<(), StoreError>(
                    StoreError::InvalidInput("BLINDPASS_DATABASE_URL"),
                )
            } else if !startup.schema.supported() {
                after == state
                    && reply == Err::<(), StoreError>(StoreError::UnsupportedSchemaVersion)
            } else {
                match startup.sample {
                    None => after == owned && reply == Err::<(), StoreError>(
                        StoreError::ClockSourceUnavailable,
                    ),
                    Some(sample) => {
                        &&& reply == Ok::<(), StoreError>(())
                        &&& after == (StoreView {
                            clock: match startup.clock {
                                Some(found) => found,
                                None => PersistedClockAnchorView {
                                    last_observed_ms: startup.clock_ms,
                                    boot_id: sample.boot_id,
                                    boottime_ms: Some(sample.boottime_ms),
                                    host_wall_ms: Some(sample.host_wall_ms),
                                    fenced_at: None,
                                },
                            },
                            ..owned
                        })
                    },
                }
            }
        }),
{
    an_address_tells_its_database(startup.url);
}

/// Connecting a controller prepares it and then starts its clock; what stops the one
/// stops the other.
pub proof fn a_connection_prepares_and_then_starts_the_clock(
    state: StoreView,
    startup: StartupView,
    tolerance_ms: u64,
    check: StartupClockCheck,
    database_ms: i64,
    monotonic_ms: u64,
    audit_id: Seq<char>,
)
    ensures
        ({
            let prepared = state.prepare(startup, tolerance_ms);
            let reply = state.connect_with_clock_source(
                startup,
                tolerance_ms,
                check,
                database_ms,
                monotonic_ms,
                audit_id,
            );
            &&& prepared.1 is Err ==> reply == prepared
            &&& prepared.1 is Ok ==> startup.sample is Some && reply
                == prepared.0.initialize_clock(
                startup.sample->0,
                check,
                database_ms,
                monotonic_ms,
                audit_id,
            )
        }),
{
}

/// A clock is reconciled on a database of a known kind that is taken and has a clock.
pub proof fn a_clock_is_reconciled_where_there_is_one(
    state: StoreView,
    url: Seq<char>,
    schema: SchemaSnapshotView,
    sample: Option<ClockSampleView>,
    database_ms: i64,
    audit_id: Seq<char>,
)
    ensures
        ({
            let reply = state.reconcile_clock(url, schema, sample, database_ms, audit_id);
            let known = starts_with(url, "sqlite:"@) || starts_with(url, "postgres://"@)
                || starts_with(url, "postgresql://"@);
            reply == if !known {
                (
                    state,
                    Err::<ClockReconciliation, StoreError>(
                        StoreError::InvalidInput("BLINDPASS_DATABASE_URL"),
                    ),
                )
            } else if !schema.supported() {
                (
                    state, Err::<ClockReconciliation, StoreError>(
                        StoreError::UnsupportedSchemaVersion,
                    ),
                )
            } else if !table_is_there(schema, "controller_clock"@) {
                (
                    state, Err::<ClockReconciliation, StoreError>(
                        StoreError::MissingState("controller clock"),
                    ),
                )
            } else {
                state.recover_clock(sample, database_ms, audit_id)
            }
        }),
{
    an_address_tells_its_database(url);
    lemma_tables(schema);
}

} // verus!
