use blindpass_store::clock::{
    elapsed_ms, summary_text, ClockReading, ClockSample, PersistedClockAnchor, RunningClockCheck,
    StartupClockCheck,
};
use blindpass_store::error::{DatabaseFault, StoreError};
use blindpass_store::records::ClockReconciliation;
use blindpass_store::schema::{
    database_kind, migrate, missing_columns, DatabaseKind, MigrationStep, SchemaSnapshot, Startup,
    TableShape,
};
use blindpass_store::store::{ControllerMeta, Store};

fn sample() -> ClockSample {
    ClockSample { boot_id: Some("boot-1".to_owned()), boottime_ms: 5_000, host_wall_ms: 7_000 }
}

fn steady() -> RunningClockCheck {
    RunningClockCheck {
        database_regressed: false,
        host_regressed: false,
        database_advanced: false,
        host_advanced: false,
    }
}

/// A reading that passes the checkpoint at a moment.
fn at(now_ms: i64) -> ClockReading {
    ClockReading {
        checkpoint_ms: now_ms,
        sample: Some(sample()),
        check: steady(),
        monotonic_ms: 0,
        now_ms,
        later_ms: now_ms,
        audit_id: format!("fence-{now_ms}"),
    }
}

fn startup() -> Startup {
    Startup {
        url: "sqlite:controller.db".to_owned(),
        schema: SchemaSnapshot { tables: Vec::new(), version: None },
        meta: None,
        clock: None,
        candidate_tenant_id: "tenant-a".to_owned(),
        meta_ms: 900,
        sample: Some(sample()),
        clock_ms: 1_000,
    }
}

/// A controller that was brought up at moment 1000.
fn store() -> Store {
    let mut store = Store::empty();
    let reply = store.connect(&startup(), StartupClockCheck::SameBoot, 1_000, 0, "audit-start");
    assert_eq!(reply, Ok(()));
    store
}

fn table(name: &str, columns: &[&str]) -> TableShape {
    TableShape {
        name: name.to_owned(),
        columns: columns.iter().map(|column| column.to_string()).collect(),
    }
}

/// The tables of version 3 and their clock.
fn third_version() -> SchemaSnapshot {
    let mut tables: Vec<TableShape> = [
        "controller_meta",
        "operators",
        "bootstrap_tokens",
        "operator_sessions",
        "agents",
        "secret_requests",
        "exchanges",
        "approvals",
        "exchange_lifecycle",
        "policies",
        "audit_events",
        "rate_windows",
        "quota_counters",
        "idempotency_keys",
    ]
    .iter()
    .map(|name| table(name, &[]))
    .collect();
    tables.push(table("controller_clock", &["id", "last_observed_ms"]));
    SchemaSnapshot { tables, version: Some(3) }
}

#[test]
fn a_new_controller_gets_its_meta_row_and_clock() {
    let mut store = store();
    assert_eq!(store.tenant_id(), "tenant-a");
    assert_eq!(
        store.meta,
        ControllerMeta {
            schema_version: 9,
            tenant_id: "tenant-a".to_owned(),
            issuer_epoch: 1,
            created_at_ms: 900,
        }
    );
    assert_eq!(store.issuer_epoch(&at(1_000)), Ok(1));
    assert_eq!(store.clock_tolerance_ms, 2_000);
    assert_eq!(
        store.clock,
        PersistedClockAnchor {
            last_observed_ms: 1_000,
            boot_id: Some("boot-1".to_owned()),
            boottime_ms: Some(5_000),
            host_wall_ms: Some(7_000),
            fenced_at: None,
        }
    );
}

#[test]
fn a_known_controller_keeps_its_tenant_and_is_lifted_to_the_schema() {
    let mut known = startup();
    known.meta = Some(ControllerMeta {
        schema_version: 4,
        tenant_id: "tenant-b".to_owned(),
        issuer_epoch: 6,
        created_at_ms: 3,
    });
    let mut store = Store::empty();
    assert_eq!(
        store.connect_with_tolerance(&known, 50, StartupClockCheck::SameBoot, 1_000, 0, "a"),
        Ok(())
    );
    assert_eq!(store.tenant_id(), "tenant-b");
    assert_eq!(store.meta.schema_version, 9);
    assert_eq!(store.meta.issuer_epoch, 6);
    assert_eq!(store.clock_tolerance_ms, 50);
}

#[test]
fn a_negative_issuer_epoch_is_missing_state() {
    let mut store = store();
    store.meta.issuer_epoch = -1;
    assert_eq!(store.issuer_epoch(&at(1_000)), Err(StoreError::MissingState("issuer epoch")));
}

#[test]
fn a_fenced_clock_tells_neither_the_time_nor_the_epoch() {
    let mut store = store();
    assert_eq!(store.issuer_epoch(&at(1_100)), Ok(1));
    assert_eq!(store.database_now_ms(&at(1_100)), Ok(1_100));
    store.persist_clock_fence(1_200);
    let before = store.clone();
    assert_eq!(store.issuer_epoch(&at(1_300)), Err(StoreError::ClockFenced));
    assert_eq!(store.database_now_ms(&at(1_300)), Err(StoreError::ClockFenced));
    assert!(!store.is_ready(&at(1_300), Some(1)));
    assert_eq!(store, before);
    store.meta.issuer_epoch = -1;
    assert_eq!(store.issuer_epoch(&at(1_300)), Err(StoreError::ClockFenced));
}

#[test]
fn what_a_controller_cannot_be_brought_up_on_is_refused() {
    let mut store = Store::empty();
    let connect = |store: &mut Store, startup: &Startup, tolerance: u64| {
        store.connect_with_clock_source(
            startup,
            tolerance,
            StartupClockCheck::SameBoot,
            1_000,
            0,
            "a",
        )
    };
    let tolerance = Err(StoreError::InvalidInput("clock tolerance"));
    assert_eq!(connect(&mut store, &startup(), 0), tolerance);
    assert_eq!(connect(&mut store, &startup(), u64::MAX), tolerance);
    let mut elsewhere = startup();
    elsewhere.url = "mysql://host".to_owned();
    assert_eq!(
        connect(&mut store, &elsewhere, 2_000),
        Err(StoreError::InvalidInput("BLINDPASS_DATABASE_URL"))
    );
    let mut damaged = startup();
    damaged.schema =
        SchemaSnapshot { tables: vec![table("controller_meta", &[])], version: Some(1) };
    assert_eq!(connect(&mut store, &damaged, 2_000), Err(StoreError::UnsupportedSchemaVersion));
    let mut blind = startup();
    blind.sample = None;
    assert_eq!(connect(&mut store, &blind, 2_000), Err(StoreError::ClockSourceUnavailable));
}

#[test]
fn databases_are_told_by_their_url() {
    assert_eq!(database_kind("sqlite:a.db"), Ok(DatabaseKind::Sqlite));
    assert_eq!(database_kind("postgres://host/db"), Ok(DatabaseKind::Postgres));
    assert_eq!(database_kind("postgresql://host/db"), Ok(DatabaseKind::Postgres));
    let refused = Err(StoreError::InvalidInput("BLINDPASS_DATABASE_URL"));
    assert_eq!(database_kind("postgres:host"), refused);
    assert_eq!(database_kind(" sqlite:a.db"), refused);
}

#[test]
fn a_version_needs_what_it_introduced() {
    assert_eq!(third_version().validate_existing_schema_version(), Ok(()));
    let refused = Err(StoreError::UnsupportedSchemaVersion);
    let mut fourth = third_version();
    fourth.version = Some(4);
    assert_eq!(fourth.validate_existing_schema_version(), refused);
    fourth.tables.pop();
    fourth.tables.push(table(
        "controller_clock",
        &["boot_id", "boottime_ms", "host_wall_ms", "fenced_at"],
    ));
    assert_eq!(fourth.validate_existing_schema_version(), Ok(()));
    let mut short = third_version();
    short.tables.remove(4);
    assert_eq!(short.validate_existing_schema_version(), refused);
    for version in [None, Some(0), Some(10)] {
        let mut unknown = third_version();
        unknown.version = version;
        assert_eq!(unknown.validate_existing_schema_version(), refused);
    }
    let fresh = SchemaSnapshot { tables: Vec::new(), version: None };
    assert_eq!(fresh.validate_existing_schema_version(), Ok(()));
}

#[test]
fn migrations_run_in_order() {
    let sqlite = migrate(DatabaseKind::Sqlite);
    assert_eq!(sqlite.len(), 9);
    assert_eq!(sqlite[3], MigrationStep::Complete("controller_clock"));
    assert_eq!(sqlite[5], MigrationStep::Complete("enrollment_requests"));
    assert_eq!(sqlite[8], MigrationStep::Script("0009_operation_bindings"));
    let postgres = migrate(DatabaseKind::Postgres);
    assert_eq!(postgres[3], MigrationStep::Script("0004_clock_anchor"));
    assert_eq!(postgres.len(), 9);
}

#[test]
fn missing_columns_are_added() {
    let present = vec!["boot_id".to_owned(), "fenced_at".to_owned()];
    assert_eq!(
        missing_columns("controller_clock", &present),
        vec![
            "ALTER TABLE controller_clock ADD COLUMN boottime_ms INTEGER".to_owned(),
            "ALTER TABLE controller_clock ADD COLUMN host_wall_ms INTEGER".to_owned(),
        ]
    );
    assert_eq!(
        missing_columns("enrollment_requests", &Vec::new()),
        vec![
            "ALTER TABLE enrollment_requests ADD COLUMN requested_name TEXT NOT NULL DEFAULT ''"
                .to_owned(),
            "ALTER TABLE enrollment_requests ADD COLUMN protocol_version TEXT".to_owned(),
            "ALTER TABLE enrollment_requests ADD COLUMN capabilities_json TEXT".to_owned(),
        ]
    );
}

#[test]
fn startup_compares_the_recorded_moment_with_the_present() {
    let mut store = store();
    store.clock.boottime_ms = None;
    let (previous, current) = store.startup_anchors(&sample(), 4_000);
    assert_eq!(previous.boot_id, Some("boot-1".to_owned()));
    assert_eq!(previous.boottime_ms, 0);
    assert_eq!(previous.database_ms, 1_000);
    assert_eq!(current.database_ms, 4_000);
    assert_eq!(current.host_wall_ms, 7_000);
}

#[test]
fn a_clock_that_moved_back_at_startup_is_fenced() {
    for check in [
        StartupClockCheck::DatabaseRegressed,
        StartupClockCheck::HostRegressed,
        StartupClockCheck::BothRegressed,
    ] {
        let mut store = Store::empty();
        assert_eq!(
            store.connect(&startup(), check, 1_200, 0, "a"),
            Err(StoreError::ClockRegression)
        );
        assert_eq!(store.clock.fenced_at, Some(1_200));
        assert_eq!(store.clock_monitor, None);
    }
}

#[test]
fn a_restart_fences_and_records_what_it_removed() {
    let mut store = store();
    assert_eq!(store.consume_rate_limit(&at(1_000), "login", 3, 60_000).map(|r| r.count), Ok(1));
    let mut restarted = at(1_500);
    restarted.sample = Some(ClockSample {
        boot_id: Some("boot-2".to_owned()),
        boottime_ms: 9,
        host_wall_ms: 10,
    });
    assert_eq!(store.has_active_admin(&restarted), Err(StoreError::ClockFenced));
    assert_eq!(store.clock.fenced_at, Some(1_500));
    assert_eq!(store.clock.boot_id, Some("boot-2".to_owned()));
    assert!(store.rate_windows.is_empty());
    assert_eq!(store.audit_events.len(), 1);
    assert_eq!(store.audit_events[0].action, "clock_restart_fence");
    assert_eq!(store.audit_events[0].id, "fence-1500");
    assert_eq!(
        store.audit_events[0].metadata_json,
        "{\"removed_bootstrap_tokens\":0,\"removed_exchanges\":0,\
         \"removed_idempotency_keys\":0,\"removed_pending_approvals\":0,\
         \"removed_rate_windows\":1,\"removed_secret_requests\":0}"
    );
    assert_eq!(store.has_active_admin(&at(1_600)), Err(StoreError::ClockFenced));
    assert_eq!(store.audit_events.len(), 1);
}

#[test]
fn an_audit_event_of_the_fence_needs_its_own_identifier() {
    let mut store = store();
    assert_eq!(
        store.append_audit_with_id(&at(1_000), "fence-1500", "e", "system", None, "t", None, "{}"),
        Ok(())
    );
    let before = store.clone();
    let mut restarted = at(1_500);
    restarted.sample = Some(ClockSample { boot_id: None, boottime_ms: 0, host_wall_ms: 0 });
    assert_eq!(
        store.has_active_admin(&restarted),
        Err(StoreError::Database(DatabaseFault::DuplicateKey))
    );
    assert_eq!(store, before);
}

#[test]
fn a_clock_that_cannot_be_read_is_fenced() {
    let mut store = store();
    let mut blind = at(1_500);
    blind.sample = None;
    assert_eq!(store.has_active_admin(&blind), Err(StoreError::ClockFenced));
    assert_eq!(store.clock.fenced_at, Some(1_500));
    let mut other = self::store();
    assert_eq!(other.monitor_clock(&blind), Err(StoreError::ClockFenced));
    assert_eq!(other.clock.fenced_at, Some(1_500));
}

#[test]
fn a_running_regression_is_fenced() {
    for host in [true, false] {
        let mut store = store();
        let mut back = at(1_500);
        back.check.host_regressed = host;
        back.check.database_regressed = !host;
        assert_eq!(store.has_active_admin(&back), Err(StoreError::ClockRegression));
        assert_eq!(store.clock.fenced_at, Some(1_500));
        let mut watched = self::store();
        assert_eq!(watched.monitor_clock(&back), Err(StoreError::ClockFenced));
        assert_eq!(watched.clock.fenced_at, Some(1_500));
    }
}

#[test]
fn the_checkpoint_tolerates_little() {
    let mut store = store();
    store.clock.last_observed_ms = 10_000;
    assert_eq!(store.checkpoint_clock(&at(8_000)), Ok(()));
    assert_eq!(store.clock.last_observed_ms, 8_000);
    store.clock.last_observed_ms = 10_001;
    assert_eq!(store.checkpoint_clock(&at(8_000)), Err(StoreError::ClockRegression));
    assert_eq!(store.clock.fenced_at, Some(8_000));
}

#[test]
fn the_high_water_mark_moves_once_a_second() {
    let mut store = store();
    assert_eq!(store.checkpoint_clock(&at(1_999)), Ok(()));
    assert_eq!(store.clock.last_observed_ms, 1_000);
    assert_eq!(store.checkpoint_clock(&at(2_000)), Ok(()));
    assert_eq!(store.clock.last_observed_ms, 2_000);
    assert_eq!(store.monitor_clock(&at(2_001)), Ok(()));
    assert_eq!(store.clock.last_observed_ms, 2_001);
    assert_eq!(store.clock_monitor.map(|sample| sample.database_ms), Some(2_001));
    assert_eq!(store.now(2_000), None);
    assert_eq!(store.now(2_001), Some(2_001));
}

#[test]
fn readiness_needs_the_clock_and_the_probe() {
    let mut store = store();
    assert!(store.is_ready(&at(1_100), Some(1)));
    assert!(!store.is_ready(&at(1_100), Some(2)));
    assert!(!store.is_ready(&at(1_100), None));
    assert_eq!(store.database_now_ms(&at(1_200)), Ok(1_200));
    store.persist_clock_fence(1_300);
    assert!(!store.is_ready(&at(1_400), Some(1)));
    assert_eq!(store.database_now_ms(&at(1_400)), Err(StoreError::ClockFenced));
    store.persist_clock_fence(1_500);
    assert_eq!(store.clock.fenced_at, Some(1_300));
}

#[test]
fn reconciling_a_sound_clock_changes_nothing() {
    let mut store = store();
    let before = store.clone();
    let url = "sqlite:controller.db";
    let reply = store.reconcile_clock(url, &third_version(), Some(&sample()), 1_000, "r");
    assert_eq!(
        reply,
        Ok(ClockReconciliation {
            regression_detected: false,
            persisted_ms: 1_000,
            database_now_ms: 1_000,
            removed_secret_requests: 0,
            removed_exchanges: 0,
            removed_approvals: 0,
            removed_bootstrap_tokens: 0,
            removed_rate_windows: 0,
            removed_idempotency_keys: 0,
            revoked_sessions: 0,
        })
    );
    assert_eq!(store, before);
}

#[test]
fn reconciling_lifts_the_fence_and_removes_deadlines() {
    let mut store = store();
    assert_eq!(store.issue_bootstrap_token(&at(1_000), "hash", 60), Ok(true));
    assert_eq!(
        store.create_local_operator(&at(1_000), "op", "ada", "Ada", "admin", "pw"),
        Ok(())
    );
    let session =
        store.open_browser_session(&at(1_000), &at(1_000), "s", "csrf", "op", "refresh", 60);
    assert!(matches!(session, Ok(Some(_))));
    store.persist_clock_fence(1_100);
    let summary = store.reconciliation(900);
    assert_eq!(summary.removed_bootstrap_tokens, 1);
    assert_eq!(summary.revoked_sessions, 1);
    let url = "sqlite:controller.db";
    let reply = store.reconcile_clock(url, &third_version(), Some(&sample()), 900, "recon");
    assert_eq!(reply, Ok(summary));
    assert_eq!(store.clock.fenced_at, None);
    assert_eq!(store.clock.last_observed_ms, 900);
    assert!(store.bootstrap_tokens.is_empty());
    assert_eq!(store.operator_sessions[0].revoked_at_ms, Some(900));
    assert_eq!(store.operators.len(), 1);
    let event = &store.audit_events[0];
    assert_eq!(event.action, "clock_reconciled");
    assert_eq!(
        event.metadata_json,
        "{\"regression_detected\":true,\"persisted_ms\":1000,\"database_now_ms\":900,\
         \"removed_secret_requests\":0,\"removed_exchanges\":0,\"removed_approvals\":0,\
         \"removed_bootstrap_tokens\":1,\"removed_rate_windows\":0,\
         \"removed_idempotency_keys\":0,\"revoked_sessions\":1}"
    );
    assert_eq!(event.created_at_ms, 900);
    assert_eq!(store.has_active_admin(&at(1_000)), Ok(true));
}

#[test]
fn reconciling_needs_a_database_with_a_clock() {
    let mut store = store();
    let url = "sqlite:controller.db";
    let fresh = SchemaSnapshot { tables: Vec::new(), version: None };
    let mut damaged = third_version();
    damaged.version = None;
    let mut unknown_boot = sample();
    unknown_boot.boot_id = None;
    let mut recon = |url: &str, schema: &SchemaSnapshot, sample: Option<&ClockSample>| {
        store.reconcile_clock(url, schema, sample, 900, "r")
    };
    assert_eq!(
        recon("file:x", &third_version(), Some(&sample())),
        Err(StoreError::InvalidInput("BLINDPASS_DATABASE_URL"))
    );
    assert_eq!(recon(url, &damaged, Some(&sample())), Err(StoreError::UnsupportedSchemaVersion));
    assert_eq!(
        recon(url, &fresh, Some(&sample())),
        Err(StoreError::MissingState("controller clock"))
    );
    assert_eq!(recon(url, &third_version(), None), Err(StoreError::ClockSourceUnavailable));
    assert_eq!(
        recon(url, &third_version(), Some(&unknown_boot)),
        Err(StoreError::ClockSourceUnavailable)
    );
    assert!(recon(url, &third_version(), Some(&sample())).unwrap().regression_detected);
    store.persist_clock_fence(1_000);
    let before = store.clone();
    assert_eq!(
        store.reconcile_clock(url, &third_version(), Some(&sample()), 900, "r"),
        Err(StoreError::Database(DatabaseFault::DuplicateKey))
    );
    assert_eq!(store, before);
}

#[test]
fn a_reconciliation_summary_is_written_as_json() {
    let summary = ClockReconciliation {
        regression_detected: false,
        persisted_ms: i64::MIN,
        database_now_ms: -7,
        removed_secret_requests: 1,
        removed_exchanges: 20,
        removed_approvals: 345,
        removed_bootstrap_tokens: 4,
        removed_rate_windows: 5,
        removed_idempotency_keys: 6,
        revoked_sessions: u64::MAX,
    };
    let text = summary_text(&summary);
    assert_eq!(
        text,
        "{\"regression_detected\":false,\"persisted_ms\":-9223372036854775808,\
         \"database_now_ms\":-7,\"removed_secret_requests\":1,\"removed_exchanges\":20,\
         \"removed_approvals\":345,\"removed_bootstrap_tokens\":4,\"removed_rate_windows\":5,\
         \"removed_idempotency_keys\":6,\"revoked_sessions\":18446744073709551615}"
    );
    let parsed: serde_json::Value = serde_json::from_str(&text).unwrap();
    assert_eq!(parsed["revoked_sessions"].as_u64(), Some(u64::MAX));
    assert_eq!(parsed["regression_detected"].as_bool(), Some(false));
}

#[test]
fn readings_get_an_audit_identifier_each() {
    let one = ClockReading::take(1, None, steady(), 2, 3, 4);
    let two = ClockReading::take(1, None, steady(), 2, 3, 4);
    assert_eq!(one.audit_id.len(), 64);
    assert!(one.audit_id.chars().all(|c| c.is_ascii_digit() || ('a'..='f').contains(&c)));
    assert_ne!(one.audit_id, two.audit_id);
    assert_eq!((one.checkpoint_ms, one.monotonic_ms, one.now_ms, one.later_ms), (1, 2, 3, 4));
}

#[test]
fn elapsed_time_never_runs_back() {
    assert_eq!(elapsed_ms(5, 9), 4);
    assert_eq!(elapsed_ms(9, 5), 0);
    assert_eq!(elapsed_ms(0, u64::MAX), i64::MAX);
}

#[test]
fn errors_have_messages() {
    let messages = [
        (StoreError::Database(DatabaseFault::RowNotFound), "controller database operation failed"),
        (StoreError::InvalidInput("agent"), "invalid store input: agent"),
        (StoreError::MissingState("issuer epoch"), "controller state is missing: issuer epoch"),
        (StoreError::UnsupportedSchemaVersion, "controller schema version is unsupported"),
        (StoreError::ClockRegression, "controller database clock regressed"),
        (StoreError::ClockFenced, "controller clock is fenced"),
        (StoreError::ClockSourceUnavailable, "controller clock source is unavailable"),
    ];
    for (error, message) in messages {
        assert_eq!(error.message(), message);
    }
}
