use blindpass_store::clock::{ClockReading, ClockSample, RunningClockCheck, StartupClockCheck};
use blindpass_store::error::{DatabaseFault, StoreError};
use blindpass_store::records::LocalOperator;
use blindpass_store::schema::{SchemaSnapshot, Startup};
use blindpass_store::store::Store;

fn sample() -> ClockSample {
    ClockSample { boot_id: Some("boot-1".to_owned()), boottime_ms: 5_000, host_wall_ms: 7_000 }
}

fn steady() -> RunningClockCheck {
    RunningClockCheck {
        database_regressed: false,
        host_regressed: false,
        database_advanced: false,
        host_advanced: false,
    }
}

/// A reading that passes the checkpoint at a moment.
fn at(now_ms: i64) -> ClockReading {
    ClockReading {
        checkpoint_ms: now_ms,
        sample: Some(sample()),
        check: steady(),
        monotonic_ms: 0,
        now_ms,
        later_ms: now_ms,
        audit_id: format!("fence-{now_ms}"),
    }
}

fn startup() -> Startup {
    Startup {
        url: "sqlite:controller.db".to_owned(),
        schema: SchemaSnapshot { tables: Vec::new(), version: None },
        meta: None,
        clock: None,
        candidate_tenant_id: "tenant-a".to_owned(),
        meta_ms: 900,
        sample: Some(sample()),
        clock_ms: 1_000,
    }
}

/// A controller that was brought up at moment 1000.
fn store() -> Store {
    let mut store = Store::empty();
    let reply = store.connect(&startup(), StartupClockCheck::SameBoot, 1_000, 0, "audit-start");
    assert_eq!(reply, Ok(()));
    store
}

const HOUR_MS: i64 = 3_600_000;

fn operator(store: &mut Store, id: &str, name: &str, role: &str) {
    assert_eq!(store.create_local_operator(&at(1_000), id, name, "Name", role, "pw"), Ok(()));
}

#[test]
fn the_first_administrator_is_bootstrapped_once() {
    let mut store = store();
    assert_eq!(store.has_active_admin(&at(1_000)), Ok(false));
    assert_eq!(store.bootstrap_local_operator(&at(1_000), "op", "ada", "Ada", "pw"), Ok(true));
    assert_eq!(store.has_active_admin(&at(1_000)), Ok(true));
    assert_eq!(
        store.operator_by_username(&at(1_000), "ada"),
        Ok(Some(LocalOperator {
            id: "op".to_owned(),
            username: "ada".to_owned(),
            display_name: "Ada".to_owned(),
            password_hash: "pw".to_owned(),
            role: "admin".to_owned(),
            must_change_password: true,
            disabled_at_ms: None,
        }))
    );
    let before = store.clone();
    assert_eq!(store.bootstrap_local_operator(&at(1_000), "o2", "bob", "Bob", "pw"), Ok(false));
    assert_eq!(store.issue_bootstrap_token(&at(1_000), "t", 60), Ok(false));
    assert_eq!(
        store.bootstrap_operator_with_token(&at(1_000), "t", "o2", "bob", "Bob", "pw"),
        Ok(false)
    );
    assert_eq!(store, before);
}

#[test]
fn a_bootstrap_token_works_once_and_in_time() {
    let mut store = store();
    assert_eq!(store.issue_bootstrap_token(&at(1_000), "t", 2), Ok(true));
    assert_eq!(
        store.issue_bootstrap_token(&at(1_000), "t", 2),
        Err(StoreError::Database(DatabaseFault::DuplicateKey))
    );
    assert_eq!(
        store.issue_bootstrap_token(&at(1_000), "u", 0),
        Err(StoreError::InvalidInput("bootstrap token TTL"))
    );
    let boot = |store: &mut Store, ms: i64, token: &str| {
        store.bootstrap_operator_with_token(&at(ms), token, "op", "ada", "Ada", "pw")
    };
    assert_eq!(boot(&mut store, 3_000, "t"), Ok(false));
    assert_eq!(boot(&mut store, 2_999, "wrong"), Ok(false));
    assert_eq!(boot(&mut store, 2_999, "t"), Ok(true));
    assert_eq!(store.bootstrap_tokens[0].used_at_ms, Some(2_999));
    assert!(!store.operators[0].operator.must_change_password);
    store.operators.clear();
    assert_eq!(boot(&mut store, 2_999, "t"), Ok(false));
}

#[test]
fn a_failed_bootstrap_leaves_its_token() {
    let mut store = store();
    operator(&mut store, "op", "eve", "viewer");
    assert_eq!(store.issue_bootstrap_token(&at(1_000), "t", 60), Ok(true));
    let before = store.clone();
    assert_eq!(
        store.bootstrap_operator_with_token(&at(1_000), "t", "op", "ada", "Ada", "pw"),
        Err(StoreError::Database(DatabaseFault::DuplicateKey))
    );
    assert_eq!(store, before);
}

#[test]
fn the_last_administrator_stays() {
    let mut store = store();
    operator(&mut store, "a", "ada", "admin");
    operator(&mut store, "b", "bob", "viewer");
    assert_eq!(store.update_local_operator(&at(1_000), "a", "Ada", "operator"), Ok(Some(false)));
    assert_eq!(store.delete_local_operator(&at(1_000), "a"), Ok(Some(false)));
    assert_eq!(store.update_local_operator(&at(1_000), "a", "Ada L", "admin"), Ok(Some(true)));
    assert_eq!(store.update_local_operator(&at(1_000), "b", "Bob", "admin"), Ok(Some(true)));
    assert_eq!(store.update_local_operator(&at(1_000), "a", "Ada", "operator"), Ok(Some(true)));
    assert_eq!(store.delete_local_operator(&at(1_000), "b"), Ok(Some(false)));
    assert_eq!(store.delete_local_operator(&at(1_000), "a"), Ok(Some(true)));
    assert_eq!(store.delete_local_operator(&at(1_000), "a"), Ok(None));
    assert_eq!(store.update_local_operator(&at(1_000), "a", "x", "viewer"), Ok(None));
    assert_eq!(store.has_active_admin(&at(1_000)), Ok(true));
}

#[test]
fn disabled_operators_are_not_edited() {
    let mut store = store();
    operator(&mut store, "a", "ada", "viewer");
    store.operators[0].operator.disabled_at_ms = Some(5);
    assert_eq!(store.update_local_operator(&at(1_000), "a", "x", "viewer"), Ok(None));
    assert_eq!(store.delete_local_operator(&at(1_000), "a"), Ok(None));
    assert_eq!(store.reset_local_operator_password(&at(1_000), "a", "new"), Ok(false));
    assert_eq!(store.operators.len(), 1);
}

#[test]
fn roles_are_known() {
    let mut store = store();
    let refused = StoreError::InvalidInput("operator role");
    assert_eq!(
        store.create_local_operator(&at(1_000), "a", "ada", "Ada", "root", "pw"),
        Err(refused)
    );
    operator(&mut store, "a", "ada", "viewer");
    assert_eq!(store.update_local_operator(&at(1_000), "a", "Ada", ""), Err(refused));
    assert_eq!(
        store.create_local_operator(&at(1_000), "a", "bob", "Bob", "viewer", "pw"),
        Err(StoreError::Database(DatabaseFault::DuplicateKey))
    );
}

#[test]
fn operators_are_listed_by_name() {
    let mut store = store();
    operator(&mut store, "1", "zoe", "viewer");
    operator(&mut store, "3", "ada", "viewer");
    operator(&mut store, "2", "ada", "viewer");
    let listed = store.list_local_operators(&at(1_000)).unwrap();
    let ids: Vec<&str> = listed.iter().map(|operator| operator.id.as_str()).collect();
    assert_eq!(ids, vec!["2", "3", "1"]);
    assert_eq!(store.operator_by_id(&at(1_000), "9"), Ok(None));
}

fn session_store() -> Store {
    let mut store = store();
    operator(&mut store, "op", "ada", "admin");
    let opened =
        store.open_browser_session(&at(1_000), &at(1_000), "s1", "csrf", "op", "r1", 86_400);
    let opened = opened.unwrap().unwrap();
    assert_eq!(opened.session_id, "s1");
    assert_eq!(opened.csrf_secret, "csrf");
    assert_eq!(opened.operator.id, "op");
    assert_eq!(opened.expires_at_ms, 1_000 + 12 * HOUR_MS);
    store
}

#[test]
fn a_session_ends_when_idle_expired_or_revoked() {
    let mut store = session_store();
    let idle = 1_000 + 12 * HOUR_MS;
    assert!(store.browser_session_by_id(&at(idle - 1), "s1").unwrap().is_some());
    assert_eq!(store.browser_session_by_id(&at(idle), "s1"), Ok(None));
    assert_eq!(store.touch_browser_session(&at(idle), "s1"), Ok(false));
    assert_eq!(store.touch_browser_session(&at(idle - 1), "s1"), Ok(true));
    let found = store.browser_session_by_refresh_hash(&at(idle), "r1").unwrap().unwrap();
    assert_eq!(found.expires_at_ms, 1_000 + 24 * HOUR_MS - 1);
    let end = 1_000 + 24 * HOUR_MS;
    store.operator_sessions[0].last_seen_at_ms = end;
    assert_eq!(store.browser_session_by_id(&at(end), "s1"), Ok(None));
    store.operator_sessions[0].expires_at_ms = end + 1;
    assert!(store.browser_session_by_id(&at(end), "s1").unwrap().is_some());
    assert_eq!(store.revoke_browser_session(&at(end), "s1"), Ok(true));
    assert_eq!(store.revoke_browser_session(&at(end), "s1"), Ok(false));
    assert_eq!(store.browser_session_by_id(&at(end), "s1"), Ok(None));
    assert!(store.browser_session_for_refresh_hash(&at(end), "r1").unwrap().is_some());
}

#[test]
fn a_disabled_owner_has_no_session() {
    let mut store = session_store();
    store.operators[0].operator.disabled_at_ms = Some(7);
    assert_eq!(store.browser_session_by_id(&at(2_000), "s1"), Ok(None));
    assert_eq!(store.touch_browser_session(&at(2_000), "s1"), Ok(false));
    assert_eq!(
        store.open_browser_session(&at(2_000), &at(2_000), "s2", "c", "op", "r2", 60),
        Ok(None)
    );
    assert_eq!(
        store.rotate_browser_session_to(&at(2_000), &at(2_000), "s2", "r1", "r2", 60),
        Ok(None)
    );
    assert_eq!(store.operator_sessions[0].revoked_at_ms, Some(2_000));
}

#[test]
fn a_rotation_replaces_the_session() {
    let mut store = session_store();
    let rotated = store.rotate_browser_session_to(&at(2_000), &at(2_000), "s2", "r1", "r2", 60);
    let rotated = rotated.unwrap().unwrap();
    assert_eq!(rotated.session_id, "s2");
    assert_eq!(rotated.csrf_secret, "csrf");
    assert_eq!(rotated.expires_at_ms, 62_000);
    assert_eq!(store.operator_sessions[1].family_id, "s1");
    assert_eq!(store.operator_sessions[1].rotated_from, Some("s1".to_owned()));
    assert_eq!(store.browser_session_by_refresh_hash(&at(2_000), "r1"), Ok(None));
}

#[test]
fn a_replayed_refresh_hash_revokes_the_family() {
    let mut store = session_store();
    let rotated = store.rotate_browser_session(&at(2_000), &at(2_000), "r1", "r2", 60);
    assert_eq!(rotated.unwrap().unwrap().session_id.len(), 36);
    assert_eq!(
        store.rotate_browser_session_to(&at(3_000), &at(3_000), "s3", "r1", "r3", 60),
        Ok(None)
    );
    assert!(store.operator_sessions.iter().all(|session| session.revoked_at_ms.is_some()));
    assert_eq!(store.browser_session_by_refresh_hash(&at(3_000), "r2"), Ok(None));
    assert_eq!(store.operator_sessions.len(), 2);
}

#[test]
fn rotations_need_a_live_session() {
    let mut store = session_store();
    let refused = StoreError::InvalidInput("refresh hash");
    assert_eq!(
        store.rotate_browser_session_to(&at(2_000), &at(2_000), "s2", "r1", "", 60),
        Err(refused)
    );
    assert_eq!(
        store.rotate_browser_session_to(&at(2_000), &at(2_000), "s2", "r1", "r2", 0),
        Err(StoreError::InvalidInput("refresh TTL"))
    );
    assert_eq!(
        store.rotate_browser_session_to(&at(2_000), &at(2_000), "s2", "r9", "r2", 60),
        Ok(None)
    );
    let mut behind = at(2_000);
    behind.now_ms = 0;
    assert_eq!(
        store.rotate_browser_session_to(&behind, &at(2_000), "s2", "r1", "r2", 60),
        Err(StoreError::Database(DatabaseFault::ClockBehind))
    );
    let before = store.operator_sessions.clone();
    let idle = 1_000 + 12 * HOUR_MS;
    assert_eq!(
        store.rotate_browser_session_to(&at(idle), &at(idle), "s2", "r1", "r2", 60),
        Ok(None)
    );
    assert_eq!(store.operator_sessions, before);
    assert_eq!(
        store.open_browser_session(&at(2_000), &at(2_000), "s1", "c", "op", "r2", 60),
        Err(StoreError::ClockRegression)
    );
}

#[test]
fn sessions_are_opened_with_fresh_secrets() {
    let mut store = session_store();
    assert_eq!(
        store.open_browser_session(&at(1_000), &at(1_000), "s", "c", "op", "", 60),
        Err(StoreError::InvalidInput("refresh hash"))
    );
    assert_eq!(
        store.open_browser_session(&at(1_000), &at(1_000), "s1", "c", "op", "r", 60),
        Err(StoreError::Database(DatabaseFault::DuplicateKey))
    );
    let one = store.create_browser_session(&at(1_000), &at(1_000), "op", "r2", 60);
    let two = store.create_browser_session(&at(1_000), &at(1_000), "op", "r3", 60);
    let (one, two) = (one.unwrap().unwrap(), two.unwrap().unwrap());
    assert_eq!(one.session_id.len(), 36);
    assert_eq!(one.csrf_secret.len(), 43);
    assert!(one
        .csrf_secret
        .bytes()
        .all(|b| b.is_ascii_alphanumeric() || b == b'-' || b == b'_'));
    assert_ne!(one.csrf_secret, two.csrf_secret);
    assert_ne!(one.session_id, two.session_id);
    assert_eq!(store.create_browser_session(&at(1_000), &at(1_000), "no", "r4", 60), Ok(None));
}

#[test]
fn a_new_password_ends_other_sessions() {
    let mut store = session_store();
    let opened = store.open_browser_session(&at(1_000), &at(1_000), "s2", "c", "op", "r2", 60);
    assert!(opened.unwrap().is_some());
    assert_eq!(
        store.change_operator_password(&at(1_500), "op", "s2", ""),
        Err(StoreError::InvalidInput("password hash"))
    );
    assert_eq!(store.change_operator_password(&at(1_500), "op", "s2", "new"), Ok(true));
    assert_eq!(store.operators[0].operator.password_hash, "new");
    assert!(!store.operators[0].operator.must_change_password);
    assert_eq!(store.browser_session_by_id(&at(1_500), "s1"), Ok(None));
    assert!(store.browser_session_by_id(&at(1_500), "s2").unwrap().is_some());
    assert_eq!(store.reset_local_operator_password(&at(1_600), "op", "reset"), Ok(true));
    assert!(store.operators[0].operator.must_change_password);
    assert_eq!(store.browser_session_by_id(&at(1_600), "s2"), Ok(None));
    assert_eq!(
        store.reset_local_operator_password(&at(1_600), "op", ""),
        Err(StoreError::InvalidInput("password hash"))
    );
    assert_eq!(store.change_operator_password(&at(1_600), "no", "s", "x"), Ok(false));
}
