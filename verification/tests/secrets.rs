use blindpass_store::clock::{ClockReading, ClockSample, RunningClockCheck, StartupClockCheck};
use blindpass_store::error::{DatabaseFault, StoreError};
use blindpass_store::ids::{new_hex_id, new_uuid};
use blindpass_store::records::{
    AdminAgentRecord, AgentCredential, CreatedSecretRequest, EncryptedPayload,
    ExchangePolicyRecord, ExchangeRecord, LifecycleRecord, RateLimitResult, SecretRequestMetadata,
    SecretRequestStatus,
};
use blindpass_store::schema::{SchemaSnapshot, Startup};
use blindpass_store::store::Store;

fn sample() -> ClockSample {
    ClockSample { boot_id: Some("boot-1".to_owned()), boottime_ms: 5_000, host_wall_ms: 7_000 }
}

fn steady() -> RunningClockCheck {
    RunningClockCheck {
        database_regressed: false,
        host_regressed: false,
        database_advanced: false,
        host_advanced: false,
    }
}

/// A reading that passes the checkpoint at a moment.
fn at(now_ms: i64) -> ClockReading {
    ClockReading {
        checkpoint_ms: now_ms,
        sample: Some(sample()),
        check: steady(),
        monotonic_ms: 0,
        now_ms,
        later_ms: now_ms,
        audit_id: format!("fence-{now_ms}"),
    }
}

fn startup() -> Startup {
    Startup {
        url: "sqlite:controller.db".to_owned(),
        schema: SchemaSnapshot { tables: Vec::new(), version: None },
        meta: None,
        clock: None,
        candidate_tenant_id: "tenant-a".to_owned(),
        meta_ms: 900,
        sample: Some(sample()),
        clock_ms: 1_000,
    }
}

/// A controller that was brought up at moment 1000.
fn store() -> Store {
    let mut store = Store::empty();
    let reply = store.connect(&startup(), StartupClockCheck::SameBoot, 1_000, 0, "audit-start");
    assert_eq!(reply, Ok(()));
    store
}

fn asked() -> Store {
    let mut store = store();
    assert_eq!(
        store.open_secret_request(&at(1_000), "req", "agent", "pub", "why", "1234", 10),
        Ok(CreatedSecretRequest { id: "req".to_owned(), expires_at_ms: 11_000 })
    );
    store
}

#[test]
fn a_request_is_read_until_it_expires() {
    let mut store = asked();
    assert_eq!(
        store.secret_request_metadata(&at(10_999), "req"),
        Ok(Some(SecretRequestMetadata {
            requester_agent_id: "agent".to_owned(),
            public_key: "pub".to_owned(),
            description: "why".to_owned(),
            confirmation_code: "1234".to_owned(),
            expires_at_ms: 11_000,
        }))
    );
    assert_eq!(
        store.browser_request_status(&at(10_999), "req"),
        Ok(Some(SecretRequestStatus::Pending))
    );
    assert_eq!(store.secret_request_metadata(&at(11_000), "req"), Ok(None));
    assert_eq!(store.browser_request_status(&at(11_000), "req"), Ok(None));
    assert_eq!(store.request_status(&at(11_000), "req", "agent"), Ok(None));
}

#[test]
fn incomplete_requests_are_refused() {
    let mut store = store();
    let refused = Err(StoreError::InvalidInput("secret request"));
    assert_eq!(store.open_secret_request(&at(1_000), "r", "", "p", "", "c", 1), refused);
    assert_eq!(store.open_secret_request(&at(1_000), "r", "a", "", "", "c", 1), refused);
    assert_eq!(store.open_secret_request(&at(1_000), "r", "a", "p", "", "", 1), refused);
    assert_eq!(
        store.open_secret_request(&at(1_000), "r", "a", "p", "", "c", 0),
        Err(StoreError::InvalidInput("request TTL"))
    );
    assert_eq!(
        store.open_secret_request(&at(1_000), "r", "a", "p", "", "c", 9_223_372_036_854_775),
        Err(StoreError::Database(DatabaseFault::OutOfRange))
    );
    assert!(store.secret_requests.is_empty());
}

#[test]
fn a_clock_behind_the_mark_gives_no_time() {
    let mut store = store();
    let mut behind = at(1_000);
    behind.now_ms = 999;
    assert_eq!(
        store.open_secret_request(&behind, "r", "a", "p", "", "c", 1),
        Err(StoreError::Database(DatabaseFault::ClockBehind))
    );
    let mut store = asked();
    assert_eq!(store.secret_request_metadata(&behind, "req"), Ok(None));
    assert_eq!(store.delete_secret_request(&behind, "req", "agent"), Ok(false));
}

#[test]
fn a_secret_is_handed_out_once_as_it_was_submitted() {
    let mut store = asked();
    assert_eq!(store.consume_secret_request(&at(2_000), "req", "agent"), Ok(None));
    assert_eq!(
        store.submit_secret_request(&at(2_000), "req", "agent", "enc", "cipher", 5),
        Ok(true)
    );
    assert_eq!(
        store.request_status(&at(2_000), "req", "agent"),
        Ok(Some(SecretRequestStatus::Submitted))
    );
    assert_eq!(
        store.submit_secret_request(&at(2_000), "req", "agent", "e2", "c2", 5),
        Ok(false)
    );
    assert_eq!(store.consume_secret_request(&at(3_000), "req", "other"), Ok(None));
    assert_eq!(store.consume_secret_request(&at(7_000), "req", "agent"), Ok(None));
    assert_eq!(
        store.consume_secret_request(&at(6_999), "req", "agent"),
        Ok(Some(EncryptedPayload { enc: "enc".to_owned(), ciphertext: "cipher".to_owned() }))
    );
    assert_eq!(store.consume_secret_request(&at(6_999), "req", "agent"), Ok(None));
}

#[test]
fn empty_payloads_are_refused() {
    let mut store = asked();
    let refused = Err(StoreError::InvalidInput("encrypted payload"));
    assert_eq!(store.submit_secret_request(&at(2_000), "req", "agent", "", "c", 5), refused);
    assert_eq!(store.submit_secret_request(&at(2_000), "req", "agent", "e", "", 5), refused);
    assert_eq!(
        store.submit_secret_request(&at(2_000), "req", "agent", "e", "c", 0),
        Err(StoreError::InvalidInput("submitted TTL"))
    );
}

#[test]
fn a_submitted_row_without_ciphertext_is_kept() {
    let mut store = asked();
    assert_eq!(store.submit_secret_request(&at(2_000), "req", "agent", "e", "c", 5), Ok(true));
    store.secret_requests[0].ciphertext = None;
    assert_eq!(
        store.consume_secret_request(&at(3_000), "req", "agent"),
        Err(StoreError::Database(DatabaseFault::MissingValue))
    );
    assert_eq!(store.secret_requests.len(), 1);
    store.secret_requests[0].status = "lost".to_owned();
    assert_eq!(
        store.request_status(&at(3_000), "req", "agent"),
        Err(StoreError::MissingState("secret request status"))
    );
}

#[test]
fn a_request_is_deleted_by_its_agent() {
    let mut store = asked();
    assert_eq!(store.delete_secret_request(&at(2_000), "req", "other"), Ok(false));
    assert_eq!(store.delete_secret_request(&at(2_000), "req", "agent"), Ok(true));
    assert_eq!(store.delete_secret_request(&at(2_000), "req", "agent"), Ok(false));
}

#[test]
fn requests_get_identifiers_of_their_own() {
    let mut store = store();
    let one = store.create_secret_request(&at(1_000), "a", "p", "d", "c", 5);
    let two = store.create_secret_request_with_expiry(&at(1_000), "a", "p", "d", "c", 5);
    assert_eq!(one.as_ref().map(|id| id.len()), Ok(64));
    assert_eq!(two.as_ref().map(|created| created.expires_at_ms), Ok(6_000));
    assert_ne!(one, two.map(|created| created.id));
    assert_eq!(store.secret_requests.len(), 2);
    assert_eq!(
        store.open_secret_request(
            &at(1_000),
            &store.secret_requests[0].id.clone(),
            "a",
            "p",
            "d",
            "c",
            5
        ),
        Err(StoreError::Database(DatabaseFault::DuplicateKey))
    );
}

#[test]
fn identifiers_are_random_and_well_formed() {
    let hex = new_hex_id();
    assert_eq!(hex.len(), 64);
    assert!(hex.bytes().all(|b| b.is_ascii_digit() || (b'a'..=b'f').contains(&b)));
    assert_ne!(hex, new_hex_id());
    let uuid = new_uuid();
    let bytes = uuid.as_bytes();
    assert_eq!(bytes.len(), 36);
    for place in [8, 13, 18, 23] {
        assert_eq!(bytes[place], b'-');
    }
    assert_eq!(bytes[14], b'4');
    assert!(matches!(bytes[19], b'8' | b'9' | b'a' | b'b'));
    assert_ne!(uuid, new_uuid());
}

fn exchange(id: &str) -> ExchangeRecord {
    ExchangeRecord {
        exchange_id: id.to_owned(),
        requester_id: "asker".to_owned(),
        workspace_id: "elsewhere".to_owned(),
        requester_public_key: "pub".to_owned(),
        secret_name: "token".to_owned(),
        purpose: "deploy".to_owned(),
        fulfiller_hint: "ops".to_owned(),
        allowed_fulfiller_id: Some("giver".to_owned()),
        fulfilled_by: Some("nobody".to_owned()),
        policy: ExchangePolicyRecord {
            mode: "allow".to_owned(),
            approval_required: false,
            rule_id: "r1".to_owned(),
            reason: "ok".to_owned(),
            approval_reference: None,
            requester_ring: None,
            fulfiller_ring: None,
            secret_name: "token".to_owned(),
        },
        policy_hash: "hash".to_owned(),
        status: "whatever".to_owned(),
        prior_exchange_id: None,
        supersedes_exchange_id: None,
        created_at_ms: 5,
        expires_at_ms: 6,
        enc: Some("x".to_owned()),
        ciphertext: Some("y".to_owned()),
    }
}

fn long_id() -> String {
    "e".repeat(64)
}

fn exchanged() -> Store {
    let mut store = store();
    let created = store.create_exchange(&at(1_000), &at(1_001), &exchange(&long_id()), 10);
    let mut expected = exchange(&long_id());
    expected.workspace_id = "tenant-a".to_owned();
    expected.fulfilled_by = None;
    expected.status = "pending".to_owned();
    expected.created_at_ms = 1_000;
    expected.expires_at_ms = 11_000;
    expected.enc = None;
    expected.ciphertext = None;
    assert_eq!(created, Ok(expected));
    store
}

#[test]
fn an_exchange_runs_from_request_to_retrieval() {
    let mut store = exchanged();
    let id = long_id();
    assert_eq!(store.reserve_exchange(&at(2_000), &at(2_000), &id, "other"), Ok(None));
    assert_eq!(
        store.submit_exchange(&at(2_000), &at(2_000), &id, "giver", "e", "c", 5),
        Ok(None)
    );
    let reserved = store.reserve_exchange(&at(2_000), &at(2_000), &id, "giver");
    let reserved = reserved.map(|found| found.map(|record| (record.status, record.fulfilled_by)));
    assert_eq!(reserved, Ok(Some(("reserved".to_owned(), Some("giver".to_owned())))));
    let submitted = store.submit_exchange(&at(3_000), &at(3_000), &id, "giver", "e", "c", 5);
    let submitted =
        submitted.map(|found| found.map(|record| (record.status, record.expires_at_ms)));
    assert_eq!(submitted, Ok(Some(("submitted".to_owned(), 8_000))));
    assert_eq!(store.consume_exchange(&at(4_000), &id, "other"), Ok(None));
    let taken = store.consume_exchange(&at(4_000), &id, "asker");
    let taken = taken.map(|found| found.map(|record| (record.enc, record.ciphertext)));
    assert_eq!(taken, Ok(Some((Some("e".to_owned()), Some("c".to_owned())))));
    assert_eq!(store.consume_exchange(&at(4_000), &id, "asker"), Ok(None));
    assert!(store.exchanges.is_empty());
}

#[test]
fn a_revoked_exchange_keeps_its_first_end_and_no_payload() {
    let mut store = exchanged();
    let id = long_id();
    assert_eq!(
        store.revoke_exchange(&at(2_000), &at(2_000), &id, Some("other"), 3),
        Ok(None)
    );
    let gone = store.revoke_exchange(&at(2_000), &at(2_000), &id, None, 3);
    let gone = gone.map(|found| found.map(|r| (r.status, r.expires_at_ms, r.enc)));
    assert_eq!(gone, Ok(Some(("revoked".to_owned(), 5_000, None))));
    let again = store.revoke_exchange(&at(3_000), &at(3_000), &id, Some("asker"), 60);
    assert_eq!(again.map(|found| found.map(|r| r.expires_at_ms)), Ok(Some(5_000)));
    assert_eq!(
        store.revoke_exchange(&at(3_000), &at(3_000), &id, None, 0),
        Err(StoreError::InvalidInput("revoked exchange TTL"))
    );
    assert_eq!(store.get_exchange(&at(5_000), &id), Ok(None));
}

#[test]
fn malformed_exchanges_are_refused() {
    let mut store = exchanged();
    let refused = Err(StoreError::InvalidInput("exchange"));
    assert_eq!(store.create_exchange(&at(1_000), &at(1_000), &exchange("short"), 1), refused);
    let mut unnamed = exchange(&"f".repeat(64));
    unnamed.secret_name = String::new();
    assert_eq!(store.create_exchange(&at(1_000), &at(1_000), &unnamed, 1), refused);
    assert_eq!(
        store.create_exchange(&at(1_000), &at(1_000), &exchange(&"f".repeat(64)), 0),
        Err(StoreError::InvalidInput("exchange TTL"))
    );
    assert_eq!(
        store.create_exchange(&at(1_000), &at(1_000), &exchange(&long_id()), 1),
        Err(StoreError::Database(DatabaseFault::DuplicateKey))
    );
    assert_eq!(
        store.submit_exchange(&at(1_000), &at(1_000), &long_id(), "giver", "", "c", 1),
        Err(StoreError::InvalidInput("exchange payload"))
    );
    assert_eq!(
        store.submit_exchange(&at(1_000), &at(1_000), &long_id(), "giver", "e", "c", 0),
        Err(StoreError::InvalidInput("submitted exchange TTL"))
    );
    assert_eq!(
        store.create_exchange(&at(1_000), &at(9_000), &exchange(&"f".repeat(64)), 1),
        Err(StoreError::MissingState("created exchange"))
    );
}

#[test]
fn an_unreadable_policy_is_missing_state() {
    let mut store = exchanged();
    store.exchanges[0].policy_readable = false;
    assert_eq!(
        store.get_exchange(&at(2_000), &long_id()),
        Err(StoreError::MissingState("exchange policy"))
    );
    store.exchanges[0].record.status = "submitted".to_owned();
    assert_eq!(
        store.consume_exchange(&at(2_000), &long_id(), "asker"),
        Err(StoreError::MissingState("exchange policy"))
    );
    assert_eq!(store.exchanges.len(), 1);
}

fn step(id: &str, metadata: Option<&str>) -> LifecycleRecord {
    LifecycleRecord {
        record_id: id.to_owned(),
        event_type: "created".to_owned(),
        exchange_id: Some("ex".to_owned()),
        approval_reference: None,
        requester_id: "asker".to_owned(),
        workspace_id: "elsewhere".to_owned(),
        secret_name: "token".to_owned(),
        purpose: "deploy".to_owned(),
        fulfiller_hint: None,
        actor_id: Some("asker".to_owned()),
        status: None,
        prior_status: None,
        reason: None,
        policy_rule_id: None,
        metadata: metadata.map(|text| text.to_owned()),
        created_at_ms: 0,
    }
}

#[test]
fn lifecycle_steps_are_listed_oldest_first() {
    let mut store = store();
    assert_eq!(store.append_lifecycle(&at(1_002), &step("b", Some("{\"a\":1}"))), Ok(()));
    assert_eq!(store.append_lifecycle(&at(1_001), &step("c", None)), Ok(()));
    assert_eq!(store.append_lifecycle(&at(1_002), &step("a", Some("not json"))), Ok(()));
    assert_eq!(
        store.append_lifecycle(&at(1_003), &step("a", None)),
        Err(StoreError::Database(DatabaseFault::DuplicateKey))
    );
    let steps = store.list_exchange_lifecycle(&at(1_004), "ex", 10).unwrap();
    let shown: Vec<(&str, &str)> =
        steps.iter().map(|record| (record.id.as_str(), record.metadata.as_str())).collect();
    assert_eq!(shown, vec![("c", "null"), ("a", "null"), ("b", "{\"a\":1}")]);
    assert_eq!(steps[0].actor_type, "local");
    assert_eq!(steps[0].workspace_id, "tenant-a");
    assert_eq!(steps[0].resource_id, Some("ex".to_owned()));
    assert_eq!(store.list_exchange_lifecycle(&at(1_004), "ex", 0).unwrap().len(), 1);
    assert_eq!(store.list_exchange_lifecycle(&at(1_004), "other", 9).unwrap().len(), 0);
}

#[test]
fn audit_events_are_listed_newest_first_page_by_page() {
    let mut store = store();
    for (ms, id) in [(1_001, "a"), (1_002, "b"), (1_002, "c")] {
        assert_eq!(
            store.append_audit_with_id(
                &at(ms),
                id,
                "login",
                "operator",
                Some("op"),
                "session",
                Some("s"),
                "{}"
            ),
            Ok(())
        );
    }
    assert_eq!(store.append_audit(&at(1_003), "x", "system", None, "t", None, "oops"), Ok(()));
    let events = store.list_audit(&at(1_004), 200).unwrap();
    let ids: Vec<&str> = events.iter().skip(1).map(|event| event.id.as_str()).collect();
    assert_eq!(ids, vec!["c", "b", "a"]);
    assert_eq!(events[0].id.len(), 64);
    assert_eq!(events[0].metadata, "null");
    assert_eq!(events[1].event_type, "login");
    let page = store.list_audit_after_cursor(&at(1_004), Some((1_002, "c".to_owned())), 1).unwrap();
    assert_eq!(page.len(), 1);
    assert_eq!(page[0].id, "b");
    let rest = store.list_audit_after_cursor(&at(1_004), Some((1_002, "b".to_owned())), 9).unwrap();
    assert_eq!(rest.len(), 1);
    assert_eq!(rest[0].id, "a");
}

fn agent_id() -> String {
    "00000000-0000-4000-8000-000000000001".to_owned()
}

#[test]
fn an_agent_is_created_rekeyed_and_revoked() {
    let mut store = store();
    let created =
        store.create_agent_with_id(&at(1_000), &agent_id(), " bot ", "\tBot\n", Some("r"), "h1");
    let expected = AgentCredential {
        id: agent_id(),
        agent_id: "bot".to_owned(),
        name: "Bot".to_owned(),
        api_key_hash: "h1".to_owned(),
        status: "active".to_owned(),
        key_version: 1,
        created_at_ms: 1_000,
        revoked_at_ms: None,
    };
    assert_eq!(created, Ok(expected.clone()));
    assert_eq!(store.agent_by_key_id(&at(1_000), &agent_id()), Ok(Some(expected.clone())));
    assert_eq!(store.agent_by_agent_id(&at(1_000), "bot"), Ok(Some(expected)));
    assert_eq!(store.replace_agent_api_key_hash(&at(1_100), "bot", 2, "h2"), Ok(None));
    let rekeyed = store.replace_agent_api_key_hash(&at(1_100), "bot", 1, "h2").unwrap().unwrap();
    assert_eq!((rekeyed.key_version, rekeyed.api_key_hash.as_str()), (2, "h2"));
    assert_eq!(store.agents[0].rotated_at_ms, Some(1_100));
    assert_eq!(store.revoke_agent(&at(1_200), "bot"), Ok(true));
    assert_eq!(store.revoke_agent(&at(1_200), "bot"), Ok(false));
    assert_eq!(store.replace_agent_api_key_hash(&at(1_300), "bot", 2, "h3"), Ok(None));
    assert_eq!(
        store.list_admin_agents(&at(1_300)),
        Ok(vec![AdminAgentRecord {
            id: agent_id(),
            agent_id: "bot".to_owned(),
            name: "Bot".to_owned(),
            status: "revoked".to_owned(),
            created_at_ms: 1_000,
            revoked_at_ms: Some(1_200),
        }])
    );
}

#[test]
fn incomplete_agents_are_refused() {
    let mut store = store();
    let refused = Err(StoreError::InvalidInput("agent"));
    assert_eq!(store.create_agent_with_id(&at(1_000), &agent_id(), " ", "n", None, "h"), refused);
    assert_eq!(
        store.create_agent_with_id(&at(1_000), &agent_id(), "a", "\u{3000}", None, "h"),
        refused
    );
    assert_eq!(store.create_agent_with_id(&at(1_000), &agent_id(), "a", "n", None, ""), refused);
    assert_eq!(
        store.create_agent_with_id(&at(1_000), "short", "a", "n", None, "h"),
        Err(StoreError::InvalidInput("agent id"))
    );
    let one = store.create_agent(&at(1_000), "a", "n", None, "h").unwrap();
    assert_eq!(one.id.len(), 36);
    assert_eq!(
        store.create_agent_with_id(&at(1_000), &one.id, "b", "n", None, "h"),
        Err(StoreError::Database(DatabaseFault::DuplicateKey))
    );
    store.agents[0].credential.key_version = i64::MAX;
    assert_eq!(
        store.replace_agent_api_key_hash(&at(1_000), "a", i64::MAX, "h"),
        Err(StoreError::Database(DatabaseFault::OutOfRange))
    );
}

#[test]
fn agents_are_listed_by_name_and_key() {
    let mut store = store();
    for (name, digit) in [("b", '1'), ("a", '3'), ("a", '2')] {
        let id = format!("00000000-0000-4000-8000-00000000000{digit}");
        assert!(store.create_agent_with_id(&at(1_000), &id, name, "n", None, "h").is_ok());
    }
    let listed = store.list_admin_agents(&at(1_000)).unwrap();
    let ends: Vec<char> = listed.iter().map(|agent| agent.id.chars().last().unwrap()).collect();
    assert_eq!(ends, vec!['2', '3', '1']);
}

#[test]
fn a_rate_window_counts_until_it_closes() {
    let mut store = store();
    assert_eq!(
        store.consume_rate_limit(&at(1_000), "k", 5, 2_500),
        Ok(RateLimitResult { count: 1, retry_after_seconds: 3 })
    );
    assert_eq!(
        store.consume_rate_limit(&at(2_500), "k", 5, 9_000),
        Ok(RateLimitResult { count: 2, retry_after_seconds: 1 })
    );
    assert_eq!(
        store.consume_rate_limit(&at(3_500), "k", 5, 2_000),
        Ok(RateLimitResult { count: 1, retry_after_seconds: 2 })
    );
    assert_eq!(store.rate_windows[0].window_start_ms, 3_500);
    let limit = Err(StoreError::InvalidInput("rate limit"));
    assert_eq!(store.consume_rate_limit(&at(3_500), "", 5, 1), limit);
    assert_eq!(store.consume_rate_limit(&at(3_500), "k", 0, 1), limit);
    let window = Err(StoreError::InvalidInput("rate window"));
    assert_eq!(store.consume_rate_limit(&at(3_500), "k", 5, 0), window);
    assert_eq!(store.consume_rate_limit(&at(3_500), "k", 5, u64::MAX), window);
    assert_eq!(
        store.consume_rate_limit(&at(3_500), "k", 5, i64::MAX as u64),
        Err(StoreError::Database(DatabaseFault::OutOfRange))
    );
    store.rate_windows[0].count = i64::MAX;
    assert_eq!(
        store.consume_rate_limit(&at(3_500), "k", 5, 1),
        Err(StoreError::Database(DatabaseFault::OutOfRange))
    );
}

#[test]
fn sweeps_delete_what_lapsed_before_the_grace() {
    let mut store = asked();
    assert!(store.consume_rate_limit(&at(1_000), "k", 5, 1_000).is_ok());
    assert!(store.create_exchange(&at(1_000), &at(1_000), &exchange(&long_id()), 60).is_ok());
    assert_eq!(store.sweep_expired(&at(12_999), 2), Ok(1));
    assert!(store.rate_windows.is_empty());
    assert_eq!(store.secret_requests.len(), 1);
    assert_eq!(store.sweep_expired(&at(13_000), 2), Ok(1));
    assert!(store.secret_requests.is_empty());
    assert_eq!(store.exchanges.len(), 1);
    assert_eq!(store.sweep_expired(&at(62_000), 0), Ok(1));
    assert_eq!(
        store.sweep_expired(&at(62_000), u64::MAX),
        Err(StoreError::InvalidInput("sweep grace"))
    );
}

#[test]
fn audit_retention_is_counted_in_days() {
    let mut store = store();
    assert!(store.append_audit(&at(1_000), "e", "system", None, "t", None, "{}").is_ok());
    assert_eq!(
        store.sweep_audit(&at(1_000), 0),
        Err(StoreError::InvalidInput("audit retention"))
    );
    assert_eq!(store.sweep_audit(&at(86_400_999), 1), Ok(0));
    assert_eq!(store.sweep_audit(&at(86_401_000), 1), Ok(1));
    assert!(store.audit_events.is_empty());
}

#[test]
fn other_tenants_are_left_alone() {
    let mut store = asked();
    let mut foreign = store.secret_requests[0].clone();
    foreign.tenant_id = "tenant-b".to_owned();
    foreign.id = "theirs".to_owned();
    store.secret_requests.push(foreign.clone());
    assert_eq!(store.secret_request_metadata(&at(2_000), "theirs"), Ok(None));
    assert_eq!(store.delete_secret_request(&at(2_000), "theirs", "agent"), Ok(false));
    assert_eq!(store.submit_secret_request(&at(2_000), "theirs", "agent", "e", "c", 5), Ok(false));
    assert_eq!(store.secret_requests[1], foreign);
}

#[test]
fn a_sweep_changes_no_answer() {
    let mut unswept = asked();
    assert!(unswept.consume_rate_limit(&at(2_000), "key", 5, 1_000).is_ok());
    assert!(unswept.consume_rate_limit(&at(2_000), "long", 5, 60_000).is_ok());
    let mut swept = unswept.clone();
    assert_eq!(swept.sweep_expired(&at(13_000), 2), Ok(2));
    assert_ne!(swept, unswept);
    let later = at(13_000);
    assert_eq!(
        swept.secret_request_metadata(&later, "req"),
        unswept.secret_request_metadata(&later, "req")
    );
    for key in ["key", "long"] {
        assert_eq!(
            swept.consume_rate_limit(&later, key, 5, 1_000),
            unswept.consume_rate_limit(&later, key, 5, 1_000)
        );
    }
}
