use blindpass_store::clock::{ClockReading, ClockSample, RunningClockCheck, StartupClockCheck};
use blindpass_store::documents::{
    DocumentKind, NodeGrantRevocationDraft, NodeKeyRotation, NodeKeyRotationDraft, NodeRevocation,
    Parsed,
};
use blindpass_store::error::{DatabaseFault, StoreError};
use blindpass_store::records::{
    InboxDocument, NodeChallenge, NodeEventInsert, NodeRecord, WorkloadRecord,
};
use blindpass_store::schema::{SchemaSnapshot, Startup};
use blindpass_store::store::Store;

fn sample() -> ClockSample {
    ClockSample { boot_id: Some("boot-1".to_owned()), boottime_ms: 5_000, host_wall_ms: 7_000 }
}

fn steady() -> RunningClockCheck {
    RunningClockCheck {
        database_regressed: false,
        host_regressed: false,
        database_advanced: false,
        host_advanced: false,
    }
}

/// A reading that passes the checkpoint at a moment.
fn at(now_ms: i64) -> ClockReading {
    ClockReading {
        checkpoint_ms: now_ms,
        sample: Some(sample()),
        check: steady(),
        monotonic_ms: 0,
        now_ms,
        later_ms: now_ms,
        audit_id: format!("fence-{now_ms}"),
    }
}

fn startup() -> Startup {
    Startup {
        url: "sqlite:controller.db".to_owned(),
        schema: SchemaSnapshot { tables: Vec::new(), version: None },
        meta: None,
        clock: None,
        candidate_tenant_id: "tenant-a".to_owned(),
        meta_ms: 900,
        sample: Some(sample()),
        clock_ms: 1_000,
    }
}

/// A controller that was brought up at moment 1000.
fn store() -> Store {
    let mut store = Store::empty();
    let reply = store.connect(&startup(), StartupClockCheck::SameBoot, 1_000, 0, "audit-start");
    assert_eq!(reply, Ok(()));
    store
}

fn enroll(store: &mut Store, id: &str, node: &str, name: &str) {
    let reply = store.create_enrollment(&at(1_000), id, node, name, "token", "op", 60);
    assert_eq!(reply, Ok(61_000));
}

fn submit(
    store: &mut Store,
    ms: i64,
    id: &str,
    node: &str,
    name: &str,
) -> Result<bool, StoreError> {
    let reading = at(ms);
    store.submit_enrollment(
        &reading, id, node, "token", name, "sign", "recv", "fp", "1", "[]", "{}",
    )
}

/// A controller with one active node.
fn with_node() -> Store {
    let mut store = store();
    enroll(&mut store, "e1", "n1", "edge");
    assert_eq!(submit(&mut store, 1_000, "e1", "n1", "edge"), Ok(true));
    assert!(store.approve_enrollment(&at(1_000), "e1", 2, "fp").unwrap().is_some());
    store
}

#[test]
fn an_enrollment_becomes_a_node() {
    let mut store = store();
    enroll(&mut store, "e1", "n1", "edge");
    assert_eq!(
        store.create_enrollment(&at(1_000), "e1", "n2", "far", "t", "op", 60),
        Err(StoreError::Database(DatabaseFault::DuplicateKey))
    );
    assert_eq!(
        store.create_enrollment(&at(1_000), "e2", "n2", "far", "t", "op", 0),
        Err(StoreError::InvalidInput("enrollment TTL"))
    );
    let found = store.issued_enrollment_by_token_hash(&at(1_000), "e1", "token").unwrap();
    assert_eq!(found.unwrap().version, 1);
    assert_eq!(store.issued_enrollment_by_token_hash(&at(1_000), "e1", "other"), Ok(None));
    assert_eq!(submit(&mut store, 1_000, "e1", "n1", "other"), Ok(false));
    assert_eq!(submit(&mut store, 1_000, "e1", "n1", "edge"), Ok(true));
    assert_eq!(submit(&mut store, 1_000, "e1", "n1", "edge"), Ok(false));
    assert_eq!(store.issued_enrollment_by_token_hash(&at(1_000), "e1", "token"), Ok(None));
    let seen = store.enrollment_by_id(&at(1_000), "e1").unwrap().unwrap();
    assert_eq!((seen.status.as_str(), seen.version), ("submitted", 2));
    assert_eq!(seen.fingerprint, Some("fp".to_owned()));
    assert_eq!(store.approve_enrollment(&at(1_000), "e1", 1, "fp"), Ok(None));
    assert_eq!(store.approve_enrollment(&at(1_000), "e1", 2, "forged"), Ok(None));
    let node = store.approve_enrollment(&at(1_500), "e1", 2, "fp").unwrap().unwrap();
    assert_eq!(
        node,
        NodeRecord {
            id: "n1".to_owned(),
            name: "edge".to_owned(),
            signing_pub: "sign".to_owned(),
            recipient_pub: "recv".to_owned(),
            key_version: 1,
            status: "active".to_owned(),
            revocation_pending: false,
            rotation_pending: false,
            pending_key_version: None,
            pending_rotation_id: None,
            protocol_version: "1".to_owned(),
            capabilities_json: "[]".to_owned(),
            last_seen_at_ms: None,
            last_poll_at_ms: None,
            created_at_ms: 1_500,
            revoked_at_ms: None,
            version: 1,
        }
    );
    assert_eq!(store.node_by_id(&at(1_500), "n1"), Ok(Some(node)));
    assert_eq!(store.active_node_ids(&at(1_500)), Ok(vec!["n1".to_owned()]));
    assert_eq!(store.node_key_history.len(), 1);
    assert_eq!(store.approve_enrollment(&at(1_500), "e1", 3, "fp"), Ok(None));
    assert_eq!(store.reject_enrollment(&at(1_500), "e1", 3, "fp"), Ok(false));
}

#[test]
fn an_enrollment_is_rejected_once() {
    let mut store = store();
    enroll(&mut store, "e1", "n1", "edge");
    assert_eq!(store.reject_enrollment(&at(1_000), "e1", 1, "fp"), Ok(false));
    assert_eq!(submit(&mut store, 1_000, "e1", "n1", "edge"), Ok(true));
    assert_eq!(store.reject_enrollment(&at(1_000), "e1", 2, "fp"), Ok(true));
    assert_eq!(store.reject_enrollment(&at(1_000), "e1", 2, "fp"), Ok(false));
    assert_eq!(store.approve_enrollment(&at(1_000), "e1", 3, "fp"), Ok(None));
    assert!(store.nodes.is_empty());
}

#[test]
fn an_expired_enrollment_is_not_submitted() {
    let mut store = store();
    enroll(&mut store, "e1", "n1", "edge");
    assert_eq!(submit(&mut store, 61_000, "e1", "n1", "edge"), Ok(false));
}

#[test]
fn an_expired_enrollment_is_not_decided() {
    let mut store = store();
    enroll(&mut store, "e1", "n1", "edge");
    assert_eq!(submit(&mut store, 1_000, "e1", "n1", "edge"), Ok(true));
    let mut in_time = store.clone();
    assert!(in_time.approve_enrollment(&at(60_999), "e1", 2, "fp").unwrap().is_some());
    let mut in_time = store.clone();
    assert_eq!(in_time.reject_enrollment(&at(60_999), "e1", 2, "fp"), Ok(true));
    let before = store.clone();
    assert_eq!(store.approve_enrollment(&at(61_000), "e1", 2, "fp"), Ok(None));
    assert_eq!(store.reject_enrollment(&at(61_000), "e1", 2, "fp"), Ok(false));
    assert_eq!(store.enrollment_requests, before.enrollment_requests);
    assert_eq!(store.node_key_history, before.node_key_history);
    assert!(store.nodes.is_empty());
}

#[test]
fn node_names_and_ids_are_not_reused() {
    let mut store = with_node();
    enroll(&mut store, "e2", "n2", "edge");
    assert_eq!(submit(&mut store, 1_000, "e2", "n2", "edge"), Ok(true));
    assert_eq!(store.approve_enrollment(&at(1_000), "e2", 2, "fp"), Ok(None));
    enroll(&mut store, "e3", "n1", "other");
    assert_eq!(submit(&mut store, 1_000, "e3", "n1", "other"), Ok(true));
    assert_eq!(
        store.approve_enrollment(&at(1_000), "e3", 2, "fp"),
        Err(StoreError::Database(DatabaseFault::DuplicateKey))
    );
    assert_eq!(store.nodes.len(), 1);
}

#[test]
fn an_incomplete_enrollment_is_not_approved() {
    let mut whole = store();
    enroll(&mut whole, "e1", "n1", "edge");
    assert_eq!(submit(&mut whole, 1_000, "e1", "n1", "edge"), Ok(true));
    let approve = |store: &mut Store| store.approve_enrollment(&at(1_000), "e1", 2, "fp");
    whole.enrollment_requests[0].record.capabilities_json = None;
    assert_eq!(approve(&mut whole), Err(StoreError::MissingState("enrollment capabilities")));
    whole.enrollment_requests[0].record.protocol_version = None;
    assert_eq!(approve(&mut whole), Err(StoreError::MissingState("enrollment protocol version")));
    whole.enrollment_requests[0].record.recipient_pub = None;
    assert_eq!(approve(&mut whole), Err(StoreError::MissingState("enrollment recipient key")));
    whole.enrollment_requests[0].record.signing_pub = None;
    assert_eq!(approve(&mut whole), Err(StoreError::MissingState("enrollment signing key")));
}

#[test]
fn enrollments_and_nodes_are_listed_newest_first() {
    let mut store = with_node();
    for (ms, id, node) in [(1_001, "e3", "n3"), (1_001, "e2", "n2")] {
        assert!(store.create_enrollment(&at(ms), id, node, node, "token", "op", 60).is_ok());
        assert_eq!(submit(&mut store, ms, id, node, node), Ok(true));
        assert!(store.approve_enrollment(&at(ms), id, 2, "fp").unwrap().is_some());
    }
    let all = store.list_enrollments(&at(1_002), 200, None).unwrap();
    let ids: Vec<&str> = all.iter().map(|record| record.id.as_str()).collect();
    assert_eq!(ids, vec!["e3", "e2", "e1"]);
    let next = store.list_enrollments(&at(1_002), 1, Some((1_001, "e3".to_owned()))).unwrap();
    assert_eq!(next[0].id, "e2");
    assert_eq!(next.len(), 1);
    let nodes = store.list_nodes(&at(1_002), 0, None).unwrap();
    assert_eq!(nodes.len(), 1);
    assert_eq!(nodes[0].id, "n3");
    let nodes = store.list_nodes(&at(1_002), 9, Some((1_001, "n2".to_owned()))).unwrap();
    assert_eq!(nodes[0].id, "n1");
    assert_eq!(nodes.len(), 1);
}

fn challenged(store: &mut Store, ms: i64) -> NodeChallenge {
    let reply = store.issue_node_challenge(&at(ms), "ch", "n1", "nonce", "1", "[]", "caps");
    reply.unwrap().unwrap()
}

#[test]
fn a_challenge_is_answered_once() {
    let mut store = with_node();
    let challenge = challenged(&mut store, 2_000);
    assert_eq!((challenge.expires_at_ms, challenge.issuer_epoch), (62_000, 1));
    assert_eq!(store.node_challenge(&at(61_999), "n1", "nonce"), Ok(Some(challenge.clone())));
    assert_eq!(store.node_challenge(&at(61_999), "n1", "other"), Ok(None));
    let answer = |store: &mut Store, ms: i64, nonce: &str, session: &str| {
        store.consume_node_challenge(&at(ms), &challenge, nonce, session, "bearer", 902_000)
    };
    assert_eq!(answer(&mut store, 61_999, "other", "s1"), Ok(false));
    assert_eq!(answer(&mut store, 61_999, "nonce", "s1"), Ok(true));
    assert_eq!(answer(&mut store, 61_999, "nonce", "s2"), Ok(false));
    assert_eq!(store.node_challenge(&at(61_999), "n1", "nonce"), Ok(None));
    assert_eq!(store.node_sessions.len(), 1);
    assert_eq!(answer(&mut store, 62_000, "nonce", "s2"), Ok(false));
}

#[test]
fn a_session_outlives_its_challenge_by_little() {
    let mut store = with_node();
    let challenge = challenged(&mut store, 2_000);
    let refused = Err(StoreError::InvalidInput("node session expiry"));
    let answer = |store: &mut Store, expires: i64| {
        store.consume_node_challenge(&at(2_000), &challenge, "nonce", "s1", "bearer", expires)
    };
    assert_eq!(answer(&mut store, 2_000), refused);
    assert_eq!(answer(&mut store, 962_001), refused);
    assert_eq!(answer(&mut store, 962_000), Ok(true));
    challenged(&mut store, 2_000);
    assert_eq!(
        answer(&mut store, 962_000),
        Err(StoreError::Database(DatabaseFault::DuplicateKey))
    );
}

#[test]
fn challenges_are_for_nodes_that_match() {
    let mut store = with_node();
    let ask = |store: &mut Store, node: &str, protocol: &str, capabilities: &str| {
        store.issue_node_challenge(&at(2_000), "ch", node, "nonce", protocol, capabilities, "caps")
    };
    assert_eq!(ask(&mut store, "n9", "1", "[]"), Ok(None));
    assert_eq!(ask(&mut store, "n1", "2", "[]"), Ok(None));
    assert_eq!(ask(&mut store, "n1", "1", "{}"), Ok(None));
    store.nodes[0].status = "revoked".to_owned();
    assert_eq!(ask(&mut store, "n1", "1", "[]"), Ok(None));
    store.nodes[0].status = "active".to_owned();
    let drawn = store.create_node_challenge(&at(2_000), "n1", "nonce", "1", "[]", "caps");
    let drawn = drawn.unwrap().unwrap();
    assert!(drawn.id.starts_with("ch_"));
    assert_eq!(drawn.id.len(), 39);
    let again = store.create_node_challenge(&at(2_000), "n1", "nonce2", "1", "[]", "caps");
    assert_ne!(again.unwrap().unwrap().id, drawn.id);
    assert_eq!(store.node_challenges.len(), 1);
}

#[test]
fn a_node_is_authenticated_by_its_session() {
    let mut store = with_node();
    let challenge = challenged(&mut store, 2_000);
    let opened =
        store.consume_node_challenge(&at(2_000), &challenge, "nonce", "s1", "bearer", 10_000);
    assert_eq!(opened, Ok(true));
    let check = |store: &mut Store, ms: i64, token: &str, key: i64, epoch: i64, poll: bool| {
        store.authenticate_node_session(&at(ms), "s1", "n1", token, key, epoch, "1", poll)
    };
    assert_eq!(check(&mut store, 3_000, "bearer", 1, 1, false), Ok(true));
    assert_eq!(store.nodes[0].last_seen_at_ms, Some(3_000));
    assert_eq!(store.nodes[0].last_poll_at_ms, None);
    assert_eq!(check(&mut store, 4_000, "bearer", 1, 1, true), Ok(true));
    assert_eq!(store.nodes[0].last_poll_at_ms, Some(4_000));
    assert_eq!(check(&mut store, 4_000, "forged", 1, 1, true), Ok(false));
    assert_eq!(check(&mut store, 4_000, "bearer", 2, 1, true), Ok(false));
    assert_eq!(check(&mut store, 4_000, "bearer", 1, 2, true), Ok(false));
    assert_eq!(check(&mut store, 10_000, "bearer", 1, 1, true), Ok(false));
    assert_eq!(store.nodes[0].last_seen_at_ms, Some(4_000));
}

fn workload(id: &str) -> WorkloadRecord {
    WorkloadRecord {
        id: id.to_owned(),
        node_id: "n1".to_owned(),
        name: "web".to_owned(),
        unit: "web.service".to_owned(),
        account: "www".to_owned(),
        consumption_mode: "env".to_owned(),
        local_ceiling_seconds: 300,
        registration_version: 9,
        status: "ignored".to_owned(),
        created_at_ms: 3,
        revoked_at_ms: Some(4),
        version: 9,
    }
}

#[test]
fn the_inbox_repeats_until_acknowledged() {
    let mut store = with_node();
    assert_eq!(
        store.create_workload(&at(2_000), &workload("w1"), "op", "registration", "policy"),
        Ok(true)
    );
    let documents = vec![
        InboxDocument { seq: 1, envelope_json: "policy".to_owned() },
        InboxDocument { seq: 2, envelope_json: "registration".to_owned() },
    ];
    assert_eq!(store.poll_node_inbox(&at(2_000), "n1", Some(9)), Ok(documents.clone()));
    assert_eq!(store.poll_node_inbox(&at(2_001), "n1", None), Ok(documents.clone()));
    assert_eq!(store.node_inbox[0].delivered_at_ms, Some(2_000));
    assert_eq!(
        store.poll_node_inbox(&at(2_002), "n1", Some(1)),
        Ok(vec![documents[1].clone()])
    );
    assert_eq!(store.node_inbox[0].acked_at_ms, Some(2_002));
    assert_eq!(store.poll_node_inbox(&at(2_003), "n1", Some(2)), Ok(Vec::new()));
    assert_eq!(store.poll_node_inbox(&at(2_003), "n2", None), Ok(Vec::new()));
}

#[test]
fn the_inbox_is_read_fifty_at_a_time() {
    let mut store = with_node();
    let documents: Vec<(String, String)> =
        (1..=60).map(|seq| ("n1".to_owned(), format!("document {seq}"))).collect();
    assert_eq!(store.replace_fleet_policy(&at(2_000), 1, "{}", "op", &documents), Ok(true));
    let page = store.poll_node_inbox(&at(2_000), "n1", None).unwrap();
    let seqs: Vec<i64> = page.iter().map(|document| document.seq).collect();
    assert_eq!(seqs, (1..=50).collect::<Vec<i64>>());
    assert_eq!(store.node_inbox[50].delivered_at_ms, None);
    let rest = store.poll_node_inbox(&at(2_000), "n1", Some(60)).unwrap();
    assert_eq!(rest[0].seq, 51);
    assert_eq!(rest.len(), 10);
}

#[test]
fn a_full_inbox_takes_nothing() {
    let mut store = with_node();
    let one = vec![("n1".to_owned(), "document".to_owned())];
    assert_eq!(store.replace_fleet_policy(&at(2_000), 1, "{}", "op", &one), Ok(true));
    store.node_inbox[0].seq = i64::MAX;
    assert_eq!(
        store.replace_fleet_policy(&at(2_000), 2, "{}", "op", &one),
        Err(StoreError::InvalidInput("node inbox sequence"))
    );
    let large = vec![("n2".to_owned(), "x".repeat(65_537))];
    assert_eq!(
        store.replace_fleet_policy(&at(2_000), 2, "{}", "op", &large),
        Err(StoreError::InvalidInput("signed node document size"))
    );
    let largest = vec![("n2".to_owned(), "x".repeat(65_536))];
    assert_eq!(store.replace_fleet_policy(&at(2_000), 2, "{}", "op", &largest), Ok(true));
}

#[test]
fn an_event_is_recorded_once() {
    let mut store = with_node();
    let report = |store: &mut Store, id: &str, key: &str, hash: &str| {
        store.record_node_event(&at(2_000), id, "n1", key, "started", "{}", hash)
    };
    assert_eq!(report(&mut store, "ev1", "k1", "h"), Ok(NodeEventInsert::Inserted));
    assert_eq!(report(&mut store, "ev2", "k1", "h"), Ok(NodeEventInsert::Duplicate));
    assert_eq!(report(&mut store, "ev2", "k1", "g"), Ok(NodeEventInsert::Conflict));
    assert_eq!(
        report(&mut store, "ev1", "k2", "h"),
        Err(StoreError::Database(DatabaseFault::DuplicateKey))
    );
    assert_eq!(store.node_events.len(), 1);
    assert_eq!(store.node_events[0].received_at_ms, 2_000);
}

#[test]
fn workloads_are_registered_edited_and_revoked() {
    let mut store = with_node();
    let mut elsewhere = workload("w2");
    elsewhere.node_id = "n9".to_owned();
    assert_eq!(store.create_workload(&at(2_000), &elsewhere, "op", "r", "p"), Ok(false));
    assert_eq!(store.create_workload(&at(2_000), &workload("w1"), "op", "r", "p"), Ok(true));
    assert_eq!(
        store.create_workload(&at(2_000), &workload("w1"), "op", "r", "p"),
        Err(StoreError::Database(DatabaseFault::DuplicateKey))
    );
    let created = store.workload_by_id(&at(2_000), "w1").unwrap().unwrap();
    assert_eq!((created.status.as_str(), created.version), ("active", 1));
    assert_eq!((created.registration_version, created.revoked_at_ms), (1, None));
    assert_eq!(created.created_at_ms, 2_000);
    let edit = |store: &mut Store, version: i64, registration: &str| {
        store.update_workload(
            &at(2_001), "w1", version, "u", "a", "file", 60, "n1", registration, "p2",
        )
    };
    assert_eq!(edit(&mut store, 2, "r2"), Ok(false));
    let before = store.clone();
    assert_eq!(
        edit(&mut store, 1, ""),
        Err(StoreError::InvalidInput("signed node document size"))
    );
    assert_eq!(store.workloads, before.workloads);
    assert_eq!(store.node_inbox, before.node_inbox);
    assert_eq!(edit(&mut store, 1, "r2"), Ok(true));
    let edited = store.workload_by_id(&at(2_001), "w1").unwrap().unwrap();
    assert_eq!((edited.version, edited.registration_version), (2, 2));
    assert_eq!(edited.consumption_mode, "file");
    assert_eq!(store.revoke_workload(&at(2_002), "w1", "n1", 1, "r3", "p3"), Ok(false));
    assert_eq!(store.revoke_workload(&at(2_002), "w1", "n1", 2, "r3", "p3"), Ok(true));
    assert_eq!(store.revoke_workload(&at(2_002), "w1", "n1", 3, "r3", "p3"), Ok(false));
    assert_eq!(edit(&mut store, 3, "r4"), Ok(false));
    let revoked = &store.workloads[0].record;
    assert_eq!((revoked.status.as_str(), revoked.revoked_at_ms), ("revoked", Some(2_002)));
    assert_eq!(store.node_inbox.len(), 6);
}

#[test]
fn workloads_are_listed_newest_first() {
    let mut store = with_node();
    for id in ["w1", "w3", "w2"] {
        assert_eq!(store.create_workload(&at(2_000), &workload(id), "op", "r", "p"), Ok(true));
    }
    let all = store.list_workloads(&at(2_000), None, 9, None).unwrap();
    let ids: Vec<&str> = all.iter().map(|record| record.id.as_str()).collect();
    assert_eq!(ids, vec!["w3", "w2", "w1"]);
    let next = store.list_workloads(&at(2_000), Some("n1"), 1, Some((2_000, "w3".to_owned())));
    assert_eq!(next.unwrap()[0].id, "w2");
    assert_eq!(store.list_workloads(&at(2_000), Some("n9"), 9, None), Ok(Vec::new()));
}

fn withdrawal(revoked_at_ms: u64) -> Parsed<NodeRevocation> {
    Parsed::Document {
        kind: DocumentKind::NodeRevocation,
        epoch: 1,
        body: NodeRevocation { node_id: "n1".to_owned(), issuer_epoch: 1, revoked_at_ms },
    }
}

#[test]
fn a_node_is_revoked_by_a_fitting_document() {
    let mut store = with_node();
    assert_eq!(store.create_workload(&at(100_000), &workload("w1"), "op", "r", "p"), Ok(true));
    let none: Vec<NodeGrantRevocationDraft> = Vec::new();
    let revoke = |store: &mut Store, text: &str, parsed: &Parsed<NodeRevocation>| {
        store.revoke_node(&at(100_000), "n1", &none, text, parsed)
    };
    let before = store.clone();
    let failure = |name: &'static str| Err(StoreError::InvalidInput(name));
    let fit = withdrawal(100_000);
    assert_eq!(revoke(&mut store, "", &fit), failure("node revocation document size"));
    let unreadable = Parsed::Unreadable;
    assert_eq!(revoke(&mut store, "d", &unreadable), failure("node revocation document"));
    assert_eq!(revoke(&mut store, "d", &Parsed::BadBody), failure("node revocation body"));
    let late = withdrawal(u64::MAX);
    assert_eq!(revoke(&mut store, "d", &late), failure("node revocation time"));
    for ms in [39_999, 105_001] {
        let parsed = withdrawal(ms);
        assert_eq!(revoke(&mut store, "d", &parsed), failure("node revocation binding"));
    }
    assert_eq!(store.nodes, before.nodes);
    assert_eq!(store.node_inbox, before.node_inbox);
    store.meta.issuer_epoch = -1;
    assert_eq!(revoke(&mut store, "d", &fit), failure("issuer epoch"));
    store.meta.issuer_epoch = 1;
    assert_eq!(store.revoke_node(&at(100_000), "n9", &none, "d", &fit), Ok(false));
    assert_eq!(revoke(&mut store, "d", &withdrawal(40_000)), Ok(true));
    let node = store.node_by_id(&at(100_000), "n1").unwrap().unwrap();
    assert_eq!(node.status, "revoked");
    assert!(node.revocation_pending);
    assert_eq!(node.revoked_at_ms, Some(100_000));
    assert_eq!(store.workloads[0].record.status, "revoked");
    assert_eq!(store.node_inbox.last().unwrap().envelope_json, "d");
    let after = store.clone();
    assert_eq!(revoke(&mut store, "again", &fit), Ok(true));
    assert_eq!(revoke(&mut store, "", &Parsed::Unreadable), Ok(true));
    assert_eq!(store.revoke_node(&at(100_000), "n9", &none, "d", &fit), Ok(false));
    assert_eq!(store, after);
    assert_eq!(store.active_node_ids(&at(100_000)), Ok(Vec::new()));
    let ask = store.issue_node_challenge(&at(100_000), "c", "n1", "nonce", "1", "[]", "caps");
    assert_eq!(ask, Ok(None));
}

fn rotation() -> NodeKeyRotation {
    NodeKeyRotation {
        rotation_id: "rot".to_owned(),
        node_id: "n1".to_owned(),
        from_key_version: 1,
        to_key_version: 2,
        signing_public: "sign2".to_owned(),
        recipient_public: "recv2".to_owned(),
        fingerprint: "fp2".to_owned(),
        issuer_epoch: 1,
    }
}

fn rotation_draft() -> NodeKeyRotationDraft {
    NodeKeyRotationDraft {
        rotation: rotation(),
        grant_revocations: Vec::new(),
        rotation_document_json: "rotate".to_owned(),
        parsed: Parsed::Document {
            kind: DocumentKind::NodeKeyRotation,
            epoch: 1,
            body: rotation(),
        },
    }
}

#[test]
fn a_key_rotation_is_staged_and_completed() {
    let mut store = with_node();
    let challenge = challenged(&mut store, 2_000);
    let opened =
        store.consume_node_challenge(&at(2_000), &challenge, "nonce", "s1", "bearer", 10_000);
    assert_eq!(opened, Ok(true));
    assert_eq!(store.stage_node_key_rotation(&at(2_000), "n1", 2, &rotation_draft()), Ok(false));
    assert_eq!(store.stage_node_key_rotation(&at(2_000), "n9", 1, &rotation_draft()), Ok(false));
    assert_eq!(store.stage_node_key_rotation(&at(2_000), "n1", 1, &rotation_draft()), Ok(true));
    assert_eq!(store.stage_node_key_rotation(&at(2_000), "n1", 1, &rotation_draft()), Ok(false));
    let staged = store.node_by_id(&at(2_000), "n1").unwrap().unwrap();
    assert_eq!((staged.key_version, staged.pending_key_version), (1, Some(2)));
    assert_eq!(staged.pending_rotation_id, Some("rot".to_owned()));
    assert_eq!(staged.signing_pub, "sign");
    assert_eq!(store.node_inbox.last().unwrap().envelope_json, "rotate");
    let complete = |store: &mut Store, key: i64, fingerprint: &str| {
        store.complete_node_key_rotation(&at(2_000), "n1", "rot", key, fingerprint, Some("fp2"))
    };
    assert_eq!(complete(&mut store, 3, "fp2"), Ok(false));
    assert_eq!(complete(&mut store, 2, "forged"), Ok(false));
    assert_eq!(complete(&mut store, 2, "fp2"), Ok(true));
    let moved = store.node_by_id(&at(2_000), "n1").unwrap().unwrap();
    assert_eq!((moved.key_version, moved.version), (2, 2));
    assert_eq!((moved.signing_pub.as_str(), moved.recipient_pub.as_str()), ("sign2", "recv2"));
    assert!(!moved.rotation_pending);
    assert_eq!(store.node_key_history[0].retired_at_ms, Some(2_000));
    assert_eq!(store.node_key_history[1].retired_at_ms, None);
    assert_eq!(store.node_sessions[0].revoked_at_ms, Some(2_000));
    assert_eq!(store.recorded_key("n1", 2).map(|key| key.signing_pub), Some("sign2".to_owned()));
    assert_eq!(store.recorded_key("n1", 3), None);
    assert_eq!(complete(&mut store, 2, "fp2"), Ok(true));
    assert_eq!(complete(&mut store, 1, "fp2"), Ok(false));
    assert_eq!(complete(&mut store, 2, "other"), Ok(false));
}

#[test]
fn a_rotation_needs_a_fitting_document() {
    let mut store = with_node();
    let stage = |store: &mut Store, draft: &NodeKeyRotationDraft| {
        store.stage_node_key_rotation(&at(2_000), "n1", 1, draft)
    };
    let failure = |name: &'static str| Err(StoreError::InvalidInput(name));
    let mut draft = rotation_draft();
    draft.rotation_document_json = String::new();
    assert_eq!(stage(&mut store, &draft), failure("node key rotation document size"));
    draft = rotation_draft();
    draft.parsed = Parsed::Unreadable;
    assert_eq!(stage(&mut store, &draft), failure("node key rotation document"));
    draft.parsed = Parsed::BadBody;
    assert_eq!(stage(&mut store, &draft), failure("node key rotation body"));
    let mut body = rotation();
    body.fingerprint = "forged".to_owned();
    draft.parsed = Parsed::Document { kind: DocumentKind::NodeKeyRotation, epoch: 1, body };
    assert_eq!(stage(&mut store, &draft), failure("node key rotation binding"));
    draft.parsed = Parsed::Document { kind: DocumentKind::Grant, epoch: 1, body: rotation() };
    assert_eq!(stage(&mut store, &draft), failure("node key rotation binding"));
    draft = rotation_draft();
    draft.rotation.signing_public = "sign".to_owned();
    assert_eq!(stage(&mut store, &draft), Ok(false));
    assert!(store.node_key_rotations.is_empty());
    assert!(store.node_inbox.is_empty());
}
