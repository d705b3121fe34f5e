use blindpass_store::clock::{ClockReading, ClockSample, RunningClockCheck, StartupClockCheck};
use blindpass_store::documents::{
    DocumentKind, Grant, GrantEnvelope, GrantIssueDraft, GrantReading, NodeGrantRevocationDraft,
    NodeKeyRotation, NodeKeyRotationDraft, NodeRevocation, Parsed, Revocation,
};
use blindpass_store::error::{DatabaseFault, StoreError};
use blindpass_store::grants::operation_columns_prefixed;
use blindpass_store::records::{
    GrantIssueOutcome, GrantRevocationOutcome, OperationApprovalDraft, OperationCreateOutcome,
    OperationDecisionOutcome, OperationRecord, WorkloadRecord,
};
use blindpass_store::schema::{SchemaSnapshot, Startup};
use blindpass_store::store::Store;

fn sample() -> ClockSample {
    ClockSample { boot_id: Some("boot-1".to_owned()), boottime_ms: 5_000, host_wall_ms: 7_000 }
}

fn steady() -> RunningClockCheck {
    RunningClockCheck {
        database_regressed: false,
        host_regressed: false,
        database_advanced: false,
        host_advanced: false,
    }
}

/// A reading that passes the checkpoint at a moment.
fn at(now_ms: i64) -> ClockReading {
    ClockReading {
        checkpoint_ms: now_ms,
        sample: Some(sample()),
        check: steady(),
        monotonic_ms: 0,
        now_ms,
        later_ms: now_ms,
        audit_id: format!("fence-{now_ms}"),
    }
}

fn startup() -> Startup {
    Startup {
        url: "sqlite:controller.db".to_owned(),
        schema: SchemaSnapshot { tables: Vec::new(), version: None },
        meta: None,
        clock: None,
        candidate_tenant_id: "tenant-a".to_owned(),
        meta_ms: 900,
        sample: Some(sample()),
        clock_ms: 1_000,
    }
}

/// A controller that was brought up at moment 1000.
fn store() -> Store {
    let mut store = Store::empty();
    let reply = store.connect(&startup(), StartupClockCheck::SameBoot, 1_000, 0, "audit-start");
    assert_eq!(reply, Ok(()));
    store
}

const NOW: i64 = 100_000;

fn workload() -> WorkloadRecord {
    WorkloadRecord {
        id: "w1".to_owned(),
        node_id: "n1".to_owned(),
        name: "web".to_owned(),
        unit: "web.service".to_owned(),
        account: "www".to_owned(),
        consumption_mode: "env".to_owned(),
        local_ceiling_seconds: 300,
        registration_version: 0,
        status: String::new(),
        created_at_ms: 0,
        revoked_at_ms: None,
        version: 0,
    }
}

/// A controller with one active node and one active workload.
fn fleet() -> Store {
    let mut store = store();
    let reading = at(NOW);
    let enrolled = store.create_enrollment(&reading, "e1", "n1", "edge", "token", "op", 60);
    assert_eq!(enrolled, Ok(160_000));
    let submitted = store.submit_enrollment(
        &reading, "e1", "n1", "token", "edge", "sign", "recv", "fp", "1", "[]", "{}",
    );
    assert_eq!(submitted, Ok(true));
    assert!(store.approve_enrollment(&reading, "e1", 2, "fp").unwrap().is_some());
    assert_eq!(store.create_workload(&reading, &workload(), "op", "registration", "p"), Ok(true));
    store
}

fn operation(id: &str) -> OperationRecord {
    OperationRecord {
        id: id.to_owned(),
        workload_id: "w1".to_owned(),
        node_id: "n1".to_owned(),
        invocation_id: "inv".to_owned(),
        action: "read".to_owned(),
        mode: "env".to_owned(),
        resource_id: "db".to_owned(),
        requested_ttl_seconds: 60,
        broker_event_key: None,
        requested_by: "agent".to_owned(),
        purpose: "deploy".to_owned(),
        policy_version: 1,
        decision: "allow".to_owned(),
        decision_hash: None,
        status: "requested".to_owned(),
        approval_id: Some("ignored".to_owned()),
        grant_id: None,
        idempotency_key: format!("key-{id}"),
        request_hash: "hash".to_owned(),
        result_json: None,
        created_at_ms: 5,
        expires_at_ms: NOW + 60_000,
        completed_at_ms: Some(6),
        version: 9,
    }
}

fn create(store: &mut Store, record: &OperationRecord) -> OperationCreateOutcome {
    store.create_operation(&at(NOW), record, "web.service", "www", 60, None).unwrap()
}

fn approval_draft(id: &str) -> OperationApprovalDraft {
    OperationApprovalDraft {
        id: id.to_owned(),
        idempotency_key: format!("approval-{id}"),
        requester_summary_json: "{\"who\":\"agent\"}".to_owned(),
        verified_identity_json: "{}".to_owned(),
        rule_id: "rule".to_owned(),
        expires_at_ms: NOW + 30_000,
    }
}

fn create_waiting(store: &mut Store, id: &str, approval: &str) -> OperationRecord {
    let mut record = operation(id);
    record.status = "awaiting_approval".to_owned();
    let draft = approval_draft(approval);
    match store.create_operation(&at(NOW), &record, "web.service", "www", 60, Some(&draft)) {
        Ok(OperationCreateOutcome::Created(created)) => created,
        other => panic!("{other:?}"),
    }
}

#[test]
fn an_operation_is_created_once_per_key() {
    let mut store = fleet();
    let created = match create(&mut store, &operation("o1")) {
        OperationCreateOutcome::Created(created) => created,
        other => panic!("{other:?}"),
    };
    assert_eq!((created.version, created.created_at_ms), (1, NOW));
    assert_eq!((created.approval_id.clone(), created.completed_at_ms), (None, None));
    let mut again = operation("o2");
    again.idempotency_key = "key-o1".to_owned();
    assert_eq!(create(&mut store, &again), OperationCreateOutcome::Existing(created.clone()));
    again.request_hash = "other".to_owned();
    assert_eq!(create(&mut store, &again), OperationCreateOutcome::Conflict);
    assert_eq!(store.operations.len(), 1);
    assert_eq!(store.operation_by_id(&at(NOW), "o1"), Ok(Some(created)));
    assert_eq!(store.operation_by_id(&at(NOW), "o2"), Ok(None));
    let mut twin = operation("o1");
    twin.idempotency_key = "new".to_owned();
    assert_eq!(
        store.create_operation(&at(NOW), &twin, "web.service", "www", 60, None),
        Err(StoreError::Database(DatabaseFault::DuplicateKey))
    );
}

#[test]
fn a_broker_event_starts_one_operation() {
    let mut store = fleet();
    let mut first = operation("o1");
    first.broker_event_key = Some("event".to_owned());
    assert!(matches!(create(&mut store, &first), OperationCreateOutcome::Created(_)));
    let mut second = operation("o2");
    second.broker_event_key = Some("event".to_owned());
    assert_eq!(create(&mut store, &second), OperationCreateOutcome::Conflict);
}

#[test]
fn an_operation_must_match_what_is_registered() {
    let mut store = fleet();
    let stale = OperationCreateOutcome::Stale;
    let mut record = operation("o1");
    record.policy_version = 2;
    assert_eq!(create(&mut store, &record), stale);
    record = operation("o1");
    record.expires_at_ms = NOW;
    assert_eq!(create(&mut store, &record), stale);
    record = operation("o1");
    record.mode = "file".to_owned();
    assert_eq!(create(&mut store, &record), stale);
    record = operation("o1");
    let long = store.create_operation(&at(NOW), &record, "web.service", "www", 301, None);
    assert_eq!(long, Ok(OperationCreateOutcome::Stale));
    let other = store.create_operation(&at(NOW), &record, "db.service", "www", 60, None);
    assert_eq!(other, Ok(OperationCreateOutcome::Stale));
    store.nodes[0].status = "revoked".to_owned();
    assert_eq!(create(&mut store, &record), stale);
    assert!(store.operations.is_empty());
}

#[test]
fn alike_requests_share_an_approval() {
    let mut store = fleet();
    for index in 0..10 {
        let created = create_waiting(&mut store, &format!("o{index}"), &format!("a{index}"));
        assert_eq!(created.approval_id, Some("a0".to_owned()));
    }
    let eleventh = create_waiting(&mut store, "o10", "a10");
    assert_eq!(eleventh.approval_id, Some("a10".to_owned()));
    let group = store.operation_approval_by_id(&at(NOW), "a0").unwrap().unwrap();
    assert_eq!(group.version, 10);
    assert_eq!(
        group.operation_ids_json,
        "[\"o0\",\"o1\",\"o2\",\"o3\",\"o4\",\"o5\",\"o6\",\"o7\",\"o8\",\"o9\"]"
    );
    assert_eq!(store.count_pending_operation_approvals(&at(NOW)), Ok(2));
    assert_eq!(store.count_pending_operation_approvals(&at(NOW + 30_000)), Ok(0));
}

#[test]
fn a_damaged_group_is_not_joined() {
    let mut store = fleet();
    create_waiting(&mut store, "o1", "a1");
    store.operation_approvals[0].record.operation_ids_json = "{}".to_owned();
    let mut record = operation("o2");
    record.status = "awaiting_approval".to_owned();
    let draft = approval_draft("a2");
    assert_eq!(
        store.create_operation(&at(NOW), &record, "web.service", "www", 60, Some(&draft)),
        Err(StoreError::InvalidInput("approval operation ids"))
    );
    let none: Vec<String> = Vec::new();
    assert_eq!(
        store.decide_operation_approval(&at(NOW), "a1", 1, &none, "approved", "op", "k"),
        Err(StoreError::InvalidInput("approval operation ids"))
    );
}

#[test]
fn a_group_is_decided_once_and_replayed() {
    let mut store = fleet();
    create_waiting(&mut store, "o1", "a1");
    create_waiting(&mut store, "o2", "a2");
    let ids = vec!["o1".to_owned(), "o2".to_owned()];
    let decide = |store: &mut Store, version: i64, decision: &str, key: &str| {
        store.decide_operation_approval(&at(NOW + 1_000), "a1", version, &ids, decision, "op", key)
    };
    let conflict = Ok(OperationDecisionOutcome::Conflict);
    assert_eq!(decide(&mut store, 1, "approved", "k"), conflict);
    assert_eq!(decide(&mut store, 2, "maybe", "k"), conflict);
    let few = vec!["o1".to_owned()];
    assert_eq!(
        store.decide_operation_approval(&at(NOW), "a1", 2, &few, "approved", "op", "k"),
        conflict
    );
    assert_eq!(
        store.decide_operation_approval(&at(NOW), "a9", 2, &ids, "approved", "op", "k"),
        Ok(OperationDecisionOutcome::NotFound)
    );
    let applied = match decide(&mut store, 2, "approved", "k") {
        Ok(OperationDecisionOutcome::Applied(record)) => record,
        other => panic!("{other:?}"),
    };
    assert_eq!((applied.status.as_str(), applied.version), ("approved", 3));
    assert_eq!(applied.decided_by, Some("op".to_owned()));
    for row in &store.operations {
        assert_eq!((row.record.status.as_str(), row.record.version), ("requested", 2));
        assert_eq!(row.record.expires_at_ms, NOW + 61_000);
    }
    let before = store.clone();
    assert_eq!(
        decide(&mut store, 2, "approved", "k"),
        Ok(OperationDecisionOutcome::Replayed(applied))
    );
    assert_eq!(decide(&mut store, 2, "approved", "other"), conflict);
    assert_eq!(decide(&mut store, 2, "rejected", "k"), conflict);
    assert_eq!(decide(&mut store, 3, "approved", "k"), conflict);
    let later = at(NOW + 1_000);
    assert_eq!(
        store.decide_operation_approval(&later, "a1", 2, &ids, "approved", "someone", "k"),
        conflict
    );
    assert_eq!(
        store.decide_operation_approval(&later, "a1", 2, &few, "approved", "op", "k"),
        conflict
    );
    assert_eq!(store.operations, before.operations);
    assert_eq!(store.operation_approvals, before.operation_approvals);
}

#[test]
fn a_rejected_group_is_denied() {
    let mut store = fleet();
    create_waiting(&mut store, "o1", "a1");
    let ids = vec!["o1".to_owned()];
    let reply = store.decide_operation_approval(&at(NOW), "a1", 1, &ids, "rejected", "op", "k");
    assert!(matches!(reply, Ok(OperationDecisionOutcome::Applied(_))));
    assert_eq!(store.operations[0].record.status, "denied");
    assert_eq!(store.operation_approvals[0].record.status, "rejected");
    let mut again = |decision: &str| {
        store.decide_operation_approval(&at(NOW), "a1", 1, &ids, decision, "op", "k")
    };
    assert!(matches!(again("rejected"), Ok(OperationDecisionOutcome::Replayed(_))));
    assert!(matches!(again("maybe"), Ok(OperationDecisionOutcome::Replayed(_))));
    assert_eq!(again("approved"), Ok(OperationDecisionOutcome::Conflict));
}

#[test]
fn a_stale_group_is_denied() {
    let ids = vec!["o1".to_owned()];
    let decide = |store: &mut Store, ms: i64| {
        store.decide_operation_approval(&at(ms), "a1", 1, &ids, "approved", "op", "k")
    };
    let mut late = fleet();
    create_waiting(&mut late, "o1", "a1");
    assert_eq!(decide(&mut late, NOW + 30_000), Ok(OperationDecisionOutcome::StalePolicy));
    assert_eq!(late.operations[0].record.status, "denied");
    assert_eq!(late.operation_approvals[0].record.status, "expired");
    assert_eq!(late.operation_approvals[0].record.decided_by, None);
    let mut changed = fleet();
    create_waiting(&mut changed, "o1", "a1");
    let none: Vec<(String, String)> = Vec::new();
    assert_eq!(changed.replace_fleet_policy(&at(NOW), 1, "{}", "op", &none), Ok(true));
    assert_eq!(decide(&mut changed, NOW), Ok(OperationDecisionOutcome::StalePolicy));
    assert_eq!(changed.operations[0].record.status, "denied");
    assert_eq!(changed.operation_approvals[0].record.decided_by, Some("op".to_owned()));
}

#[test]
fn operations_and_groups_are_listed_oldest_first() {
    let mut store = fleet();
    for id in ["o2", "o1"] {
        assert!(matches!(create(&mut store, &operation(id)), OperationCreateOutcome::Created(_)));
    }
    create_waiting(&mut store, "o3", "a1");
    let all = store.list_operations(&at(NOW), None, None, 9).unwrap();
    let ids: Vec<&str> = all.iter().map(|record| record.id.as_str()).collect();
    assert_eq!(ids, vec!["o1", "o2", "o3"]);
    let next = store.list_operations(&at(NOW), Some("requested"), Some((NOW, "o1".to_owned())), 9);
    assert_eq!(next.unwrap()[0].id, "o2");
    assert_eq!(store.list_operations(&at(NOW), None, None, 0).unwrap().len(), 1);
    let groups = store.list_operation_approvals(&at(NOW), Some("pending"), None, 9).unwrap();
    assert_eq!(groups[0].id, "a1");
    assert_eq!(groups[0].requester_summary_json, "{\"who\":\"agent\"}");
    let later = store.list_operation_approvals(&at(NOW + 30_000), None, None, 9).unwrap();
    assert!(later.is_empty());
}

fn grant(id: &str, operation_id: &str) -> Grant {
    Grant {
        id: id.to_owned(),
        operation_id: operation_id.to_owned(),
        node_id: "n1".to_owned(),
        workload_id: "w1".to_owned(),
        invocation_id: "inv".to_owned(),
        unit: "web.service".to_owned(),
        account: "www".to_owned(),
        resource_id: "db".to_owned(),
        recipient_key_id: "n1-1".to_owned(),
        policy_version: 1,
        approval_reference: None,
        action: "read".to_owned(),
        mode: "env".to_owned(),
        audience: "blindpass-node".to_owned(),
        issuer_epoch: 1,
        issued_at_ms: 100_000,
        expires_at_ms: 160_000,
        local_ceiling_seconds: 300,
    }
}

fn issue_draft(id: &str, operation_id: &str) -> GrantIssueDraft {
    GrantIssueDraft {
        grant: grant(id, operation_id),
        expected_operation_version: 1,
        envelope_json: "{\"kind\":\"grant\",\"sig\":\"c2ln\"}".to_owned(),
        reading: GrantReading::Envelope(GrantEnvelope {
            kind: DocumentKind::Grant,
            epoch: 1,
            signed_body: "{\"é\":1}".as_bytes().to_vec(),
            expected_body: "{\"é\":1}".as_bytes().to_vec(),
        }),
    }
}

/// A controller with two requested operations.
fn requested() -> Store {
    let mut store = fleet();
    for id in ["o1", "o2"] {
        assert!(matches!(create(&mut store, &operation(id)), OperationCreateOutcome::Created(_)));
    }
    store
}

#[test]
fn a_group_of_grants_is_issued_once() {
    let mut store = requested();
    let drafts = vec![issue_draft("g1", "o1"), issue_draft("g2", "o2")];
    let ids = vec!["g1".to_owned(), "g2".to_owned()];
    assert_eq!(
        store.issue_operation_grants(&at(NOW), &drafts),
        Ok(GrantIssueOutcome::Issued(ids.clone()))
    );
    let row = &store.grants[0];
    assert_eq!((row.body_json.as_str(), row.signature.as_str()), ("{\"é\":1}", "c2ln"));
    assert_eq!((row.record.status.as_str(), row.record.created_at_ms), ("issued", NOW));
    assert_eq!(row.record.expires_at_ms, 160_000);
    assert_eq!(store.operations[0].record.status, "granted");
    assert_eq!(store.operations[0].record.grant_id, Some("g1".to_owned()));
    assert_eq!(store.operations[0].record.version, 2);
    assert_eq!(store.node_inbox.len(), 4);
    let before = store.clone();
    assert_eq!(
        store.issue_operation_grants(&at(NOW), &drafts),
        Ok(GrantIssueOutcome::Existing(ids))
    );
    let mixed = vec![issue_draft("g1", "o1"), issue_draft("g3", "o9")];
    assert_eq!(
        store.issue_operation_grants(&at(NOW), &mixed),
        Ok(GrantIssueOutcome::Existing(vec!["g1".to_owned()]))
    );
    assert_eq!(store, before);
    assert_eq!(store.grant_by_id(&at(NOW), "g2").unwrap().unwrap().operation_id, "o2");
    let listed = store.list_grants(&at(NOW), Some("n1"), Some("issued"), None, 1).unwrap();
    assert_eq!(listed[0].id, "g1");
    assert_eq!(listed.len(), 1);
    let next = store.list_grants(&at(NOW), None, None, Some((NOW, "g1".to_owned())), 9).unwrap();
    assert_eq!(next[0].id, "g2");
}

#[test]
fn malformed_groups_are_refused() {
    let mut store = requested();
    let issue = |store: &mut Store, drafts: Vec<GrantIssueDraft>| {
        store.issue_operation_grants(&at(NOW), &drafts)
    };
    let failure = |name: &'static str| Err(StoreError::InvalidInput(name));
    assert_eq!(issue(&mut store, Vec::new()), failure("grant group size"));
    let eleven: Vec<GrantIssueDraft> =
        (0..11).map(|i| issue_draft(&format!("g{i}"), &format!("o{i}"))).collect();
    assert_eq!(issue(&mut store, eleven), failure("grant group size"));
    let mut draft = issue_draft("g1", "o1");
    draft.reading = GrantReading::BadGrant;
    assert_eq!(issue(&mut store, vec![draft]), failure("grant document"));
    let mut draft = issue_draft("g1", "o1");
    draft.reading = GrantReading::Unreadable;
    assert_eq!(issue(&mut store, vec![draft]), failure("signed grant envelope"));
    let mut draft = issue_draft("g1", "o1");
    draft.reading = GrantReading::BadBody;
    assert_eq!(issue(&mut store, vec![draft]), failure("grant body"));
    let twice = vec![issue_draft("g1", "o1"), issue_draft("g2", "o1")];
    assert_eq!(issue(&mut store, twice), failure("grant envelope binding"));
    let mut draft = issue_draft("g1", "o1");
    draft.expected_operation_version = 0;
    assert_eq!(issue(&mut store, vec![draft]), failure("grant envelope binding"));
    let mut draft = issue_draft("g1", "o1");
    draft.grant.issuer_epoch = 2;
    assert_eq!(issue(&mut store, vec![draft]), failure("grant envelope binding"));
    let mut draft = issue_draft("g1", "o1");
    draft.envelope_json = "{\"kind\":\"grant\"}".to_owned();
    assert_eq!(issue(&mut store, vec![draft]), failure("grant signature"));
    let mut draft = issue_draft("g1", "o1");
    draft.reading = GrantReading::Envelope(GrantEnvelope {
        kind: DocumentKind::Grant,
        epoch: 1,
        signed_body: vec![0xff],
        expected_body: vec![0xff],
    });
    assert_eq!(issue(&mut store, vec![draft]), failure("grant body"));
    assert!(store.grants.is_empty());
    assert_eq!(store.operations[0].record.status, "requested");
}

#[test]
fn a_group_that_no_longer_fits_is_denied() {
    let mut longer = issue_draft("g1", "o1");
    longer.grant.expires_at_ms = 160_001;
    let mut key = issue_draft("g1", "o1");
    key.grant.recipient_key_id = "n1-2".to_owned();
    let mut version = issue_draft("g1", "o1");
    version.expected_operation_version = 2;
    let mut old = issue_draft("g1", "o1");
    old.grant.issued_at_ms = 39_999;
    for draft in [longer, key, version, old] {
        let mut store = requested();
        let drafts = vec![draft, issue_draft("g2", "o2")];
        assert_eq!(store.issue_operation_grants(&at(NOW), &drafts), Ok(GrantIssueOutcome::Stale));
        assert!(store.grants.is_empty());
        assert!(store.operations.iter().all(|row| row.record.status == "denied"));
        assert_eq!(
            store.issue_operation_grants(&at(NOW), &drafts),
            Ok(GrantIssueOutcome::Conflict)
        );
    }
}

#[test]
fn an_unknown_operation_gets_no_grant() {
    let mut store = requested();
    let drafts = vec![issue_draft("g1", "o1"), issue_draft("g2", "o9")];
    assert_eq!(store.issue_operation_grants(&at(NOW), &drafts), Ok(GrantIssueOutcome::Conflict));
    assert_eq!(store.operations[0].record.status, "requested");
    let issued = vec![issue_draft("g1", "o1")];
    assert!(store.issue_operation_grants(&at(NOW), &issued).is_ok());
    let same_id = vec![issue_draft("g1", "o2")];
    assert_eq!(
        store.issue_operation_grants(&at(NOW), &same_id),
        Err(StoreError::Database(DatabaseFault::DuplicateKey))
    );
    assert_eq!(store.operations[1].record.status, "requested");
}

const KEPT_UNTIL: u64 = 160_000 + 604_800_000;

fn revocation(grant_id: &str, reason: &str) -> Revocation {
    Revocation {
        grant_id: grant_id.to_owned(),
        node_id: "n1".to_owned(),
        reason: reason.to_owned(),
        issuer_epoch: 1,
        revoked_at_ms: 100_000,
        retain_until_ms: KEPT_UNTIL,
    }
}

fn signed(body: Revocation) -> Parsed<Revocation> {
    Parsed::Document { kind: DocumentKind::Revocation, epoch: 1, body }
}

fn granted() -> Store {
    let mut store = requested();
    let drafts = vec![issue_draft("g1", "o1"), issue_draft("g2", "o2")];
    assert!(store.issue_operation_grants(&at(NOW), &drafts).is_ok());
    store
}

#[test]
fn a_grant_is_revoked_by_a_fitting_document() {
    let mut store = granted();
    let revoke = |store: &mut Store, reason: &str, text: &str, parsed: &Parsed<Revocation>| {
        store.revoke_grant(&at(NOW), "g1", reason, text, parsed)
    };
    let failure = |name: &'static str| Err(StoreError::InvalidInput(name));
    let fit = signed(revocation("g1", "operator"));
    assert_eq!(revoke(&mut store, "whim", "d", &fit), failure("grant revocation reason"));
    assert_eq!(revoke(&mut store, "operator", "", &fit), failure("revocation document size"));
    let unreadable = Parsed::Unreadable;
    assert_eq!(revoke(&mut store, "operator", "d", &unreadable), failure("revocation document"));
    let bad: Parsed<Revocation> = Parsed::BadBody;
    assert_eq!(revoke(&mut store, "operator", "d", &bad), failure("revocation body"));
    assert_eq!(
        revoke(&mut store, "cancelled", "d", &fit),
        failure("revocation document binding")
    );
    let mut body = revocation("g1", "operator");
    body.revoked_at_ms = u64::MAX;
    assert_eq!(revoke(&mut store, "operator", "d", &signed(body)), failure("revocation time"));
    let mut body = revocation("g1", "operator");
    body.retain_until_ms = u64::MAX;
    assert_eq!(revoke(&mut store, "operator", "d", &signed(body)), failure("tombstone retention"));
    let mut body = revocation("g1", "operator");
    body.retain_until_ms = KEPT_UNTIL - 1;
    assert_eq!(
        revoke(&mut store, "operator", "d", &signed(body)),
        failure("revocation time or retention")
    );
    assert_eq!(store.grants[0].record.status, "issued");
    let revoked = Ok(GrantRevocationOutcome::Revoked { grant_id: "g1".to_owned(), offline: true });
    assert_eq!(revoke(&mut store, "operator", "d", &fit), revoked);
    assert_eq!(store.grants[0].record.status, "revoked");
    assert_eq!(store.grants[0].record.revoked_at_ms, Some(NOW));
    assert_eq!(store.operations[0].record.status, "revoked");
    assert_eq!(
        store.operations[0].record.result_json,
        Some("{\"reason\":\"operator\"}".to_owned())
    );
    assert_eq!(store.grant_tombstones[0].retain_until_ms, KEPT_UNTIL as i64);
    assert_eq!(store.node_inbox.last().unwrap().envelope_json, "d");
    let before = store.clone();
    assert_eq!(revoke(&mut store, "operator", "d", &fit), revoked);
    assert_eq!(store, before);
}

#[test]
fn used_and_lapsed_grants_are_not_revoked() {
    let mut store = granted();
    let fit = signed(revocation("g1", "operator"));
    let revoke = |store: &mut Store, ms: i64, id: &str| {
        store.revoke_grant(&at(ms), id, "operator", "d", &fit)
    };
    assert_eq!(revoke(&mut store, NOW, "g9"), Ok(GrantRevocationOutcome::NotFound));
    assert_eq!(revoke(&mut store, 160_000, "g1"), Ok(GrantRevocationOutcome::Conflict));
    store.grants[0].record.status = "consumed".to_owned();
    assert_eq!(
        revoke(&mut store, 160_000, "g1"),
        Ok(GrantRevocationOutcome::Consumed {
            grant_id: "g1".to_owned(),
            consumer_lifetime_seconds: 300,
        })
    );
    store.grants[0].record.status = "revoked".to_owned();
    store.nodes[0].last_seen_at_ms = Some(160_000 - 120_000);
    assert_eq!(
        revoke(&mut store, 160_000, "g1"),
        Ok(GrantRevocationOutcome::Revoked { grant_id: "g1".to_owned(), offline: false })
    );
    store.nodes[0].last_seen_at_ms = Some(160_000 - 120_001);
    assert_eq!(
        revoke(&mut store, 160_000, "g1"),
        Ok(GrantRevocationOutcome::Revoked { grant_id: "g1".to_owned(), offline: true })
    );
}

fn revocation_draft(grant_id: &str, reason: &str) -> NodeGrantRevocationDraft {
    NodeGrantRevocationDraft {
        grant_id: grant_id.to_owned(),
        reason: reason.to_owned(),
        envelope_json: format!("revoke {grant_id}"),
        parsed: signed(revocation(grant_id, reason)),
    }
}

#[test]
fn a_revoked_node_holds_nothing() {
    let mut store = granted();
    create_waiting(&mut store, "o3", "a1");
    let document = Parsed::Document {
        kind: DocumentKind::NodeRevocation,
        epoch: 1,
        body: NodeRevocation {
            node_id: "n1".to_owned(),
            issuer_epoch: 1,
            revoked_at_ms: 100_000,
        },
    };
    let changed = Err(StoreError::InvalidInput("node grant set changed"));
    let before = store.clone();
    let few = vec![revocation_draft("g1", "operator")];
    assert_eq!(store.revoke_node(&at(NOW), "n1", &few, "d", &document), changed);
    let many = vec![
        revocation_draft("g1", "operator"),
        revocation_draft("g2", "operator"),
        revocation_draft("g3", "operator"),
    ];
    assert_eq!(store.revoke_node(&at(NOW), "n1", &many, "d", &document), changed);
    let mut forged = vec![revocation_draft("g1", "operator"), revocation_draft("g2", "operator")];
    forged[1].parsed = signed(revocation("g1", "operator"));
    assert_eq!(
        store.revoke_node(&at(NOW), "n1", &forged, "d", &document),
        Err(StoreError::InvalidInput("node revocation binding"))
    );
    forged[1].parsed = Parsed::Unreadable;
    assert_eq!(
        store.revoke_node(&at(NOW), "n1", &forged, "d", &document),
        Err(StoreError::InvalidInput("node revocation document"))
    );
    let mut body = revocation("g2", "operator");
    body.retain_until_ms = u64::MAX;
    forged[1].parsed = signed(body);
    assert_eq!(
        store.revoke_node(&at(NOW), "n1", &forged, "d", &document),
        Err(StoreError::InvalidInput("node revocation retention"))
    );
    assert_eq!(store, before);
    let all = vec![revocation_draft("g2", "operator"), revocation_draft("g1", "operator")];
    assert_eq!(store.revoke_node(&at(NOW), "n1", &all, "d", &document), Ok(true));
    assert!(store.grants.iter().all(|row| row.record.status == "revoked"));
    let statuses: Vec<&str> =
        store.operations.iter().map(|row| row.record.status.as_str()).collect();
    assert_eq!(statuses, vec!["revoked", "revoked", "cancelled"]);
    assert_eq!(store.operation_approvals[0].record.status, "expired");
    assert_eq!(store.workloads[0].record.status, "revoked");
    let sent: Vec<&str> =
        store.node_inbox.iter().map(|row| row.envelope_json.as_str()).collect();
    assert_eq!(sent[4..], ["revoke g1", "revoke g2", "d"]);
    assert_eq!(store.grant_tombstones.len(), 2);
}

#[test]
fn a_staged_rotation_withdraws_the_grants() {
    let mut store = granted();
    let rotation = NodeKeyRotation {
        rotation_id: "rot".to_owned(),
        node_id: "n1".to_owned(),
        from_key_version: 1,
        to_key_version: 2,
        signing_public: "sign2".to_owned(),
        recipient_public: "recv2".to_owned(),
        fingerprint: "fp2".to_owned(),
        issuer_epoch: 1,
    };
    let mut draft = NodeKeyRotationDraft {
        rotation: rotation.clone(),
        grant_revocations: vec![
            revocation_draft("g1", "key_rotation"),
            revocation_draft("g2", "operator"),
        ],
        rotation_document_json: "rotate".to_owned(),
        parsed: Parsed::Document { kind: DocumentKind::NodeKeyRotation, epoch: 1, body: rotation },
    };
    assert_eq!(
        store.stage_node_key_rotation(&at(NOW), "n1", 1, &draft),
        Err(StoreError::InvalidInput("node revocation binding"))
    );
    draft.grant_revocations[1] = revocation_draft("g2", "key_rotation");
    assert_eq!(store.stage_node_key_rotation(&at(NOW), "n1", 1, &draft), Ok(true));
    assert!(store.grants.iter().all(|row| row.record.status == "revoked"));
    assert_eq!(store.grant_tombstones[0].reason, "key_rotation");
    assert_eq!(
        store.operations[0].record.result_json,
        Some("{\"reason\":\"key_rotation\"}".to_owned())
    );
    assert_eq!(store.nodes[0].key_version, 1);
    assert_eq!(store.node_key_rotations[0].to_key_version, 2);
}

#[test]
fn operation_columns_carry_their_table() {
    let columns = operation_columns_prefixed();
    assert!(columns.starts_with("o.id, o.workload_id"));
    assert!(columns.ends_with("a.status AS approval_status"));
    assert_eq!(columns.split(',').filter(|column| column.trim().starts_with("o.")).count(), 24);
}
