use blindpass_store::clock::{ClockReading, ClockSample, RunningClockCheck, StartupClockCheck};
use blindpass_store::error::{DatabaseFault, StoreError};
use blindpass_store::approvals::approval_decision_text;
use blindpass_store::records::{
    ApprovalDecisionOutcome, ApprovalRecord, FleetPolicyRecord, PolicyDocumentRecord,
};
use blindpass_store::schema::{SchemaSnapshot, Startup};
use blindpass_store::store::Store;

fn sample() -> ClockSample {
    ClockSample { boot_id: Some("boot-1".to_owned()), boottime_ms: 5_000, host_wall_ms: 7_000 }
}

fn steady() -> RunningClockCheck {
    RunningClockCheck {
        database_regressed: false,
        host_regressed: false,
        database_advanced: false,
        host_advanced: false,
    }
}

/// A reading that passes the checkpoint at a moment.
fn at(now_ms: i64) -> ClockReading {
    ClockReading {
        checkpoint_ms: now_ms,
        sample: Some(sample()),
        check: steady(),
        monotonic_ms: 0,
        now_ms,
        later_ms: now_ms,
        audit_id: format!("fence-{now_ms}"),
    }
}

fn startup() -> Startup {
    Startup {
        url: "sqlite:controller.db".to_owned(),
        schema: SchemaSnapshot { tables: Vec::new(), version: None },
        meta: None,
        clock: None,
        candidate_tenant_id: "tenant-a".to_owned(),
        meta_ms: 900,
        sample: Some(sample()),
        clock_ms: 1_000,
    }
}

/// A controller that was brought up at moment 1000.
fn store() -> Store {
    let mut store = Store::empty();
    let reply = store.connect(&startup(), StartupClockCheck::SameBoot, 1_000, 0, "audit-start");
    assert_eq!(reply, Ok(()));
    store
}

fn approval(reference: &str) -> ApprovalRecord {
    ApprovalRecord {
        approval_reference: reference.to_owned(),
        requester_id: "asker".to_owned(),
        workspace_id: "elsewhere".to_owned(),
        secret_name: "token".to_owned(),
        purpose: "deploy".to_owned(),
        fulfiller_hint: "ops".to_owned(),
        rule_id: Some("r1".to_owned()),
        reason: "needed".to_owned(),
        requester_ring: None,
        fulfiller_ring: Some("inner".to_owned()),
        approver_ids: vec!["bob \"b\"".to_owned(), "zoë".to_owned()],
        approver_rings: Vec::new(),
        status: "ignored".to_owned(),
        created_at_ms: 100,
        expires_at_ms: 10_100,
        decided_at_ms: Some(3),
        decided_by: Some("x".to_owned()),
    }
}

fn pending(reference: &str) -> ApprovalRecord {
    let mut record = approval(reference);
    record.workspace_id = "tenant-a".to_owned();
    record.status = "pending".to_owned();
    record.created_at_ms = 1_000;
    record.expires_at_ms = 11_000;
    record.decided_at_ms = None;
    record.decided_by = None;
    record
}

fn waiting() -> Store {
    let mut store = store();
    assert_eq!(store.create_approval(&at(1_000), &approval("ap")), Ok(()));
    store
}

#[test]
fn an_approval_reads_back_with_its_approvers() {
    let mut store = waiting();
    assert_eq!(store.get_approval(&at(1_000), "ap"), Ok(Some(pending("ap"))));
    assert_eq!(store.approvals[0].approver_ids_json, "[\"bob \\\"b\\\"\",\"zoë\"]");
    assert_eq!(store.approvals[0].approver_rings_json, "[]");
    let mut other = approval("ap");
    other.reason = "changed".to_owned();
    assert_eq!(store.create_approval(&at(2_000), &other), Ok(()));
    assert_eq!(store.approvals.len(), 1);
    assert_eq!(store.approvals[0].reason, "needed");
    store.approvals[0].approver_ids_json = "{}".to_owned();
    let read = store.get_approval(&at(2_000), "ap").unwrap().unwrap();
    assert_eq!(read.approver_ids, Vec::<String>::new());
    assert!(store.get_approval(&at(10_999), "ap").unwrap().is_some());
    assert_eq!(store.get_approval(&at(11_000), "ap"), Ok(None));
}

#[test]
fn an_approval_lives_at_least_a_millisecond() {
    let mut store = store();
    let mut short = approval("ap");
    short.expires_at_ms = 50;
    assert_eq!(store.create_approval(&at(1_000), &short), Ok(()));
    assert_eq!(store.approvals[0].expires_at_ms, 1_001);
    let mut long = approval("b");
    long.created_at_ms = 0;
    long.expires_at_ms = i64::MAX;
    assert_eq!(
        store.create_approval(&at(1_000), &long),
        Err(StoreError::Database(DatabaseFault::OutOfRange))
    );
}

#[test]
fn an_approval_is_decided_once() {
    let mut store = waiting();
    assert_eq!(
        store.decide_approval(&at(2_000), &at(2_000), "ap", "pending", "op"),
        Err(StoreError::InvalidInput("approval status"))
    );
    let decided = store.decide_approval(&at(2_000), &at(2_000), "ap", "approved", "op");
    let decided = decided.unwrap().unwrap();
    assert_eq!(decided.status, "approved");
    assert_eq!(decided.decided_by, Some("op".to_owned()));
    assert_eq!(decided.decided_at_ms, Some(2_000));
    assert_eq!(store.decide_approval(&at(2_000), &at(2_000), "ap", "rejected", "op"), Ok(None));
    assert_eq!(store.decide_approval(&at(2_000), &at(2_000), "no", "rejected", "op"), Ok(None));
}

#[test]
fn a_decision_under_a_key_is_replayed() {
    let mut store = waiting();
    let digest = vec![0_u8, 15, 255];
    let other = vec![1_u8];
    let decide = |store: &mut Store, ms: i64, status: &str, digest: &Vec<u8>, audit: &str| {
        store.decide_approval_once(&at(ms), "ap", status, "op", "key", Some(digest), audit)
    };
    let applied = decide(&mut store, 2_000, "approved", &digest, "audit-1").unwrap();
    let record = match applied {
        ApprovalDecisionOutcome::Applied(record) => record,
        other => panic!("{other:?}"),
    };
    assert_eq!(record.status, "approved");
    assert_eq!(store.idempotency_keys[0].request_hash, "000fff");
    assert_eq!(store.idempotency_keys[0].expires_at_ms, 86_402_000);
    assert_eq!(store.audit_events[0].action, "approval_decided");
    assert_eq!(
        store.audit_events[0].metadata_json,
        "{\"decision\":\"approved\",\"idempotency_key_hash\":\"key\"}"
    );
    let before = (store.approvals.clone(), store.audit_events.clone());
    assert_eq!(
        decide(&mut store, 86_401_999, "approved", &digest, "audit-2"),
        Ok(ApprovalDecisionOutcome::Replayed(record))
    );
    assert_eq!(
        decide(&mut store, 86_401_999, "rejected", &other, "audit-2"),
        Ok(ApprovalDecisionOutcome::Conflict)
    );
    assert_eq!((store.approvals.clone(), store.audit_events.clone()), before);
    assert_eq!(
        decide(&mut store, 86_402_000, "approved", &digest, "audit-2"),
        Ok(ApprovalDecisionOutcome::NotFound)
    );
    store.idempotency_keys[0].response = None;
    assert_eq!(
        decide(&mut store, 86_401_999, "approved", &digest, "audit-2"),
        Err(StoreError::MissingState("approval idempotency response"))
    );
}

#[test]
fn a_spent_key_is_not_used_again() {
    let mut store = waiting();
    let digest = vec![7_u8];
    let decide = |store: &mut Store, ms: i64, reference: &str, audit: &str| {
        let digest = Some(&digest);
        store.decide_approval_once(&at(ms), reference, "rejected", "op", "key", digest, audit)
    };
    assert!(decide(&mut store, 2_000, "ap", "audit-1").is_ok());
    let mut late = approval("late");
    late.expires_at_ms = 90_000_000;
    assert_eq!(store.create_approval(&at(86_402_000), &late), Ok(()));
    let before = store.clone();
    assert_eq!(
        decide(&mut store, 86_402_000, "late", "audit-2"),
        Err(StoreError::Database(DatabaseFault::DuplicateKey))
    );
    assert_eq!(store.approvals, before.approvals);
    assert_eq!(store.idempotency_keys, before.idempotency_keys);
}

#[test]
fn malformed_decisions_are_refused() {
    let mut store = waiting();
    let digest = vec![7_u8];
    let refused = Err(StoreError::InvalidInput("approval decision"));
    assert_eq!(
        store.decide_approval_once(&at(2_000), "ap", "maybe", "op", "key", Some(&digest), "a"),
        refused
    );
    assert_eq!(
        store.decide_approval_once(&at(2_000), "ap", "approved", "op", "", Some(&digest), "a"),
        refused
    );
    assert_eq!(
        store.decide_approval_once(&at(2_000), "ap", "approved", "op", "key", None, "a"),
        Err(StoreError::MissingState("approval request hash"))
    );
    let outcome =
        store.decide_approval_idempotent(&at(2_000), "ap", "rejected", "op", "key", Some(&digest));
    assert!(matches!(outcome, Ok(ApprovalDecisionOutcome::Applied(_))));
    assert_eq!(store.audit_events[0].id.len(), 64);
    assert_eq!(approval_decision_text("ap", "approved"), "ap\0approved");
}

#[test]
fn approvals_are_listed_oldest_first_page_by_page() {
    let mut store = waiting();
    for (ms, reference) in [(1_003, "b"), (1_002, "z"), (1_003, "a")] {
        assert_eq!(store.create_approval(&at(ms), &approval(reference)), Ok(()));
    }
    assert_eq!(store.count_pending_approvals(&at(1_010)), Ok(4));
    let names = |records: Vec<ApprovalRecord>| -> Vec<String> {
        records.into_iter().map(|record| record.approval_reference).collect()
    };
    let all = store.list_approvals(&at(1_010), None, None, 200).unwrap();
    assert_eq!(names(all), vec!["ap", "z", "a", "b"]);
    let next = store.list_approvals(&at(1_010), None, Some((1_003, "a".to_owned())), 200).unwrap();
    assert_eq!(names(next), vec!["b"]);
    let page = store.list_approvals(&at(1_010), Some("pending"), None, 0).unwrap();
    assert_eq!(names(page), vec!["ap"]);
    assert!(store.decide_approval(&at(1_010), &at(1_010), "z", "rejected", "op").is_ok());
    let rejected = store.list_approvals(&at(20_000), Some("rejected"), None, 9).unwrap();
    assert_eq!(names(rejected), vec!["z"]);
    let late = store.list_approvals(&at(20_000), None, None, 9).unwrap();
    assert_eq!(names(late), vec!["z"]);
    assert_eq!(store.count_pending_approvals(&at(20_000)), Ok(0));
}

#[test]
fn a_policy_version_is_replaced_once() {
    let mut store = store();
    assert_eq!(store.policy_document(&at(1_000)), Ok(None));
    assert_eq!(store.replace_policy_document(&at(1_000), 2, "{}", "op"), Ok(None));
    assert_eq!(store.replace_policy_document(&at(1_000), 1, "{}", "op"), Ok(Some(2)));
    assert_eq!(store.replace_policy_document(&at(1_000), 1, "{}", "op"), Ok(None));
    assert_eq!(store.replace_policy_document(&at(1_001), 2, "[1]", "bob"), Ok(Some(3)));
    assert_eq!(
        store.policy_document(&at(1_001)),
        Ok(Some(PolicyDocumentRecord {
            version: 3,
            document_json: "[1]".to_owned(),
            updated_at_ms: 1_001,
            updated_by: Some("bob".to_owned()),
        }))
    );
    let refused = Err(StoreError::InvalidInput("policy document"));
    assert_eq!(store.replace_policy_document(&at(1_001), 0, "{}", "op"), refused);
    assert_eq!(store.replace_policy_document(&at(1_001), 3, "", "op"), refused);
    assert_eq!(store.replace_policy_document(&at(1_001), 3, "{}", ""), refused);
    store.policies[0].document.version = i64::MAX;
    assert_eq!(
        store.replace_policy_document(&at(1_001), i64::MAX, "{}", "op"),
        Err(StoreError::Database(DatabaseFault::OutOfRange))
    );
}

#[test]
fn a_fleet_policy_is_replaced_once_and_sent() {
    let mut store = store();
    assert_eq!(
        store.fleet_policy(&at(1_000)),
        Ok(FleetPolicyRecord {
            version: 1,
            document_json: "{\"rules\":[]}".to_owned(),
            updated_at_ms: 0,
            updated_by: String::new(),
        })
    );
    let documents =
        vec![("n1".to_owned(), "doc1".to_owned()), ("n2".to_owned(), "doc2".to_owned())];
    assert_eq!(store.replace_fleet_policy(&at(1_000), 2, "{}", "op", &documents), Ok(false));
    assert_eq!(store.replace_fleet_policy(&at(1_000), 1, "{}", "op", &documents), Ok(true));
    assert_eq!(store.replace_fleet_policy(&at(1_000), 1, "{}", "op", &documents), Ok(false));
    assert_eq!(store.replace_fleet_policy(&at(1_001), 2, "[]", "bob", &documents), Ok(true));
    assert_eq!(
        store.fleet_policy(&at(1_001)),
        Ok(FleetPolicyRecord {
            version: 3,
            document_json: "[]".to_owned(),
            updated_at_ms: 1_001,
            updated_by: "bob".to_owned(),
        })
    );
    let sent: Vec<(&str, i64)> =
        store.node_inbox.iter().map(|row| (row.node_id.as_str(), row.seq)).collect();
    assert_eq!(sent, vec![("n1", 1), ("n2", 1), ("n1", 2), ("n2", 2)]);
    let refused = Err(StoreError::InvalidInput("policy version"));
    assert_eq!(store.replace_fleet_policy(&at(1_001), 0, "{}", "op", &documents), refused);
    store.fleet_policies[0].record.version = i64::MAX;
    assert_eq!(store.replace_fleet_policy(&at(1_001), i64::MAX, "{}", "op", &documents), refused);
}

#[test]
fn a_policy_whose_documents_cannot_be_sent_is_not_stored() {
    let mut store = store();
    let empty = vec![("n1".to_owned(), "doc".to_owned()), ("n2".to_owned(), String::new())];
    let before = store.clone();
    assert_eq!(
        store.replace_fleet_policy(&at(1_000), 1, "{}", "op", &empty),
        Err(StoreError::InvalidInput("signed node document size"))
    );
    assert_eq!(store.fleet_policies, before.fleet_policies);
    assert_eq!(store.node_inbox, before.node_inbox);
}
