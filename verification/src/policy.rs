//! The policy document and the fleet policy.

use crate::clock::{ClockReading, ClockReadingView};
use crate::error::{DatabaseFault, StoreError};
use crate::records::{
    FleetPolicyRecord, FleetPolicyRecordView, PolicyDocumentRecord, PolicyDocumentRecordView,
};
use crate::relation::{
    answer, answer_option, answer_rows, any, any_row, find_row, first, order_rows, ordered,
    push_row, rows_view, select_rows, selected, update_rows, updated, Duplicate,
};
use crate::store::{stepped, Store, StoreView};
use crate::tables::{
    FleetPolicyRow, FleetPolicyRowView, NodeRow, NodeRowView, PolicyRow, PolicyRowView,
};
use crate::text::{before, same, text_before};
use vstd::prelude::*;

verus! {

/// The policy of a tenant.
pub open spec fn policy_of(tenant_id: Seq<char>) -> spec_fn(PolicyRowView) -> bool {
    |row: PolicyRowView| row.tenant_id == tenant_id
}

/// The policy of a tenant at a version.
pub open spec fn policy_at(tenant_id: Seq<char>, version: i64) -> spec_fn(PolicyRowView) -> bool {
    |row: PolicyRowView| row.tenant_id == tenant_id && row.document.version == version
}

/// A policy that an administrator replaced.
pub open spec fn policy_replaced(
    version: i64,
    document_json: Seq<char>,
    updated_at_ms: i64,
    updated_by: Seq<char>,
) -> spec_fn(PolicyRowView) -> PolicyRowView {
    |row: PolicyRowView|
        PolicyRowView {
            source: "admin"@,
            document: PolicyDocumentRecordView {
                version,
                document_json,
                updated_at_ms,
                updated_by: Some(updated_by),
            },
            ..row
        }
}

/// The fleet policy of a tenant.
pub open spec fn fleet_policy_of(tenant_id: Seq<char>) -> spec_fn(FleetPolicyRowView) -> bool {
    |row: FleetPolicyRowView| row.tenant_id == tenant_id
}

/// A fleet policy that was replaced.
pub open spec fn fleet_policy_replaced(record: FleetPolicyRecordView) -> spec_fn(
    FleetPolicyRowView,
) -> FleetPolicyRowView {
    |row: FleetPolicyRowView| FleetPolicyRowView { record, ..row }
}

/// The fleet policy that holds before one is stored.
pub open spec fn default_fleet_policy() -> FleetPolicyRecordView {
    FleetPolicyRecordView {
        version: 1,
        document_json: "{\"rules\":[]}"@,
        updated_at_ms: 0,
        updated_by: ""@,
    }
}

/// The active nodes of a tenant.
pub open spec fn active_node_of(tenant_id: Seq<char>) -> spec_fn(NodeRowView) -> bool {
    |row: NodeRowView| row.tenant_id == tenant_id && row.status == "active"@
}

/// The identifier of a node.
pub open spec fn node_id_of() -> spec_fn(NodeRowView) -> Seq<char> {
    |row: NodeRowView| row.id
}

/// Texts in their order.
pub open spec fn text_order() -> spec_fn(Seq<char>, Seq<char>) -> bool {
    |a: Seq<char>, b: Seq<char>| text_before(a, b)
}

impl StoreView {
    /// Read the policy document.
    pub open spec fn policy_document(self, c: ClockReadingView) -> (
        StoreView,
        Result<Option<PolicyDocumentRecordView>, StoreError>,
    ) {
        let (s, gate) = self.checkpoint_clock(c);
        match gate {
            Err(error) => (s, Err(error)),
            Ok(()) => (
                s,
                Ok(
                    match first(s.policies, policy_of(s.tenant_id)) {
                        Some(row) => Some(row.document),
                        None => None,
                    },
                ),
            ),
        }
    }

    /// Replace the policy document at an expected version. An absent document
    /// stands for the first version. Nothing is replaced, and no version
    /// returned, where another version is stored.
    pub open spec fn replace_policy_document(
        self,
        c: ClockReadingView,
        expected_version: i64,
        document_json: Seq<char>,
        updated_by: Seq<char>,
    ) -> (StoreView, Result<Option<i64>, StoreError>) {
        let (s, gate) = self.checkpoint_clock(c);
        let now = s.now(c.now_ms);
        let stored = any(s.policies, policy_of(s.tenant_id));
        let current = any(s.policies, policy_at(s.tenant_id, expected_version));
        match gate {
            Err(error) => (s, Err(error)),
            Ok(()) => if expected_version < 1 || document_json.len() == 0 || updated_by.len()
                == 0 {
                (s, Err(StoreError::InvalidInput("policy document")))
            } else if !current && (expected_version != 1 || stored) {
                (s, Ok(None))
            } else if now is None {
                (s, Err(StoreError::Database(DatabaseFault::ClockBehind)))
            } else if current && expected_version == i64::MAX {
                (s, Err(StoreError::Database(DatabaseFault::OutOfRange)))
            } else if current {
                let version = (expected_version + 1) as i64;
                (
                    StoreView {
                        policies: updated(
                            s.policies,
                            policy_at(s.tenant_id, expected_version),
                            policy_replaced(version, document_json, now->0, updated_by),
                        ),
                        ..s
                    },
                    Ok(Some(version)),
                )
            } else {
                (
                    StoreView {
                        policies: s.policies.push(
                            PolicyRowView {
                                tenant_id: s.tenant_id,
                                source: "admin"@,
                                document: PolicyDocumentRecordView {
                                    version: 2,
                                    document_json,
                                    updated_at_ms: now->0,
                                    updated_by: Some(updated_by),
                                },
                            },
                        ),
                        ..s
                    },
                    Ok(Some(2)),
                )
            },
        }
    }

    /// The fleet policy in force.
    pub open spec fn current_fleet_policy(self) -> FleetPolicyRecordView {
        match first(self.fleet_policies, fleet_policy_of(self.tenant_id)) {
            Some(row) => row.record,
            None => default_fleet_policy(),
        }
    }

    /// Read the fleet policy.
    pub open spec fn fleet_policy(self, c: ClockReadingView) -> (
        StoreView,
        Result<FleetPolicyRecordView, StoreError>,
    ) {
        let (s, gate) = self.checkpoint_clock(c);
        match gate {
            Err(error) => (s, Err(error)),
            Ok(()) => (s, Ok(s.current_fleet_policy())),
        }
    }

    /// The state with documents sent to nodes, in order.
    pub open spec fn enqueue_all(
        self,
        documents: Seq<(Seq<char>, Seq<char>)>,
        now: Option<i64>,
    ) -> Result<StoreView, StoreError>
        decreases documents.len(),
    {
        if documents.len() == 0 {
            Ok(self)
        } else {
            match self.enqueue_all(documents.drop_last(), now) {
                Err(error) => Err(error),
                Ok(sent) => sent.enqueue(documents.last().0, documents.last().1, now),
            }
        }
    }

    /// The state with the fleet policy stored and sent.
    pub open spec fn store_fleet_policy(
        self,
        record: FleetPolicyRecordView,
        documents: Seq<(Seq<char>, Seq<char>)>,
    ) -> Result<StoreView, StoreError> {
        let fleet_policies = if any(self.fleet_policies, fleet_policy_of(self.tenant_id)) {
            updated(
                self.fleet_policies,
                fleet_policy_of(self.tenant_id),
                fleet_policy_replaced(record),
            )
        } else {
            self.fleet_policies.push(FleetPolicyRowView { tenant_id: self.tenant_id, record })
        };
        (StoreView { fleet_policies, ..self }).enqueue_all(documents, Some(record.updated_at_ms))
    }

    /// Replace the fleet policy at an expected version and send the signed
    /// policies to the nodes.
    pub open spec fn replace_fleet_policy(
        self,
        c: ClockReadingView,
        expected_version: i64,
        document_json: Seq<char>,
        updated_by: Seq<char>,
        documents: Seq<(Seq<char>, Seq<char>)>,
    ) -> (StoreView, Result<bool, StoreError>) {
        let (s, gate) = self.checkpoint_clock(c);
        match gate {
            Err(error) => (s, Err(error)),
            Ok(()) => if expected_version <= 0 {
                (s, Err(StoreError::InvalidInput("policy version")))
            } else if s.current_fleet_policy().version != expected_version {
                (s, Ok(false))
            } else if expected_version == i64::MAX {
                (s, Err(StoreError::InvalidInput("policy version")))
            } else {
                match s.now(c.now_ms) {
                    None => (s, Err(StoreError::Database(DatabaseFault::ClockBehind))),
                    Some(now_ms) => match s.store_fleet_policy(
                        FleetPolicyRecordView {
                            version: (expected_version + 1) as i64,
                            document_json,
                            updated_at_ms: now_ms,
                            updated_by,
                        },
                        documents,
                    ) {
                        Err(error) => (s, Err(error)),
                        Ok(after) => (after, Ok(true)),
                    },
                }
            },
        }
    }

    /// List the identifiers of the active nodes.
    pub open spec fn active_node_ids(self, c: ClockReadingView) -> (
        StoreView,
        Result<Seq<Seq<char>>, StoreError>,
    ) {
        let (s, gate) = self.checkpoint_clock(c);
        match gate {
            Err(error) => (s, Err(error)),
            Ok(()) => (
                s,
                Ok(
                    ordered(
                        selected(s.nodes, active_node_of(s.tenant_id), node_id_of()),
                        text_order(),
                    ),
                ),
            ),
        }
    }

    /// The first document that cannot be sent decides what is reported.
    proof fn lemma_first_unsent(
        self,
        documents: Seq<(Seq<char>, Seq<char>)>,
        now: Option<i64>,
        n: int,
    )
        requires
            0 <= n <= documents.len(),
            self.enqueue_all(documents.take(n), now) is Err,
        ensures
            self.enqueue_all(documents, now) == self.enqueue_all(documents.take(n), now),
        decreases documents.len(),
    {
        if n < documents.len() {
            assert(documents.drop_last().take(n) =~= documents.take(n));
            self.lemma_first_unsent(documents.drop_last(), now, n);
        } else {
            assert(documents.take(n) =~= documents);
        }
    }
}

impl Store {
    /// Read the policy document.
    pub fn policy_document(&mut self, reading: &ClockReading) -> (reply: Result<
        Option<PolicyDocumentRecord>,
        StoreError,
    >)
        ensures
            (final(self)@, answer_option(reply)) == old(self)@.policy_document(reading@),
    {
        if let Err(error) = self.checkpoint_clock(reading) {
            return Err(error);
        }
        let tenant_id = &self.tenant_id;
        let found = find_row(
            &self.policies,
            |row: &PolicyRow| -> (b: bool)
                ensures b == policy_of(tenant_id@)(row@)
                { same(&row.tenant_id, tenant_id) },
            Ghost(policy_of(tenant_id@)),
        );
        match found {
            Some(at) => Ok(Some(self.policies[at].document.duplicate())),
            None => Ok(None),
        }
    }

    /// Replace the policy document only when its expected version still
    /// matches, and return the new version. An absent document stands for the
    /// first version.
    pub fn replace_policy_document(
        &mut self,
        reading: &ClockReading,
        expected_version: i64,
        document_json: &str,
        updated_by: &str,
    ) -> (reply: Result<Option<i64>, StoreError>)
        ensures
            (final(self)@, reply) == old(self)@.replace_policy_document(
                reading@,
                expected_version,
                document_json@,
                updated_by@,
            ),
    {
        if let Err(error) = self.checkpoint_clock(reading) {
            return Err(error);
        }
        if expected_version < 1 || document_json.is_empty() || updated_by.is_empty() {
            return Err(StoreError::InvalidInput("policy document"));
        }
        let tenant_id = &self.tenant_id;
        let stored = any_row(
            &self.policies,
            |row: &PolicyRow| -> (b: bool)
                ensures b == policy_of(tenant_id@)(row@)
                { same(&row.tenant_id, tenant_id) },
            Ghost(policy_of(tenant_id@)),
        );
        let current = any_row(
            &self.policies,
            |row: &PolicyRow| -> (b: bool)
                ensures b == policy_at(tenant_id@, expected_version)(row@)
                { same(&row.tenant_id, tenant_id) && row.document.version == expected_version },
            Ghost(policy_at(tenant_id@, expected_version)),
        );
        if !current && (expected_version != 1 || stored) {
            return Ok(None);
        }
        let updated_at_ms: i64 = match self.now(reading.now_ms) {
            Some(now_ms) => now_ms,
            None => {
                return Err(StoreError::Database(DatabaseFault::ClockBehind));
            },
        };
        if !current {
            let row = PolicyRow {
                tenant_id: self.tenant_id.clone(),
                source: "admin".to_owned(),
                document: PolicyDocumentRecord {
                    version: 2,
                    document_json: document_json.to_owned(),
                    updated_at_ms,
                    updated_by: Some(updated_by.to_owned()),
                },
            };
            push_row(&mut self.policies, row);
            return Ok(Some(2));
        }
        if expected_version == i64::MAX {
            return Err(StoreError::Database(DatabaseFault::OutOfRange));
        }
        let version: i64 = expected_version + 1;
        update_rows(
            &mut self.policies,
            |row: &PolicyRow| -> (b: bool)
                ensures b == policy_at(tenant_id@, expected_version)(row@)
                { same(&row.tenant_id, tenant_id) && row.document.version == expected_version },
            |row: &PolicyRow| -> (next: PolicyRow)
                ensures next@ == policy_replaced(version, document_json@, updated_at_ms, updated_by@)(row@)
                {
                    PolicyRow {
                        tenant_id: row.tenant_id.clone(),
                        source: "admin".to_owned(),
                        document: PolicyDocumentRecord {
                            version,
                            document_json: document_json.to_owned(),
                            updated_at_ms,
                            updated_by: Some(updated_by.to_owned()),
                        },
                    }
                },
            Ghost(policy_at(tenant_id@, expected_version)),
            Ghost(policy_replaced(version, document_json@, updated_at_ms, updated_by@)),
        );
        Ok(Some(version))
    }

    /// The fleet policy in force.
    pub(crate) fn current_fleet_policy(&self) -> (record: FleetPolicyRecord)
        ensures
            record@ == self@.current_fleet_policy(),
    {
        let tenant_id = &self.tenant_id;
        let found = find_row(
            &self.fleet_policies,
            |row: &FleetPolicyRow| -> (b: bool)
                ensures b == fleet_policy_of(tenant_id@)(row@)
                { same(&row.tenant_id, tenant_id) },
            Ghost(fleet_policy_of(tenant_id@)),
        );
        match found {
            Some(at) => self.fleet_policies[at].record.duplicate(),
            None => FleetPolicyRecord {
                version: 1,
                document_json: "{\"rules\":[]}".to_owned(),
                updated_at_ms: 0,
                updated_by: "".to_owned(),
            },
        }
    }

    /// Read the fleet policy, which has no rules before one is stored.
    pub fn fleet_policy(&mut self, reading: &ClockReading) -> (reply: Result<
        FleetPolicyRecord,
        StoreError,
    >)
        ensures
            (final(self)@, answer(reply)) == old(self)@.fleet_policy(reading@),
    {
        if let Err(error) = self.checkpoint_clock(reading) {
            return Err(error);
        }
        Ok(self.current_fleet_policy())
    }

    fn enqueue_all(&mut self, documents: &Vec<(String, String)>, now: Option<i64>) -> (reply: Result<
        (),
        StoreError,
    >)
        ensures
            stepped(
                old(self)@.enqueue_all(rows_view(documents@), now),
                final(self)@,
                reply,
            ),
    {
        let ghost start = self@;
        let ghost dv = rows_view(documents@);
        let mut i: usize = 0;
        while i < documents.len()
            invariant
                i <= documents@.len(),
                dv == rows_view(documents@),
                start == old(self)@,
                start.enqueue_all(dv.take(i as int), now) == Ok::<StoreView, StoreError>(self@),
            decreases documents@.len() - i,
        {
            proof {
                assert(dv.take(i + 1).drop_last() =~= dv.take(i as int));
                assert(dv.take(i + 1).last() == dv[i as int]);
            }
            match self.enqueue_node_document(&documents[i].0, &documents[i].1, now) {
                Ok(()) => {},
                Err(error) => {
                    proof {
                        start.lemma_first_unsent(dv, now, i + 1);
                    }
                    return Err(error);
                },
            }
            i = i + 1;
        }
        proof {
            assert(dv.take(i as int) =~= dv);
        }
        Ok(())
    }

    fn store_fleet_policy(
        &mut self,
        record: &FleetPolicyRecord,
        documents: &Vec<(String, String)>,
    ) -> (reply: Result<(), StoreError>)
        ensures
            stepped(
                old(self)@.store_fleet_policy(record@, rows_view(documents@)),
                final(self)@,
                reply,
            ),
    {
        let tenant_id = &self.tenant_id;
        let stored = any_row(
            &self.fleet_policies,
            |row: &FleetPolicyRow| -> (b: bool)
                ensures b == fleet_policy_of(tenant_id@)(row@)
                { same(&row.tenant_id, tenant_id) },
            Ghost(fleet_policy_of(tenant_id@)),
        );
        if stored {
            update_rows(
                &mut self.fleet_policies,
                |row: &FleetPolicyRow| -> (b: bool)
                    ensures b == fleet_policy_of(tenant_id@)(row@)
                    { same(&row.tenant_id, tenant_id) },
                |row: &FleetPolicyRow| -> (next: FleetPolicyRow)
                    ensures next@ == fleet_policy_replaced(record@)(row@)
                    {
                        FleetPolicyRow {
                            tenant_id: row.tenant_id.clone(),
                            record: record.duplicate(),
                        }
                    },
                Ghost(fleet_policy_of(tenant_id@)),
                Ghost(fleet_policy_replaced(record@)),
            );
        } else {
            let row = FleetPolicyRow {
                tenant_id: self.tenant_id.clone(),
                record: record.duplicate(),
            };
            push_row(&mut self.fleet_policies, row);
        }
        self.enqueue_all(documents, Some(record.updated_at_ms))
    }

    /// Replace the fleet policy only when its expected version still matches,
    /// and send each node its signed policy. Returns whether it was replaced.
    pub fn replace_fleet_policy(
        &mut self,
        reading: &ClockReading,
        expected_version: i64,
        document_json: &str,
        updated_by: &str,
        node_documents: &Vec<(String, String)>,
    ) -> (reply: Result<bool, StoreError>)
        ensures
            (final(self)@, reply) == old(self)@.replace_fleet_policy(
                reading@,
                expected_version,
                document_json@,
                updated_by@,
                rows_view(node_documents@),
            ),
    {
        if let Err(error) = self.checkpoint_clock(reading) {
            return Err(error);
        }
        if expected_version <= 0 {
            return Err(StoreError::InvalidInput("policy version"));
        }
        if self.current_fleet_policy().version != expected_version {
            return Ok(false);
        }
        if expected_version == i64::MAX {
            return Err(StoreError::InvalidInput("policy version"));
        }
        let updated_at_ms: i64 = match self.now(reading.now_ms) {
            Some(now_ms) => now_ms,
            None => {
                return Err(StoreError::Database(DatabaseFault::ClockBehind));
            },
        };
        let record = FleetPolicyRecord {
            version: expected_version + 1,
            document_json: document_json.to_owned(),
            updated_at_ms,
            updated_by: updated_by.to_owned(),
        };
        let mut transaction = self.duplicate();
        match transaction.store_fleet_policy(&record, node_documents) {
            Ok(()) => {
                *self = transaction;
                Ok(true)
            },
            Err(error) => Err(error),
        }
    }

    /// List the identifiers of the active nodes in their order.
    pub fn active_node_ids(&mut self, reading: &ClockReading) -> (reply: Result<
        Vec<String>,
        StoreError,
    >)
        ensures
            (final(self)@, answer_rows(reply)) == old(self)@.active_node_ids(reading@),
    {
        if let Err(error) = self.checkpoint_clock(reading) {
            return Err(error);
        }
        let tenant_id = &self.tenant_id;
        let found = select_rows(
            &self.nodes,
            |row: &NodeRow| -> (b: bool)
                ensures b == active_node_of(tenant_id@)(row@)
                { same(&row.tenant_id, tenant_id) && same(&row.status, "active") },
            |row: &NodeRow| -> (id: String)
                ensures id@ == node_id_of()(row@)
                { row.id.clone() },
            Ghost(active_node_of(tenant_id@)),
            Ghost(node_id_of()),
        );
        let sorted = order_rows(
            found,
            |a: &String, b: &String| -> (less: bool)
                ensures less == text_order()(a@, b@)
                { before(a, b) },
            Ghost(text_order()),
        );
        Ok(sorted)
    }
}

} // verus!
