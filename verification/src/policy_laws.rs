//! What is read of policies, and what a replacement does, by what is stored.

use crate::clock::ClockReadingView;
use crate::decision_laws::{lemma_policy_in_force, policy_in_force};
use crate::error::StoreError;
use crate::keys::{fleet_policy_tenant, policy_tenant};
use crate::moment_laws::{lemma_runs, runs};
use crate::policy::{fleet_policy_of, policy_at, policy_of};
use crate::records::{FleetPolicyRecordView, PolicyDocumentRecordView};
use crate::relation_laws::{lemma_none, lemma_sole, unique};
use crate::sending_laws::{a_document_is_sent_behind_the_others, roomy, sendable};
use crate::store::StoreView;
use crate::tables::{FleetPolicyRowView, InboxRowView, PolicyRowView};
use vstd::prelude::*;

verus! {

/// The policy document that the tenant stored is read as it is stored. It is replaced
/// where its version was shown: it then is the given document, by the given operator,
/// from now, at the next version, which is told. Otherwise nothing changes.
pub proof fn a_stored_policy_is_replaced_at_its_version(
    state: StoreView,
    c: ClockReadingView,
    version: i64,
    document_json: Seq<char>,
    updated_by: Seq<char>,
    i: int,
)
    requires
        unique(state.policies, policy_tenant()),
        runs(state, c),
        0 <= i < state.policies.len(),
        state.policies[i].tenant_id == state.tenant_id,
    ensures
        ({
            let s = state.checkpoint_clock(c).0;
            let row = state.policies[i];
            &&& state.policy_document(c) == (
                s,
                Ok::<Option<PolicyDocumentRecordView>, StoreError>(Some(row.document)),
            )
            &&& state.replace_policy_document(c, version, document_json, updated_by)
                == if version < 1 || document_json.len() == 0 || updated_by.len() == 0 {
                (s, Err::<Option<i64>, StoreError>(StoreError::InvalidInput("policy document")))
            } else if row.document.version != version {
                (s, Ok::<Option<i64>, StoreError>(None))
            } else if version == i64::MAX {
                (
                    s,
                    Err::<Option<i64>, StoreError>(
                        StoreError::Database(crate::error::DatabaseFault::OutOfRange),
                    ),
                )
            } else {
                (
                    StoreView {
                        policies: state.policies.update(
                            i,
                            PolicyRowView {
                                tenant_id: state.tenant_id,
                                source: "admin"@,
                                document: PolicyDocumentRecordView {
                                    version: (version + 1) as i64,
                                    document_json,
                                    updated_at_ms: c.now_ms,
                                    updated_by: Some(updated_by),
                                },
                            },
                        ),
                        ..s
                    },
                    Ok::<Option<i64>, StoreError>(Some((version + 1) as i64)),
                )
            }
        }),
{
    lemma_runs(state, c);
    lemma_sole(state.policies, policy_tenant(), policy_of(state.tenant_id), i);
    lemma_sole(state.policies, policy_tenant(), policy_at(state.tenant_id, version), i);
}

/// A tenant that stored no policy document has none to read, and stores its first one
/// as the second version, where the first version was shown.
pub proof fn a_first_policy_is_the_second_version(
    state: StoreView,
    c: ClockReadingView,
    version: i64,
    document_json: Seq<char>,
    updated_by: Seq<char>,
)
    requires
        runs(state, c),
        forall|q: int|
            0 <= q < state.policies.len()
                ==> (#[trigger] state.policies[q]).tenant_id != state.tenant_id,
    ensures
        ({
            let s = state.checkpoint_clock(c).0;
            &&& state.policy_document(c) == (
                s,
                Ok::<Option<PolicyDocumentRecordView>, StoreError>(None),
            )
            &&& state.replace_policy_document(c, version, document_json, updated_by)
                == if version < 1 || document_json.len() == 0 || updated_by.len() == 0 {
                (s, Err::<Option<i64>, StoreError>(StoreError::InvalidInput("policy document")))
            } else if version != 1 {
                (s, Ok::<Option<i64>, StoreError>(None))
            } else {
                (
                    StoreView {
                        policies: state.policies.push(
                            PolicyRowView {
                                tenant_id: state.tenant_id,
                                source: "admin"@,
                                document: PolicyDocumentRecordView {
                                    version: 2,
                                    document_json,
                                    updated_at_ms: c.now_ms,
                                    updated_by: Some(updated_by),
                                },
                            },
                        ),
                        ..s
                    },
                    Ok::<Option<i64>, StoreError>(Some(2)),
                )
            }
        }),
{
    lemma_runs(state, c);
    lemma_none(state.policies, policy_of(state.tenant_id));
    lemma_none(state.policies, policy_at(state.tenant_id, version));
}

/// The fleet policy that the tenant stored is read as it is stored, and the one without
/// rules at the first version where it stored none.
pub proof fn the_fleet_policy_without_rules_is_the_first(state: StoreView, c: ClockReadingView)
    requires
        unique(state.fleet_policies, fleet_policy_tenant()),
        runs(state, c),
    ensures
        state.fleet_policy(c).0 == state.checkpoint_clock(c).0,
        state.fleet_policy(c).1 is Ok,
        (forall|q: int|
            0 <= q < state.fleet_policies.len()
                ==> (#[trigger] state.fleet_policies[q]).tenant_id != state.tenant_id)
                    ==> state.fleet_policy(c).1->Ok_0
            == (FleetPolicyRecordView {
            version: 1,
            document_json: "{\"rules\":[]}"@,
            updated_at_ms: 0,
            updated_by: ""@,
        }),
        forall|i: int|
            0 <= i < state.fleet_policies.len() && (#[trigger] state.fleet_policies[i]).tenant_id
                == state.tenant_id ==> state.fleet_policy(c).1->Ok_0
                == state.fleet_policies[i].record,
{
    lemma_runs(state, c);
    let of = fleet_policy_of(state.tenant_id);
    if forall|q: int|
        0 <= q < state.fleet_policies.len()
            ==> (#[trigger] state.fleet_policies[q]).tenant_id != state.tenant_id {
        lemma_none(state.fleet_policies, of);
    }
    assert forall|i: int|
        0 <= i < state.fleet_policies.len() && (#[trigger] state.fleet_policies[i]).tenant_id
            == state.tenant_id implies state.fleet_policy(c).1->Ok_0
        == state.fleet_policies[i].record by {
        lemma_sole(state.fleet_policies, fleet_policy_tenant(), of, i);
    }
}

/// Whether documents were sent to nodes at a moment, in order, behind the others.
pub open spec fn sent_all(
    before: Seq<InboxRowView>,
    after: Seq<InboxRowView>,
    documents: Seq<(Seq<char>, Seq<char>)>,
    at_ms: i64,
) -> bool {
    &&& after.len() == before.len() + documents.len()
    &&& forall|j: int| 0 <= j < before.len() ==> #[trigger] after[j] == before[j]
    &&& forall|k: int|
        0 <= k < documents.len() ==> waits_for(
            after[before.len() + k],
            #[trigger] documents[k],
            at_ms,
        )
}

/// Whether a document waits for its node.
pub open spec fn waits_for(
    row: InboxRowView,
    document: (Seq<char>, Seq<char>),
    at_ms: i64,
) -> bool {
    row.node_id == document.0 && row.envelope_json == document.1 && row.created_at_ms == at_ms
        && row.delivered_at_ms is None && row.acked_at_ms is None
}

proof fn lemma_sent_all(
    state: StoreView,
    documents: Seq<(Seq<char>, Seq<char>)>,
    now_ms: i64,
    spare: int,
)
    requires
        spare >= 0,
    ensures
        ({
            let reply = state.enqueue_all(documents, Some(now_ms));
            let many = documents.len() + spare;
            &&& (forall|k: int|
                0 <= k < documents.len() ==> sendable((#[trigger] documents[k]).1)) && (forall|
                node: Seq<char>,
            |
                #[trigger] roomy(state.node_inbox, node, many)) && many <= i64::MAX ==> reply is Ok
                && forall|node: Seq<char>| #[trigger] roomy(reply->Ok_0.node_inbox, node, spare)
            &&& reply is Ok ==> {
                &&& reply->Ok_0 == (StoreView { node_inbox: reply->Ok_0.node_inbox, ..state })
                &&& sent_all(state.node_inbox, reply->Ok_0.node_inbox, documents, now_ms)
                &&& forall|k: int|
                    0 <= k < documents.len() ==> sendable((#[trigger] documents[k]).1)
            }
        }),
    decreases documents.len(),
{
    let many = documents.len() + spare;
    if documents.len() > 0 {
        let rest = documents.drop_last();
        let last = documents[documents.len() - 1];
        lemma_sent_all(state, rest, now_ms, spare + 1);
        let fine = (forall|k: int|
            0 <= k < documents.len() ==> sendable((#[trigger] documents[k]).1)) && (forall|
            node: Seq<char>,
        |
            #[trigger] roomy(state.node_inbox, node, many)) && many <= i64::MAX;
        if fine {
            assert forall|k: int| 0 <= k < rest.len() implies sendable(
                (#[trigger] rest[k]).1,
            ) by {
                assert(rest[k] == documents[k]);
            }
            assert(rest.len() + (spare + 1) == many);
        }
        if let Ok(mid) = state.enqueue_all(rest, Some(now_ms)) {
            a_document_is_sent_behind_the_others(mid, last.0, last.1, Some(now_ms));
            if fine {
                assert(roomy(mid.node_inbox, last.0, spare + 1));
                assert(roomy(mid.node_inbox, last.0, 1)) by {
                    assert forall|j: int| 0 <= j < mid.node_inbox.len() && (
                    #[trigger] mid.node_inbox[j]).node_id == last.0 implies mid.node_inbox[j].seq
                        + 1 <= i64::MAX by {}
                }
            }
            if let Ok(after) = mid.enqueue(last.0, last.1, Some(now_ms)) {
                let b = state.node_inbox;
                let m = mid.node_inbox;
                let a = after.node_inbox;
                assert forall|j: int| 0 <= j < m.len() implies #[trigger] a[j] == m[j] by {
                    assert(a.drop_last()[j] == m[j]);
                }
                assert forall|k: int| 0 <= k < documents.len() implies waits_for(
                    a[b.len() + k],
                    #[trigger] documents[k],
                    now_ms,
                ) by {
                    if k < rest.len() {
                        assert(rest[k] == documents[k]);
                        assert(waits_for(m[b.len() + k], rest[k], now_ms));
                    }
                }
                assert forall|k: int| 0 <= k < documents.len() implies sendable(
                    (#[trigger] documents[k]).1,
                ) by {
                    if k < rest.len() {
                        assert(rest[k] == documents[k]);
                    }
                }
                if fine {
                    assert forall|node: Seq<char>| #[trigger] roomy(a, node, spare) by {
                        assert(roomy(m, node, spare + 1));
                        assert(roomy(m, last.0, spare + 1));
                        assert forall|j: int| 0 <= j < a.len() && (#[trigger] a[j]).node_id
                            == node implies a[j].seq + spare <= i64::MAX by {
                            if j < m.len() {
                                assert(m[j].node_id == node);
                            } else if a.last().seq != 1 {
                                let k = choose|k: int|
                                    0 <= k < m.len() && (#[trigger] m[k]).node_id == last.0
                                        && m[k].seq + 1 == a.last().seq;
                                assert(m[k].seq + (spare + 1) <= i64::MAX);
                            }
                        }
                    }
                }
            }
        }
    }
}

/// The fleet policy is replaced where its version was shown: it then is the given
/// document, by the given operator, from now, at the next version, in place of what the
/// tenant stored, and the nodes are sent their documents. Otherwise nothing changes.
pub proof fn the_fleet_policy_is_replaced_at_its_version(
    state: StoreView,
    c: ClockReadingView,
    version: i64,
    document_json: Seq<char>,
    updated_by: Seq<char>,
    documents: Seq<(Seq<char>, Seq<char>)>,
)
    requires
        unique(state.fleet_policies, fleet_policy_tenant()),
        runs(state, c),
    ensures
        ({
            let (after, reply) = state.replace_fleet_policy(
                c,
                version,
                document_json,
                updated_by,
                documents,
            );
            let s = state.checkpoint_clock(c).0;
            let row = FleetPolicyRowView {
                tenant_id: state.tenant_id,
                record: FleetPolicyRecordView {
                    version: (version + 1) as i64,
                    document_json,
                    updated_at_ms: c.now_ms,
                    updated_by,
                },
            };
            let fine = (forall|k: int|
                0 <= k < documents.len() ==> sendable((#[trigger] documents[k]).1)) && (forall|
                node: Seq<char>,
            |
                #[trigger] roomy(state.node_inbox, node, documents.len() as int))
                && documents.len() <= i64::MAX;
            if version <= 0 {
                after == s
                    && reply == Err::<bool, StoreError>(StoreError::InvalidInput("policy version"))
            } else if !policy_in_force(state, version) {
                after == s && reply == Ok::<bool, StoreError>(false)
            } else if version == i64::MAX {
                after == s
                    && reply == Err::<bool, StoreError>(StoreError::InvalidInput("policy version"))
            } else {
                &&& fine ==> reply is Ok
                &&& reply is Err ==> after == s
                &&& reply is Ok ==> {
                    &&& reply == Ok::<bool, StoreError>(true)
                    &&& after == (StoreView {
                        fleet_policies: after.fleet_policies,
                        node_inbox: after.node_inbox,
                        ..s
                    })
                    &&& sent_all(state.node_inbox, after.node_inbox, documents, c.now_ms)
                    &&& (forall|q: int|
                        0 <= q < state.fleet_policies.len()
                            ==> (#[trigger] state.fleet_policies[q]).tenant_id != state.tenant_id)
                        ==> after.fleet_policies == state.fleet_policies.push(row)
                    &&& forall|i: int|
                        0 <= i < state.fleet_policies.len() && (
                        #[trigger] state.fleet_policies[i]).tenant_id == state.tenant_id
                            ==> after.fleet_policies == state.fleet_policies.update(i, row)
                }
            }
        }),
{
    lemma_runs(state, c);
    let s = state.checkpoint_clock(c).0;
    lemma_policy_in_force(s, version);
    assert(policy_in_force(s, version) == policy_in_force(state, version));
    let of = fleet_policy_of(state.tenant_id);
    let rows = state.fleet_policies;
    let row = FleetPolicyRowView {
        tenant_id: state.tenant_id,
        record: FleetPolicyRecordView {
            version: (version + 1) as i64,
            document_json,
            updated_at_ms: c.now_ms,
            updated_by,
        },
    };
    if exists|i: int| 0 <= i < rows.len() && (#[trigger] rows[i]).tenant_id == state.tenant_id {
        let i = choose|i: int|
            0 <= i < rows.len() && (#[trigger] rows[i]).tenant_id == state.tenant_id;
        lemma_sole(rows, fleet_policy_tenant(), of, i);
        assert(of(rows[i]));
        assert forall|j: int| 0 <= j < rows.len() && (#[trigger] rows[j]).tenant_id
            == state.tenant_id implies j == i by {
            if j != i {
                assert(fleet_policy_tenant()(rows[i]) == fleet_policy_tenant()(rows[j]));
            }
        }
        lemma_sent_all(
            StoreView { fleet_policies: rows.update(i, row), ..s },
            documents,
            c.now_ms,
            0,
        );
    } else {
        lemma_none(rows, of);
        lemma_sent_all(
            StoreView { fleet_policies: rows.push(row), ..s },
            documents,
            c.now_ms,
            0,
        );
    }
}

} // verus!
