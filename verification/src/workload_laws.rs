//! What each step of a workload does to it, by what the workload says.

use crate::clock::ClockReadingView;
use crate::error::{DatabaseFault, StoreError};
use crate::keys::{node_id, workload_id};
use crate::moment_laws::{runs, the_checkpoint_passes_exactly_for_a_trusted_reading};
use crate::node_authority::active_node;
use crate::records::WorkloadRecordView;
use crate::relation::any;
use crate::relation_laws::{
    lemma_none, lemma_sole, lemma_unique_replaced, unique,
};
use crate::sending_laws::{
    a_registration_follows_its_policy, roomy, sendable, sent_both,
};
use crate::store::StoreView;
use crate::tables::WorkloadRowView;
use crate::workloads::{active_workload, editable_workload, workload_taken, workload_with};
use vstd::prelude::*;

verus! {

/// Whether a tenant has an active node under an identifier.
pub open spec fn node_is_active(state: StoreView, node: Seq<char>) -> bool {
    exists|j: int|
        0 <= j < state.nodes.len() && (#[trigger] state.nodes[j]).id == node
            && state.nodes[j].tenant_id == state.tenant_id && state.nodes[j].status == "active"@
}

pub(crate) proof fn lemma_node_is_active(state: StoreView, node: Seq<char>)
    requires
        unique(state.nodes, node_id()),
    ensures
        any(state.nodes, active_node(node, state.tenant_id)) == node_is_active(state, node),
        crate::relation::count(state.nodes, active_node(node, state.tenant_id))
            == if node_is_active(
            state,
            node,
        ) {
            1nat
        } else {
            0
        },
{
    let hit = active_node(node, state.tenant_id);
    if node_is_active(state, node) {
        let j = choose|j: int|
            0 <= j < state.nodes.len() && (#[trigger] state.nodes[j]).id == node
                && state.nodes[j].tenant_id == state.tenant_id && state.nodes[j].status
                == "active"@;
        assert(hit(state.nodes[j]));
        lemma_sole(state.nodes, node_id(), hit, j);
    } else {
        assert forall|j: int|
            0 <= j < state.nodes.len() implies !hit(#[trigger] state.nodes[j]) by {
        }
        lemma_none(state.nodes, hit);
    }
}

/// A workload is read by its tenant, as it is stored.
pub proof fn a_workload_is_read_as_stored(
    state: StoreView,
    c: ClockReadingView,
    id: Seq<char>,
    i: int,
)
    requires
        unique(state.workloads, workload_id()),
        runs(state, c),
        0 <= i < state.workloads.len(),
        state.workloads[i].record.id == id,
    ensures
        state.workload_by_id(c, id) == (
            state.checkpoint_clock(c).0,
            Ok::<Option<WorkloadRecordView>, StoreError>(
                if state.workloads[i].tenant_id == state.tenant_id {
                    Some(state.workloads[i].record)
                } else {
                    None
                },
            ),
        ),
{
    the_checkpoint_passes_exactly_for_a_trusted_reading(state, c);
    lemma_sole(state.workloads, workload_id(), workload_with(id, state.tenant_id), i);
}

/// Under an identifier that no workload has, none is read, edited or revoked.
pub proof fn an_absent_workload_is_out_of_reach(
    state: StoreView,
    c: ClockReadingView,
    id: Seq<char>,
    version: i64,
    unit: Seq<char>,
    account: Seq<char>,
    mode: Seq<char>,
    ceiling: i64,
    node: Seq<char>,
    registration_json: Seq<char>,
    policy_json: Seq<char>,
)
    requires
        runs(state, c),
        forall|i: int|
            0 <= i < state.workloads.len() ==> (#[trigger] state.workloads[i]).record.id != id,
    ensures
        ({
            let s = state.checkpoint_clock(c).0;
            &&& state.workload_by_id(c, id) == (
                s,
                Ok::<Option<WorkloadRecordView>, StoreError>(None),
            )
            &&& state.update_workload(
                c,
                id,
                version,
                unit,
                account,
                mode,
                ceiling,
                node,
                registration_json,
                policy_json,
            ) == (s, Ok::<bool, StoreError>(false))
            &&& state.revoke_workload(c, id, node, version, registration_json, policy_json) == (
                s,
                Ok::<bool, StoreError>(false),
            )
        }),
{
    the_checkpoint_passes_exactly_for_a_trusted_reading(state, c);
    let t = state.tenant_id;
    lemma_none(state.workloads, workload_with(id, t));
    lemma_none(state.workloads, editable_workload(state.nodes, id, t, version));
    lemma_none(state.workloads, active_workload(id, t, version));
}

/// A workload is registered on an active node of the tenant, as it was described:
/// active, at its first versions, from now. The node is sent the policy and the
/// registration. Nothing happens where the node is not active, and nothing where the
/// identifier is taken or the documents cannot be sent.
pub proof fn a_workload_is_registered_as_described(
    state: StoreView,
    c: ClockReadingView,
    record: WorkloadRecordView,
    created_by: Seq<char>,
    registration_json: Seq<char>,
    policy_json: Seq<char>,
)
    requires
        unique(state.nodes, node_id()),
        runs(state, c),
    ensures
        ({
            let (after, reply) = state.create_workload(
                c,
                record,
                created_by,
                registration_json,
                policy_json,
            );
            let s = state.checkpoint_clock(c).0;
            let taken = exists|i: int|
                0 <= i < state.workloads.len() && (#[trigger] state.workloads[i]).record.id
                    == record.id;
            if !node_is_active(state, record.node_id) {
                after == s && reply == Ok::<bool, StoreError>(false)
            } else if taken {
                after == s && reply == Err::<bool, StoreError>(
                    StoreError::Database(DatabaseFault::DuplicateKey),
                )
            } else if !sendable(policy_json) || !sendable(registration_json) || !roomy(
                state.node_inbox,
                record.node_id,
                2,
            ) {
                after == s && reply is Err
            } else {
                &&& reply == Ok::<bool, StoreError>(true)
                &&& after.workloads == state.workloads.push(
                    WorkloadRowView {
                        tenant_id: state.tenant_id,
                        created_by,
                        record: WorkloadRecordView {
                            registration_version: 1,
                            status: "active"@,
                            created_at_ms: c.now_ms,
                            revoked_at_ms: None,
                            version: 1,
                            ..record
                        },
                    },
                )
                &&& sent_both(
                    state.node_inbox,
                    after.node_inbox,
                    record.node_id,
                    policy_json,
                    registration_json,
                    c.now_ms,
                )
                &&& after == (StoreView {
                    workloads: after.workloads,
                    node_inbox: after.node_inbox,
                    ..s
                })
            }
        }),
{
    the_checkpoint_passes_exactly_for_a_trusted_reading(state, c);
    lemma_node_is_active(state, record.node_id);
    let s = state.checkpoint_clock(c).0;
    let taken = workload_taken(record.id);
    if exists|i: int|
        0 <= i < state.workloads.len() && (#[trigger] state.workloads[i]).record.id == record.id {
        let i = choose|i: int|
            0 <= i < state.workloads.len() && (#[trigger] state.workloads[i]).record.id
                == record.id;
        assert(taken(state.workloads[i]));
    }
    let row = WorkloadRowView {
        tenant_id: state.tenant_id,
        created_by,
        record: WorkloadRecordView {
            registration_version: 1,
            status: "active"@,
            created_at_ms: c.now_ms,
            revoked_at_ms: None,
            version: 1,
            ..record
        },
    };
    let inserted = StoreView { workloads: s.workloads.push(row), ..s };
    a_registration_follows_its_policy(
        inserted,
        record.node_id,
        registration_json,
        policy_json,
        c.now_ms,
    );
}

/// An active workload at the version that was shown, on an active node, is edited: it
/// then has the unit, the account, the mode and the ceiling that were given, both
/// versions are one higher, and the rest is as before. The node is sent the policy and
/// the registration. In every other case nothing changes.
pub proof fn an_edited_workload_has_what_was_given(
    state: StoreView,
    c: ClockReadingView,
    id: Seq<char>,
    version: i64,
    unit: Seq<char>,
    account: Seq<char>,
    mode: Seq<char>,
    ceiling: i64,
    node: Seq<char>,
    registration_json: Seq<char>,
    policy_json: Seq<char>,
    i: int,
)
    requires
        unique(state.workloads, workload_id()),
        unique(state.nodes, node_id()),
        runs(state, c),
        0 <= i < state.workloads.len(),
        state.workloads[i].record.id == id,
    ensures
        ({
            let (after, reply) = state.update_workload(
                c,
                id,
                version,
                unit,
                account,
                mode,
                ceiling,
                node,
                registration_json,
                policy_json,
            );
            let s = state.checkpoint_clock(c).0;
            let row = state.workloads[i];
            if row.tenant_id != state.tenant_id || row.record.status != "active"@
                || row.record.version != version || !node_is_active(state, row.record.node_id) {
                after == s && reply == Ok::<bool, StoreError>(false)
            } else if row.record.version == i64::MAX || row.record.registration_version
                == i64::MAX || !sendable(policy_json) || !sendable(registration_json) || !roomy(
                state.node_inbox,
                node,
                2,
            ) {
                after == s && reply is Err
            } else {
                &&& reply == Ok::<bool, StoreError>(true)
                &&& after.workloads == state.workloads.update(
                    i,
                    WorkloadRowView {
                        record: WorkloadRecordView {
                            unit,
                            account,
                            consumption_mode: mode,
                            local_ceiling_seconds: ceiling,
                            registration_version: (row.record.registration_version + 1) as i64,
                            version: (row.record.version + 1) as i64,
                            ..row.record
                        },
                        ..row
                    },
                )
                &&& sent_both(
                    state.node_inbox,
                    after.node_inbox,
                    node,
                    policy_json,
                    registration_json,
                    c.now_ms,
                )
                &&& after == (StoreView {
                    workloads: after.workloads,
                    node_inbox: after.node_inbox,
                    ..s
                })
            }
        }),
{
    the_checkpoint_passes_exactly_for_a_trusted_reading(state, c);
    let s = state.checkpoint_clock(c).0;
    let hit = editable_workload(state.nodes, id, state.tenant_id, version);
    lemma_sole(state.workloads, workload_id(), hit, i);
    lemma_node_is_active(state, state.workloads[i].record.node_id);
    let change = crate::workloads::workload_edited(unit, account, mode, ceiling);
    if hit(state.workloads[i]) && change(state.workloads[i]) is Some {
        a_registration_follows_its_policy(
            StoreView {
                workloads: state.workloads.update(i, change(state.workloads[i])->0),
                ..s
            },
            node,
            registration_json,
            policy_json,
            c.now_ms,
        );
    }
}

/// What was edited is read back: after a workload was edited, a read of it shows the
/// unit, the account, the mode and the ceiling that were given, versions that are one
/// higher, and the rest as it was before.
pub proof fn an_edit_is_read_back(
    state: StoreView,
    c: ClockReadingView,
    id: Seq<char>,
    version: i64,
    unit: Seq<char>,
    account: Seq<char>,
    mode: Seq<char>,
    ceiling: i64,
    node: Seq<char>,
    registration_json: Seq<char>,
    policy_json: Seq<char>,
    later: ClockReadingView,
    i: int,
)
    requires
        unique(state.workloads, workload_id()),
        unique(state.nodes, node_id()),
        runs(state, c),
        0 <= i < state.workloads.len(),
        state.workloads[i].record.id == id,
        state.update_workload(
            c,
            id,
            version,
            unit,
            account,
            mode,
            ceiling,
            node,
            registration_json,
            policy_json,
        ).1 == Ok::<bool, StoreError>(true),
        runs(
            state.update_workload(
                c,
                id,
                version,
                unit,
                account,
                mode,
                ceiling,
                node,
                registration_json,
                policy_json,
            ).0,
            later,
        ),
    ensures
        ({
            let after = state.update_workload(
                c,
                id,
                version,
                unit,
                account,
                mode,
                ceiling,
                node,
                registration_json,
                policy_json,
            ).0;
            let before = state.workloads[i].record;
            after.workload_by_id(later, id).1 == Ok::<Option<WorkloadRecordView>, StoreError>(
                Some(
                    WorkloadRecordView {
                        unit,
                        account,
                        consumption_mode: mode,
                        local_ceiling_seconds: ceiling,
                        registration_version: (before.registration_version + 1) as i64,
                        version: (before.version + 1) as i64,
                        ..before
                    },
                ),
            )
        }),
{
    an_edited_workload_has_what_was_given(
        state,
        c,
        id,
        version,
        unit,
        account,
        mode,
        ceiling,
        node,
        registration_json,
        policy_json,
        i,
    );
    let after = state.update_workload(
        c,
        id,
        version,
        unit,
        account,
        mode,
        ceiling,
        node,
        registration_json,
        policy_json,
    ).0;
    the_checkpoint_passes_exactly_for_a_trusted_reading(state, c);
    lemma_unique_replaced(state.workloads, workload_id(), i, after.workloads[i]);
    a_workload_is_read_as_stored(after, later, id, i);
}

/// An active workload at the version that was shown is revoked, from now, at versions
/// that are one higher, and the rest is as before. The node is sent the policy and the
/// registration. In every other case nothing changes.
pub proof fn an_active_workload_is_revoked(
    state: StoreView,
    c: ClockReadingView,
    id: Seq<char>,
    node: Seq<char>,
    version: i64,
    registration_json: Seq<char>,
    policy_json: Seq<char>,
    i: int,
)
    requires
        unique(state.workloads, workload_id()),
        runs(state, c),
        0 <= i < state.workloads.len(),
        state.workloads[i].record.id == id,
    ensures
        ({
            let (after, reply) = state.revoke_workload(
                c,
                id,
                node,
                version,
                registration_json,
                policy_json,
            );
            let s = state.checkpoint_clock(c).0;
            let row = state.workloads[i];
            if row.tenant_id != state.tenant_id || row.record.status != "active"@
                || row.record.version != version {
                after == s && reply == Ok::<bool, StoreError>(false)
            } else if row.record.version == i64::MAX || row.record.registration_version
                == i64::MAX || !sendable(policy_json) || !sendable(registration_json) || !roomy(
                state.node_inbox,
                node,
                2,
            ) {
                after == s && reply is Err
            } else {
                &&& reply == Ok::<bool, StoreError>(true)
                &&& after.workloads == state.workloads.update(
                    i,
                    WorkloadRowView {
                        record: WorkloadRecordView {
                            status: "revoked"@,
                            revoked_at_ms: Some(c.now_ms),
                            registration_version: (row.record.registration_version + 1) as i64,
                            version: (row.record.version + 1) as i64,
                            ..row.record
                        },
                        ..row
                    },
                )
                &&& sent_both(
                    state.node_inbox,
                    after.node_inbox,
                    node,
                    policy_json,
                    registration_json,
                    c.now_ms,
                )
                &&& after == (StoreView {
                    workloads: after.workloads,
                    node_inbox: after.node_inbox,
                    ..s
                })
            }
        }),
{
    the_checkpoint_passes_exactly_for_a_trusted_reading(state, c);
    let s = state.checkpoint_clock(c).0;
    let hit = active_workload(id, state.tenant_id, version);
    lemma_sole(state.workloads, workload_id(), hit, i);
    let change = crate::node_authority::workload_revoked(Some(c.now_ms));
    if hit(state.workloads[i]) && change(state.workloads[i]) is Some {
        a_registration_follows_its_policy(
            StoreView {
                workloads: state.workloads.update(i, change(state.workloads[i])->0),
                ..s
            },
            node,
            registration_json,
            policy_json,
            c.now_ms,
        );
    }
}

} // verus!
