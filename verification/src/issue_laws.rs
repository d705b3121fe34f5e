//! What the issue of grants does, by what the operations and the drafts say.

use crate::authorization::operation_approval_with;
use crate::authorization::operation_with;
use crate::clock::ClockReadingView;
use crate::decision_laws::{lemma_policy_in_force, policy_in_force};
use crate::documents::{DocumentKind, GrantIssueDraftView, GrantReadingView};
use crate::error::StoreError;
use crate::grants::{
    draft_check, draft_ids, draft_of, grant_taken, group_check, group_fits, issuable, issued_ids,
    requested_at, requested_operation, GrantContextView,
};
use crate::json::json_member;
use crate::keys::{
    fleet_policy_tenant, node_id, operation_approval_id, operation_id, workload_id,
};
use crate::moment_laws::{runs, the_checkpoint_passes_exactly_for_a_trusted_reading};
use crate::node_authority::node_with;
use crate::records::{
    GrantIssueOutcomeView, GrantRecordView, OperationRecordView, WorkloadRecordView,
};
use crate::relation::{any, attempted, first};
use crate::relation_laws::{lemma_none, lemma_sole, lemma_unique_replaced, unique};
use crate::sending_laws::{a_document_is_sent_behind_the_others, roomy, sendable, sent};
use crate::store::StoreView;
use crate::tables::{GrantRowView, NodeRowView, OperationRowView};
use crate::text::{decimal, utf8_text};
use crate::workloads::workload_with;
use vstd::prelude::*;

verus! {

/// Where a draft finds what it is for: an operation of the tenant, its workload and its
/// node, by their places in the tables.
pub struct Places {
    pub operation: int,
    pub workload: int,
    pub node: int,
}

/// Whether places are those of the operation of a draft, its workload and its node.
pub open spec fn located(state: StoreView, draft: GrantIssueDraftView, at: Places) -> bool {
    &&& 0 <= at.operation < state.operations.len()
    &&& state.operations[at.operation].record.id == draft.grant.operation_id
    &&& state.operations[at.operation].tenant_id == state.tenant_id
    &&& 0 <= at.workload < state.workloads.len()
    &&& state.workloads[at.workload].record.id
        == state.operations[at.operation].record.workload_id
    &&& state.workloads[at.workload].tenant_id == state.tenant_id
    &&& 0 <= at.node < state.nodes.len()
    &&& state.nodes[at.node].id == state.operations[at.operation].record.node_id
    &&& state.nodes[at.node].tenant_id == state.tenant_id
}

/// Whether the approval of an operation allows it: the operation has none, or the
/// tenant's approval that it names was approved.
pub open spec fn approval_allows(state: StoreView, operation: OperationRecordView) -> bool {
    operation.approval_id is Some ==> forall|a: int|
        0 <= a < state.operation_approvals.len() && (
        #[trigger] state.operation_approvals[a]).record.id == operation.approval_id->0
            && state.operation_approvals[a].tenant_id == state.tenant_id
            ==> state.operation_approvals[a].record.status == "approved"@
}

/// Whether a draft says what the operation, its workload and its node say, for this
/// controller, under the policy in force and the present epoch.
pub open spec fn says_the_same(
    state: StoreView,
    draft: GrantIssueDraftView,
    operation: OperationRecordView,
    workload: WorkloadRecordView,
    node: NodeRowView,
) -> bool {
    let grant = draft.grant;
    &&& grant.id != grant.operation_id
    &&& grant.operation_id == operation.id
    &&& grant.node_id == workload.node_id
    &&& grant.workload_id == workload.id
    &&& grant.invocation_id == operation.invocation_id
    &&& grant.unit == workload.unit
    &&& grant.account == workload.account
    &&& grant.resource_id == operation.resource_id
    &&& grant.action == operation.action
    &&& grant.mode == workload.consumption_mode
    &&& grant.audience == "blindpass-node"@
    &&& grant.recipient_key_id == workload.node_id + "-"@ + decimal(node.key_version)
    &&& grant.approval_reference == operation.approval_id
    &&& same_number(grant.policy_version, operation.policy_version)
    &&& same_number(grant.issuer_epoch, state.meta.issuer_epoch)
    &&& same_number(grant.local_ceiling_seconds, workload.local_ceiling_seconds)
    &&& draft.expected_operation_version == operation.version
}

/// Whether an unsigned number has the bits of a signed one.
pub open spec fn same_number(unsigned: u64, signed: i64) -> bool {
    unsigned == signed || unsigned == signed + 0x1_0000_0000_0000_0000
}

/// Whether a draft is timely: issued a minute ago at most and five seconds ahead at
/// most, for an operation whose deadline is ahead, until a moment ahead that neither
/// the lifetime that was asked for nor the ceiling of the workload forbids.
pub open spec fn is_timely(
    draft: GrantIssueDraftView,
    operation: OperationRecordView,
    workload: WorkloadRecordView,
    now_ms: i64,
) -> bool {
    let issued = draft.grant.issued_at_ms;
    let expires = draft.grant.expires_at_ms;
    &&& 0 < issued <= i64::MAX
    &&& expires <= i64::MAX
    &&& issued <= now_ms + 5_000
    &&& now_ms - issued <= 60_000
    &&& operation.expires_at_ms > now_ms
    &&& expires > now_ms
    &&& (if i64::MIN <= operation.requested_ttl_seconds * 1_000 <= i64::MAX {
        expires <= issued + operation.requested_ttl_seconds * 1_000
    } else {
        expires <= issued
    })
    &&& expires <= issued + workload.local_ceiling_seconds * 1_000
}

/// Whether a grant may be issued for a draft now.
pub open spec fn may_be_issued(
    state: StoreView,
    draft: GrantIssueDraftView,
    at: Places,
    now_ms: i64,
) -> bool {
    let operation = state.operations[at.operation].record;
    let workload = state.workloads[at.workload].record;
    let node = state.nodes[at.node];
    &&& says_the_same(state, draft, operation, workload, node)
    &&& is_timely(draft, operation, workload, now_ms)
    &&& policy_in_force(state, operation.policy_version)
    &&& operation.status == "requested"@
    &&& operation.decision != "deny"@
    &&& workload.status == "active"@
    &&& node.status == "active"@
    &&& approval_allows(state, operation)
}

/// Whether a group of drafts is one that is looked at: one to ten, each for an
/// operation of its own at a version, each in an envelope of a size that can be sent
/// that signs exactly this grant under its epoch.
pub open spec fn is_a_group(drafts: Seq<GrantIssueDraftView>) -> bool {
    &&& 1 <= drafts.len() <= 10
    &&& forall|k: int| 0 <= k < drafts.len() ==> is_signed(#[trigger] drafts[k])
    &&& forall|k: int, l: int|
        0 <= k < l < drafts.len() ==> (#[trigger] drafts[k]).grant.operation_id != (
        #[trigger] drafts[l]).grant.operation_id
}

pub open spec fn is_signed(draft: GrantIssueDraftView) -> bool {
    &&& draft.expected_operation_version > 0
    &&& sendable(draft.envelope_json)
    &&& match draft.reading {
        GrantReadingView::Envelope(envelope) => envelope.kind == DocumentKind::Grant
            && envelope.epoch == draft.grant.issuer_epoch && envelope.signed_body
            == envelope.expected_body,
        _ => false,
    }
}

proof fn lemma_group_check(drafts: Seq<GrantIssueDraftView>, from: int)
    requires
        0 <= from <= drafts.len(),
    ensures
        group_check(drafts, from) is Ok <==> forall|k: int|
            from <= k < drafts.len() ==> is_signed(#[trigger] drafts[k]) && !any(
                drafts.take(k),
                draft_of(drafts[k].grant.operation_id),
            ),
    decreases drafts.len() - from,
{
    if from < drafts.len() {
        lemma_group_check(drafts, from + 1);
        let here = draft_check(drafts.take(from), drafts[from]);
        assert(here is Ok <==> is_signed(drafts[from]) && !any(
            drafts.take(from),
            draft_of(drafts[from].grant.operation_id),
        ));
    }
}

proof fn lemma_is_a_group(drafts: Seq<GrantIssueDraftView>)
    ensures
        is_a_group(drafts) <==> 1 <= drafts.len() <= 10 && group_check(drafts, 0) is Ok,
{
    lemma_group_check(drafts, 0);
    if is_a_group(drafts) {
        assert forall|k: int| 0 <= k < drafts.len() implies is_signed(#[trigger] drafts[k]) && !any(
            drafts.take(k),
            draft_of(drafts[k].grant.operation_id),
        ) by {
            let of = draft_of(drafts[k].grant.operation_id);
            if any(drafts.take(k), of) {
                let j = choose|j: int|
                    0 <= j < drafts.take(k).len() && of(#[trigger] drafts.take(k)[j]);
                assert(drafts[j].grant.operation_id == drafts[k].grant.operation_id);
            }
        }
    } else if 1 <= drafts.len() <= 10 && group_check(drafts, 0) is Ok {
        assert forall|k: int, l: int| 0 <= k < l < drafts.len() implies (
        #[trigger] drafts[k]).grant.operation_id != (
        #[trigger] drafts[l]).grant.operation_id by {
            let of = draft_of(drafts[l].grant.operation_id);
            assert(!any(drafts.take(l), of));
            assert(drafts.take(l)[k] == drafts[k]);
        }
    }
}

/// What is read of a located draft.
spec fn read_of(state: StoreView, at: Places) -> GrantContextView {
    let operation = state.operations[at.operation].record;
    let workload = state.workloads[at.workload].record;
    let node = state.nodes[at.node];
    GrantContextView {
        operation,
        workload_id: workload.id,
        node_id: workload.node_id,
        unit: workload.unit,
        account: workload.account,
        mode: workload.consumption_mode,
        workload_ceiling: workload.local_ceiling_seconds,
        workload_status: workload.status,
        node_status: node.status,
        recipient_key_version: node.key_version,
        approval_status: match operation.approval_id {
            None => None,
            Some(id) => match first(
                state.operation_approvals,
                operation_approval_with(id, state.tenant_id),
            ) {
                Some(approval) => Some(approval.record.status),
                None => None,
            },
        },
    }
}

proof fn lemma_context(state: StoreView, draft: GrantIssueDraftView, at: Places)
    requires
        unique(state.operations, operation_id()),
        unique(state.workloads, workload_id()),
        unique(state.nodes, node_id()),
        unique(state.operation_approvals, operation_approval_id()),
        located(state, draft, at),
    ensures
        state.grant_context(draft.grant.operation_id) == Some(read_of(state, at)),
        (read_of(state, at).approval_status is None || read_of(state, at).approval_status == Some(
            "approved"@,
        )) == approval_allows(state, state.operations[at.operation].record),
{
    let t = state.tenant_id;
    let operation = state.operations[at.operation].record;
    lemma_sole(
        state.operations,
        operation_id(),
        operation_with(draft.grant.operation_id, t),
        at.operation,
    );
    lemma_sole(
        state.workloads,
        workload_id(),
        workload_with(operation.workload_id, t),
        at.workload,
    );
    lemma_sole(state.nodes, node_id(), node_with(operation.node_id, t), at.node);
    if operation.approval_id is Some {
        let id = operation.approval_id->0;
        let rows = state.operation_approvals;
        let hit = operation_approval_with(id, t);
        if exists|a: int| 0 <= a < rows.len() && hit(#[trigger] rows[a]) {
            let a = choose|a: int| 0 <= a < rows.len() && hit(#[trigger] rows[a]);
            lemma_sole(rows, operation_approval_id(), hit, a);
            assert forall|b: int| 0 <= b < rows.len() && (#[trigger] rows[b]).record.id
                == id implies b == a by {
                if b != a {
                    assert(operation_approval_id()(rows[a]) == operation_approval_id()(rows[b]));
                }
            }
            assert(rows[a].record.id == id);
        } else {
            lemma_none(rows, hit);
            assert forall|b: int| 0 <= b < rows.len() && (#[trigger] rows[b]).record.id == id
                && rows[b].tenant_id == t implies rows[b].record.status == "approved"@ by {
                assert(hit(rows[b]));
            }
        }
    }
}

proof fn lemma_contexts(state: StoreView, drafts: Seq<GrantIssueDraftView>, at: Seq<Places>)
    requires
        unique(state.operations, operation_id()),
        unique(state.workloads, workload_id()),
        unique(state.nodes, node_id()),
        unique(state.operation_approvals, operation_approval_id()),
        at.len() == drafts.len(),
        forall|k: int| 0 <= k < drafts.len() ==> located(state, #[trigger] drafts[k], at[k]),
    ensures
        state.grant_contexts(drafts) == Seq::new(drafts.len(), |k: int| read_of(state, at[k])),
    decreases drafts.len(),
{
    let all = Seq::new(drafts.len(), |k: int| read_of(state, at[k]));
    if drafts.len() > 0 {
        let rest = drafts.drop_last();
        let places = at.drop_last();
        assert forall|k: int| 0 <= k < rest.len() implies located(
            state,
            #[trigger] rest[k],
            places[k],
        ) by {
            assert(rest[k] == drafts[k]);
        }
        lemma_contexts(state, rest, places);
        let last = drafts.len() - 1;
        assert(located(state, drafts[last], at[last]));
        lemma_context(state, drafts[last], at[last]);
        assert(state.grant_contexts(drafts) =~= all);
    } else {
        assert(state.grant_contexts(drafts) =~= all);
    }
}

proof fn lemma_contexts_short(state: StoreView, drafts: Seq<GrantIssueDraftView>)
    ensures
        state.grant_contexts(drafts).len() <= drafts.len(),
        (exists|k: int|
            0 <= k < drafts.len() && state.grant_context(
                (#[trigger] drafts[k]).grant.operation_id,
            ) is None) ==> state.grant_contexts(drafts).len() < drafts.len(),
    decreases drafts.len(),
{
    if drafts.len() > 0 {
        let rest = drafts.drop_last();
        lemma_contexts_short(state, rest);
        if exists|k: int|
            0 <= k < drafts.len() && state.grant_context(
                (#[trigger] drafts[k]).grant.operation_id,
            ) is None {
            let k = choose|k: int|
                0 <= k < drafts.len() && state.grant_context(
                    (#[trigger] drafts[k]).grant.operation_id,
                ) is None;
            if k < rest.len() {
                assert(rest[k] == drafts[k]);
            }
        }
    }
}

/// A draft whose operation, workload or node the tenant does not have gets its group
/// no grant, and changes nothing.
pub proof fn a_draft_for_nothing_gets_no_grant(
    state: StoreView,
    c: ClockReadingView,
    drafts: Seq<GrantIssueDraftView>,
    k: int,
)
    requires
        runs(state, c),
        0 <= k < drafts.len(),
        forall|operation: int, workload: int, node: int|
            !#[trigger] located(state, drafts[k], Places { operation, workload, node }),
    ensures
        ({
            let (after, reply) = state.issue_operation_grants(c, drafts);
            &&& after == state.checkpoint_clock(c).0
            &&& reply matches Ok(outcome) ==> outcome is Conflict || outcome is Existing
        }),
{
    the_checkpoint_passes_exactly_for_a_trusted_reading(state, c);
    let s = state.checkpoint_clock(c).0;
    let t = state.tenant_id;
    lemma_contexts_short(s, drafts);
    let id = drafts[k].grant.operation_id;
    if s.grant_context(id) is Some {
        crate::relation_laws::lemma_first_satisfies(s.operations, operation_with(id, t));
        let row = first(s.operations, operation_with(id, t))->0;
        let operation = choose|o: int| 0 <= o < s.operations.len() && s.operations[o] == row;
        crate::relation_laws::lemma_first_satisfies(
            s.workloads,
            workload_with(row.record.workload_id, t),
        );
        let found = first(s.workloads, workload_with(row.record.workload_id, t))->0;
        let workload = choose|w: int| 0 <= w < s.workloads.len() && s.workloads[w] == found;
        crate::relation_laws::lemma_first_satisfies(s.nodes, node_with(row.record.node_id, t));
        let host = first(s.nodes, node_with(row.record.node_id, t))->0;
        let node = choose|n: int| 0 <= n < s.nodes.len() && s.nodes[n] == host;
        assert(located(state, drafts[k], Places { operation, workload, node }));
    }
    assert(s.grant_context(drafts[k].grant.operation_id) is None);
}

/// The grant as it is stored when it was issued.
pub open spec fn stored_grant(
    draft: GrantIssueDraftView,
    tenant: Seq<char>,
    body_json: Seq<char>,
    signature: Seq<char>,
    now_ms: i64,
) -> GrantRowView {
    let grant = draft.grant;
    GrantRowView {
        tenant_id: tenant,
        request_use_id: grant.id,
        body_json,
        signature,
        record: GrantRecordView {
            id: grant.id,
            operation_id: grant.operation_id,
            node_id: grant.node_id,
            workload_id: grant.workload_id,
            invocation_id: grant.invocation_id,
            unit: grant.unit,
            account: grant.account,
            resource_id: grant.resource_id,
            recipient_key_id: grant.recipient_key_id,
            policy_version: grant.policy_version as i64,
            approval_reference: grant.approval_reference,
            action: grant.action,
            mode: grant.mode,
            audience: grant.audience,
            issuer_epoch: grant.issuer_epoch as i64,
            issued_at_ms: grant.issued_at_ms as i64,
            expires_at_ms: grant.expires_at_ms as i64,
            status: "issued"@,
            consumed_at_ms: None,
            revoked_at_ms: None,
            created_at_ms: now_ms,
        },
    }
}

/// Whether a draft was turned into the grant that is stored: the body that was signed
/// and the signature are those of its envelope.
pub open spec fn is_stored_as(
    draft: GrantIssueDraftView,
    row: GrantRowView,
    tenant: Seq<char>,
    now_ms: i64,
) -> bool {
    &&& draft.reading is Envelope
    &&& utf8_text(draft.reading->Envelope_0.signed_body) == Some(row.body_json)
    &&& json_member(draft.envelope_json, "sig"@) == Some(row.signature)
    &&& row == stored_grant(draft, tenant, row.body_json, row.signature, now_ms)
}

/// An operation that got its grant.
pub open spec fn with_grant(row: OperationRowView, draft: GrantIssueDraftView) -> OperationRowView {
    OperationRowView {
        record: OperationRecordView {
            status: "granted"@,
            grant_id: Some(draft.grant.id),
            expires_at_ms: draft.grant.expires_at_ms as i64,
            version: (row.record.version + 1) as i64,
            ..row.record
        },
        ..row
    }
}

/// Whether nothing stands in the way of storing and sending the grant of a draft.
pub open spec fn is_storable(state: StoreView, draft: GrantIssueDraftView, more: int) -> bool {
    &&& draft.reading is Envelope
    &&& utf8_text(draft.reading->Envelope_0.signed_body) is Some
    &&& json_member(draft.envelope_json, "sig"@) is Some
    &&& draft.grant.policy_version <= i64::MAX
    &&& draft.grant.issuer_epoch <= i64::MAX
    &&& draft.grant.issued_at_ms <= i64::MAX
    &&& draft.grant.expires_at_ms <= i64::MAX
    &&& sendable(draft.envelope_json)
    &&& roomy(state.node_inbox, draft.grant.node_id, more)
    &&& forall|g: int|
        0 <= g < state.grants.len() ==> (#[trigger] state.grants[g]).record.id != draft.grant.id
}

/// Whether the drafts of a group from one on were turned into grants: each is stored
/// behind the others and sent behind the others, each operation has got its grant, and
/// nothing else changed.
pub open spec fn issued_from(
    before: StoreView,
    after: StoreView,
    drafts: Seq<GrantIssueDraftView>,
    at: Seq<Places>,
    from: int,
    now_ms: i64,
) -> bool {
    let more = drafts.len() - from;
    &&& after == (StoreView {
        grants: after.grants,
        operations: after.operations,
        node_inbox: after.node_inbox,
        ..before
    })
    &&& after.grants.len() == before.grants.len() + more
    &&& forall|g: int| 0 <= g < before.grants.len()
        ==> #[trigger] after.grants[g] == before.grants[g]
    &&& forall|k: int|
        from <= k < drafts.len() ==> is_stored_as(
            #[trigger] drafts[k],
            after.grants[before.grants.len() + k - from],
            before.tenant_id,
            now_ms,
        )
    &&& after.operations.len() == before.operations.len()
    &&& forall|k: int|
        from <= k < drafts.len() ==> after.operations[at[k].operation] == with_grant(
            before.operations[at[k].operation],
            #[trigger] drafts[k],
        )
    &&& forall|o: int|
        0 <= o < before.operations.len() && (forall|k: int|
            from <= k < drafts.len() ==> (#[trigger] at[k]).operation != o)
            ==> #[trigger] after.operations[o] == before.operations[o]
    &&& after.node_inbox.len() == before.node_inbox.len() + more
    &&& forall|j: int|
        0 <= j < before.node_inbox.len() ==> #[trigger] after.node_inbox[j]
            == before.node_inbox[j]
    &&& forall|k: int|
        from <= k < drafts.len() ==> is_sent_as(
            #[trigger] drafts[k],
            after.node_inbox[before.node_inbox.len() + k - from],
            now_ms,
        )
}

/// Whether the envelope of a draft waits for the node.
pub open spec fn is_sent_as(
    draft: GrantIssueDraftView,
    row: crate::tables::InboxRowView,
    now_ms: i64,
) -> bool {
    row.node_id == draft.grant.node_id && row.envelope_json == draft.envelope_json
        && row.created_at_ms == now_ms && row.delivered_at_ms is None && row.acked_at_ms is None
}

/// Whether the operation of a draft waits for its grant at a place.
spec fn is_awaited(state: StoreView, draft: GrantIssueDraftView, at: Places) -> bool {
    &&& 0 <= at.operation < state.operations.len()
    &&& state.operations[at.operation].record.id == draft.grant.operation_id
    &&& state.operations[at.operation].tenant_id == state.tenant_id
    &&& state.operations[at.operation].record.status == "requested"@
    &&& state.operations[at.operation].record.version == draft.expected_operation_version
}

#[verifier::rlimit(60)]
proof fn lemma_issue_one(
    state: StoreView,
    draft: GrantIssueDraftView,
    at: Places,
    now_ms: i64,
    more: int,
)
    requires
        unique(state.operations, operation_id()),
        is_awaited(state, draft, at),
        1 <= more <= 10,
    ensures
        is_storable(state, draft, more) && draft.expected_operation_version < i64::MAX
            ==> state.issue_grant(draft, now_ms) is Ok,
        state.issue_grant(draft, now_ms) matches Ok(after) ==> {
            &&& draft.grant.expires_at_ms <= i64::MAX
            &&& after == (StoreView {
                grants: after.grants,
                operations: state.operations.update(
                    at.operation,
                    with_grant(state.operations[at.operation], draft),
                ),
                node_inbox: after.node_inbox,
                ..state
            })
            &&& after.grants.len() == state.grants.len() + 1
            &&& after.grants.drop_last() == state.grants
            &&& is_stored_as(draft, after.grants.last(), state.tenant_id, now_ms)
            &&& sent(
                state.node_inbox,
                after.node_inbox,
                draft.grant.node_id,
                draft.envelope_json,
                now_ms,
            )
        },
{
    let hit = requested_at(
        draft.grant.operation_id,
        state.tenant_id,
        draft.expected_operation_version,
    );
    lemma_sole(state.operations, operation_id(), hit, at.operation);
    assert(hit(state.operations[at.operation]));
    let taken = grant_taken(draft.grant.id);
    if is_storable(state, draft, more) {
        assert forall|g: int| 0 <= g < state.grants.len() implies !taken(
            #[trigger] state.grants[g],
        ) by {}
        assert(roomy(state.node_inbox, draft.grant.node_id, 1)) by {
            assert forall|j: int| 0 <= j < state.node_inbox.len() && (
            #[trigger] state.node_inbox[j]).node_id
                == draft.grant.node_id implies state.node_inbox[j].seq + 1 <= i64::MAX by {
                assert(state.node_inbox[j].seq + more <= i64::MAX);
            }
        }
    }
    if let Ok(row) = crate::grants::fresh_grant(draft, state.tenant_id, now_ms) {
        if let Some(operations) = attempted(
            state.operations,
            hit,
            crate::grants::operation_granted(draft.grant.id, row.record.expires_at_ms),
        ) {
            let stored = StoreView { grants: state.grants.push(row), operations, ..state };
            a_document_is_sent_behind_the_others(
                stored,
                draft.grant.node_id,
                draft.envelope_json,
                Some(now_ms),
            );
            assert(stored.grants.drop_last() =~= state.grants);
        }
    }
}

#[verifier::rlimit(80)]
proof fn lemma_issue_group(
    state: StoreView,
    drafts: Seq<GrantIssueDraftView>,
    at: Seq<Places>,
    from: int,
    now_ms: i64,
)
    requires
        unique(state.operations, operation_id()),
        at.len() == drafts.len() <= 10,
        0 <= from <= drafts.len(),
        forall|k: int|
            from <= k < drafts.len() ==> is_awaited(state, #[trigger] drafts[k], at[k]),
        forall|k: int, l: int|
            from <= k < l < drafts.len() ==> (#[trigger] drafts[k]).grant.operation_id != (
            #[trigger] drafts[l]).grant.operation_id,
    ensures
        (forall|k: int|
            from <= k < drafts.len() ==> is_storable(
                state,
                #[trigger] drafts[k],
                drafts.len() - from,
            ) && drafts[k].expected_operation_version < i64::MAX) && (forall|k: int, l: int|
            from <= k < l < drafts.len() ==> (#[trigger] drafts[k]).grant.id != (
            #[trigger] drafts[l]).grant.id) ==> state.issue_group(drafts, from, now_ms) is Ok,
        state.issue_group(drafts, from, now_ms) matches Ok(after) ==> issued_from(
            state,
            after,
            drafts,
            at,
            from,
            now_ms,
        ),
    decreases drafts.len() - from,
{
    if from < drafts.len() {
        let draft = drafts[from];
        let o = at[from].operation;
        let more = drafts.len() - from;
        assert(is_awaited(state, draft, at[from]));
        lemma_issue_one(state, draft, at[from], now_ms, more);
        if let Ok(next) = state.issue_grant(draft, now_ms) {
            lemma_unique_replaced(
                state.operations,
                operation_id(),
                o,
                with_grant(state.operations[o], draft),
            );
            assert forall|k: int| from + 1 <= k < drafts.len() implies is_awaited(
                next,
                #[trigger] drafts[k],
                at[k],
            ) by {
                assert(is_awaited(state, drafts[k], at[k]));
                assert(at[k].operation != o) by {
                    assert(drafts[from].grant.operation_id != drafts[k].grant.operation_id);
                }
            }
            lemma_issue_group(next, drafts, at, from + 1, now_ms);
            let fine = (forall|k: int|
                from <= k < drafts.len() ==> is_storable(state, #[trigger] drafts[k], more)
                    && drafts[k].expected_operation_version < i64::MAX) && (forall|
                k: int,
                l: int,
            |
                from <= k < l < drafts.len() ==> (#[trigger] drafts[k]).grant.id != (
                #[trigger] drafts[l]).grant.id);
            if fine {
                assert forall|k: int| from + 1 <= k < drafts.len() implies is_storable(
                    next,
                    #[trigger] drafts[k],
                    more - 1,
                ) && drafts[k].expected_operation_version < i64::MAX by {
                    assert(is_storable(state, drafts[k], more));
                    assert(is_storable(state, draft, more));
                    assert forall|g: int| 0 <= g < next.grants.len() implies (
                    #[trigger] next.grants[g]).record.id != drafts[k].grant.id by {
                        if g < state.grants.len() {
                            assert(next.grants.drop_last()[g] == state.grants[g]);
                        } else {
                            assert(drafts[from].grant.id != drafts[k].grant.id);
                        }
                    }
                    lemma_still_roomy(
                        state.node_inbox,
                        next.node_inbox,
                        draft.grant.node_id,
                        draft.envelope_json,
                        now_ms,
                        drafts[k].grant.node_id,
                        more,
                    );
                }
            }
            if let Ok(after) = next.issue_group(drafts, from + 1, now_ms) {
                assert(issued_from(next, after, drafts, at, from + 1, now_ms));
                assert forall|g: int| 0 <= g < state.grants.len() implies #[trigger] after.grants[g]
                    == state.grants[g] by {
                    assert(next.grants.drop_last()[g] == state.grants[g]);
                    assert(after.grants[g] == next.grants[g]);
                }
                assert(after.grants[state.grants.len() as int] == next.grants.last());
                assert forall|k: int| from <= k < drafts.len() implies is_stored_as(
                    #[trigger] drafts[k],
                    after.grants[state.grants.len() + k - from],
                    state.tenant_id,
                    now_ms,
                ) by {
                    if k > from {
                        assert(next.grants.len() + k - (from + 1) == state.grants.len() + k - from);
                    }
                }
                assert forall|j: int|
                    0 <= j < state.node_inbox.len() implies #[trigger] after.node_inbox[j]
                    == state.node_inbox[j] by {
                    assert(next.node_inbox.drop_last()[j] == state.node_inbox[j]);
                    assert(after.node_inbox[j] == next.node_inbox[j]);
                }
                assert(after.node_inbox[state.node_inbox.len() as int] == next.node_inbox.last());
                assert forall|k: int| from <= k < drafts.len() implies is_sent_as(
                    #[trigger] drafts[k],
                    after.node_inbox[state.node_inbox.len() + k - from],
                    now_ms,
                ) by {
                    if k > from {
                        assert(next.node_inbox.len() + k - (from + 1) == state.node_inbox.len() + k
                            - from);
                    }
                }
                assert forall|k: int|
                    from <= k < drafts.len() implies after.operations[at[k].operation]
                    == with_grant(
                    state.operations[at[k].operation],
                    #[trigger] drafts[k],
                ) by {
                    if k > from {
                        assert(drafts[from].grant.operation_id != drafts[k].grant.operation_id);
                        assert(is_awaited(state, drafts[k], at[k]));
                        assert(at[k].operation != o);
                    } else {
                        assert forall|l: int| from + 1 <= l < drafts.len() implies (
                        #[trigger] at[l]).operation != o by {
                            assert(is_awaited(state, drafts[l], at[l]));
                            assert(drafts[from].grant.operation_id
                                != drafts[l].grant.operation_id);
                        }
                        assert(after.operations[o] == next.operations[o]);
                    }
                }
                assert forall|p: int| 0 <= p < state.operations.len() && (forall|k: int|
                    from <= k < drafts.len() ==> (#[trigger] at[k]).operation
                        != p) implies #[trigger] after.operations[p] == state.operations[p] by {
                    assert(at[from].operation != p);
                    assert(after.operations[p] == next.operations[p]);
                }
            }
        }
    }
}

proof fn lemma_still_roomy(
    before: Seq<crate::tables::InboxRowView>,
    after: Seq<crate::tables::InboxRowView>,
    node: Seq<char>,
    text: Seq<char>,
    at_ms: i64,
    other: Seq<char>,
    more: int,
)
    requires
        sent(before, after, node, text, at_ms),
        roomy(before, node, more),
        roomy(before, other, more),
        1 <= more <= 10,
    ensures
        roomy(after, other, more - 1),
{
    assert forall|j: int| 0 <= j < after.len() && (#[trigger] after[j]).node_id
        == other implies after[j].seq + (more - 1) <= i64::MAX by {
        if j < before.len() {
            assert(after.drop_last()[j] == before[j]);
            assert(before[j].node_id == other);
        } else if after.last().seq != 1 {
            let k = choose|k: int|
                0 <= k < before.len() && (#[trigger] before[k]).node_id == node && before[k].seq + 1
                    == after.last().seq;
            assert(before[k].seq + more <= i64::MAX);
        }
    }
}

/// Grants for a group of drafts, each for an operation that is found with its workload
/// and its node.
///
/// Where every operation has its grant, the grants are told. Where one is not requested,
/// or has a grant, or is at no version, it is a conflict. Neither changes anything.
/// Where one grant may not be issued now, the group is stale: its operations are
/// denied, and no grant is stored.
/// Otherwise each draft becomes a grant, in order, and the identifiers of the grants
/// are told: an operation that asked for an approval gets its grant where that approval
/// was approved, and only there.
#[verifier::rlimit(80)]
pub proof fn a_group_gets_grants_exactly_where_each_may_be_issued(
    state: StoreView,
    c: ClockReadingView,
    drafts: Seq<GrantIssueDraftView>,
    at: Seq<Places>,
)
    requires
        unique(state.operations, operation_id()),
        unique(state.workloads, workload_id()),
        unique(state.nodes, node_id()),
        unique(state.operation_approvals, operation_approval_id()),
        unique(state.fleet_policies, fleet_policy_tenant()),
        runs(state, c),
        is_a_group(drafts),
        at.len() == drafts.len(),
        forall|k: int| 0 <= k < drafts.len() ==> located(state, #[trigger] drafts[k], at[k]),
    ensures
        ({
            let (after, reply) = state.issue_operation_grants(c, drafts);
            let s = state.checkpoint_clock(c).0;
            let have = forall|k: int|
                0 <= k < drafts.len() ==> state.operations[(
                #[trigger] at[k]).operation].record.status == "granted"@
                    && state.operations[at[k].operation].record.grant_id is Some;
            let wait = forall|k: int|
                0 <= k < drafts.len() ==> state.operations[(
                #[trigger] at[k]).operation].record.status == "requested"@
                    && state.operations[at[k].operation].record.grant_id is None
                    && state.operations[at[k].operation].record.version > 0;
            let may = forall|k: int|
                0 <= k < drafts.len() ==> may_be_issued(
                    state,
                    #[trigger] drafts[k],
                    at[k],
                    c.now_ms,
                );
            let storable = (forall|k: int|
                0 <= k < drafts.len() ==> is_storable(
                    state,
                    #[trigger] drafts[k],
                    drafts.len() as int,
                ) && drafts[k].expected_operation_version < i64::MAX) && (forall|k: int, l: int|
                0 <= k < l < drafts.len() ==> (#[trigger] drafts[k]).grant.id != (
                #[trigger] drafts[l]).grant.id);
            if have {
                after == s && reply == Ok::<GrantIssueOutcomeView, StoreError>(
                    GrantIssueOutcomeView::Existing(
                        Seq::new(
                            drafts.len(),
                            |k: int| state.operations[at[k].operation].record.grant_id->0,
                        ),
                    ),
                )
            } else if !wait {
                after == s && reply == Ok::<GrantIssueOutcomeView, StoreError>(
                    GrantIssueOutcomeView::Conflict,
                )
            } else if !may {
                &&& reply is Err ==> after == s && exists|k: int|
                    0 <= k < drafts.len() && state.operations[(
                    #[trigger] at[k]).operation].record.version == i64::MAX
                &&& reply matches Ok(outcome) ==> outcome is Stale && denied_from(s, after, at, 0)
            } else {
                &&& storable ==> reply is Ok
                &&& reply is Err ==> after == s
                &&& reply matches Ok(outcome) ==> {
                    &&& outcome == GrantIssueOutcomeView::Issued(
                        Seq::new(drafts.len(), |k: int| drafts[k].grant.id),
                    )
                    &&& issued_from(s, after, drafts, at, 0, c.now_ms)
                }
            }
        }),
{
    the_checkpoint_passes_exactly_for_a_trusted_reading(state, c);
    let s = state.checkpoint_clock(c).0;
    lemma_is_a_group(drafts);
    assert forall|k: int| 0 <= k < drafts.len() implies located(s, #[trigger] drafts[k], at[k]) by {
        assert(located(state, drafts[k], at[k]));
    }
    lemma_contexts(s, drafts, at);
    let contexts = s.grant_contexts(drafts);
    let first_at = at[0];
    let without_grant = |context: GrantContextView|
        context.operation.status != "granted"@ || context.operation.grant_id is None;
    let have = forall|k: int|
        0 <= k < drafts.len() ==> state.operations[(#[trigger] at[k]).operation].record.status
            == "granted"@ && state.operations[at[k].operation].record.grant_id is Some;
    assert(any(contexts, without_grant) == !have) by {
        if any(contexts, without_grant) {
            let k = choose|k: int|
                0 <= k < contexts.len() && without_grant(#[trigger] contexts[k]);
            let place = at[k];
            assert(contexts[k] == read_of(s, place));
        }
        if !have {
            let k = choose|k: int|
                0 <= k < drafts.len() && !(state.operations[(
                #[trigger] at[k]).operation].record.status == "granted"@
                    && state.operations[at[k].operation].record.grant_id is Some);
            assert(contexts[k] == read_of(s, at[k]));
            assert(without_grant(contexts[k]));
        }
    }
    if have {
        assert(issued_ids(contexts)->0 =~= Seq::new(
            drafts.len(),
            |k: int| state.operations[at[k].operation].record.grant_id->0,
        ));
    }
    let unready = |context: GrantContextView| !issuable()(context);
    let wait = forall|k: int|
        0 <= k < drafts.len() ==> state.operations[(#[trigger] at[k]).operation].record.status
            == "requested"@ && state.operations[at[k].operation].record.grant_id is None
            && state.operations[at[k].operation].record.version > 0;
    assert(any(contexts, unready) == !wait) by {
        if any(contexts, unready) {
            let k = choose|k: int| 0 <= k < contexts.len() && unready(#[trigger] contexts[k]);
            let place = at[k];
            assert(contexts[k] == read_of(s, place));
        }
        if !wait {
            let k = choose|k: int|
                0 <= k < drafts.len() && !(state.operations[(
                #[trigger] at[k]).operation].record.status == "requested"@
                    && state.operations[at[k].operation].record.grant_id is None
                    && state.operations[at[k].operation].record.version > 0);
            assert(contexts[k] == read_of(s, at[k]));
            assert(unready(contexts[k]));
        }
    }
    let policy = s.current_fleet_policy().version;
    assert forall|k: int| 0 <= k < drafts.len() implies crate::grants::grant_fits(
        #[trigger] drafts[k],
        contexts[k],
        policy,
        s.meta.issuer_epoch,
        c.now_ms,
    ) == may_be_issued(state, drafts[k], at[k], c.now_ms) by {
        assert(located(s, drafts[k], at[k]));
        lemma_context(s, drafts[k], at[k]);
        let operation = state.operations[at[k].operation].record;
        lemma_policy_in_force(s, operation.policy_version);
        assert(policy_in_force(s, operation.policy_version) == policy_in_force(
            state,
            operation.policy_version,
        ));
        assert(approval_allows(s, operation) == approval_allows(state, operation));
        assert(contexts[k] == read_of(s, at[k]));
        lemma_fits(state, drafts[k], read_of(s, at[k]), at[k], policy, c.now_ms);
    }
    let may = forall|k: int|
        0 <= k < drafts.len() ==> may_be_issued(state, #[trigger] drafts[k], at[k], c.now_ms);
    assert(group_fits(drafts, contexts, policy, s.meta.issuer_epoch, c.now_ms) == may);
    if wait && may {
        assert forall|k: int| 0 <= k < drafts.len() implies is_awaited(
            s,
            #[trigger] drafts[k],
            at[k],
        ) by {
            assert(may_be_issued(state, drafts[k], at[k], c.now_ms));
            assert(located(state, drafts[k], at[k]));
        }
        lemma_issue_group(s, drafts, at, 0, c.now_ms);
        assert(draft_ids(drafts) =~= Seq::new(drafts.len(), |k: int| drafts[k].grant.id));
        let storable = (forall|k: int|
            0 <= k < drafts.len() ==> is_storable(
                state,
                #[trigger] drafts[k],
                drafts.len() as int,
            ) && drafts[k].expected_operation_version < i64::MAX) && (forall|k: int, l: int|
            0 <= k < l < drafts.len() ==> (#[trigger] drafts[k]).grant.id != (
            #[trigger] drafts[l]).grant.id);
        if storable {
            assert forall|k: int| 0 <= k < drafts.len() implies is_storable(
                s,
                #[trigger] drafts[k],
                drafts.len() as int,
            ) && drafts[k].expected_operation_version < i64::MAX by {
                assert(is_storable(state, drafts[k], drafts.len() as int));
            }
        }
    } else if wait {
        assert forall|k: int| 0 <= k < contexts.len() implies is_denied_at(
            s,
            #[trigger] contexts[k],
            at[k],
        ) by {
            assert(contexts[k] == read_of(s, at[k]));
            assert(located(s, drafts[k], at[k]));
            let place = at[k];
            assert(state.operations[place.operation].record.status == "requested"@);
        }
        assert forall|k: int, l: int| 0 <= k < l < contexts.len() implies (
        #[trigger] contexts[k]).operation.id != (#[trigger] contexts[l]).operation.id by {
            assert(contexts[k] == read_of(s, at[k]) && contexts[l] == read_of(s, at[l]));
            assert(located(s, drafts[k], at[k]) && located(s, drafts[l], at[l]));
        }
        lemma_deny_group(s, contexts, at, 0);
    }
}

/// Denying a group denies each of its operations, and no other one.
#[verifier::rlimit(40)]
proof fn lemma_deny_group(
    state: StoreView,
    contexts: Seq<GrantContextView>,
    at: Seq<Places>,
    from: int,
)
    requires
        unique(state.operations, operation_id()),
        0 <= from <= contexts.len(),
        at.len() == contexts.len(),
        forall|k: int| from <= k < contexts.len() ==> is_denied_at(
            state,
            #[trigger] contexts[k],
            at[k],
        ),
        forall|k: int, l: int|
            from <= k < l < contexts.len() ==> (#[trigger] contexts[k]).operation.id != (
            #[trigger] contexts[l]).operation.id,
    ensures
        state.deny_group(contexts, from) is Ok <==> forall|k: int|
            from <= k < contexts.len() ==> state.operations[(
            #[trigger] at[k]).operation].record.version < i64::MAX,
        state.deny_group(contexts, from) matches Ok(after) ==> denied_from(
            state,
            after,
            at,
            from,
        ),
    decreases contexts.len() - from,
{
    if from < contexts.len() {
        let o = at[from].operation;
        let hit = requested_operation(contexts[from].operation.id, state.tenant_id);
        let deny = crate::operations::restated("denied"@);
        assert(is_denied_at(state, contexts[from], at[from]));
        lemma_sole(state.operations, operation_id(), hit, o);
        assert(hit(state.operations[o]));
        if state.operations[o].record.version < i64::MAX {
            let next = StoreView {
                operations: state.operations.update(o, deny(state.operations[o])->0),
                ..state
            };
            lemma_unique_replaced(
                state.operations,
                operation_id(),
                o,
                deny(state.operations[o])->0,
            );
            assert forall|k: int| from + 1 <= k < contexts.len() implies is_denied_at(
                next,
                #[trigger] contexts[k],
                at[k],
            ) by {
                assert(is_denied_at(state, contexts[k], at[k]));
                assert(contexts[from].operation.id != contexts[k].operation.id);
            }
            lemma_deny_group(next, contexts, at, from + 1);
            assert forall|k: int| from + 1 <= k < contexts.len() implies (
            #[trigger] at[k]).operation != o by {
                assert(is_denied_at(state, contexts[k], at[k]));
                assert(contexts[from].operation.id != contexts[k].operation.id);
            }
            assert((forall|k: int|
                from + 1 <= k < contexts.len() ==> next.operations[(
                #[trigger] at[k]).operation].record.version < i64::MAX) == (forall|k: int|
                from <= k < contexts.len() ==> state.operations[(
                #[trigger] at[k]).operation].record.version < i64::MAX)) by {
                if forall|k: int|
                    from + 1 <= k < contexts.len() ==> next.operations[(
                    #[trigger] at[k]).operation].record.version < i64::MAX {
                    assert forall|k: int| from <= k < contexts.len() implies state.operations[(
                    #[trigger] at[k]).operation].record.version < i64::MAX by {
                        if k > from {
                            assert(is_denied_at(state, contexts[k], at[k]));
                            assert(at[k].operation != o);
                            assert(next.operations[at[k].operation].record.version < i64::MAX);
                        }
                    }
                } else {
                    let k = choose|k: int|
                        from + 1 <= k < contexts.len() && next.operations[(
                        #[trigger] at[k]).operation].record.version >= i64::MAX;
                    assert(is_denied_at(state, contexts[k], at[k]));
                    assert(at[k].operation != o);
                    assert(state.operations[at[k].operation].record.version >= i64::MAX);
                }
            }
            if let Ok(after) = next.deny_group(contexts, from + 1) {
                assert forall|k: int|
                    from <= k < contexts.len() implies after.operations[(
                #[trigger] at[k]).operation] == denied(state.operations[at[k].operation]) by {
                    if k == from {
                        assert(after.operations[o] == next.operations[o]);
                    } else {
                        assert(is_denied_at(state, contexts[k], at[k]));
                        assert(at[k].operation != o);
                    }
                }
                assert forall|p: int| 0 <= p < state.operations.len() && (forall|k: int|
                    from <= k < contexts.len() ==> (#[trigger] at[k]).operation
                        != p) implies #[trigger] after.operations[p] == state.operations[p] by {
                    assert(at[from].operation != p);
                    assert(after.operations[p] == next.operations[p]);
                }
            }
        } else {
            assert(at[from].operation == o);
        }
    }
}

/// Whether a context is that of a requested operation at a place.
spec fn is_denied_at(state: StoreView, context: GrantContextView, at: Places) -> bool {
    &&& 0 <= at.operation < state.operations.len()
    &&& state.operations[at.operation].record.id == context.operation.id
    &&& state.operations[at.operation].tenant_id == state.tenant_id
    &&& state.operations[at.operation].record.status == "requested"@
}

/// An operation that was denied.
pub open spec fn denied(row: OperationRowView) -> OperationRowView {
    OperationRowView {
        record: OperationRecordView {
            status: "denied"@,
            version: (row.record.version + 1) as i64,
            ..row.record
        },
        ..row
    }
}

/// Whether the operations of a group from one on were denied, and nothing else changed.
pub open spec fn denied_from(
    before: StoreView,
    after: StoreView,
    at: Seq<Places>,
    from: int,
) -> bool {
    &&& after == (StoreView { operations: after.operations, ..before })
    &&& after.operations.len() == before.operations.len()
    &&& forall|k: int|
        from <= k < at.len() ==> after.operations[(#[trigger] at[k]).operation] == denied(
            before.operations[at[k].operation],
        )
    &&& forall|o: int|
        0 <= o < before.operations.len() && (forall|k: int|
            from <= k < at.len() ==> (#[trigger] at[k]).operation != o)
            ==> #[trigger] after.operations[o] == before.operations[o]
}

/// What is compared with what was read is what the rows say.
proof fn lemma_fits(
    state: StoreView,
    draft: GrantIssueDraftView,
    context: GrantContextView,
    at: Places,
    policy: i64,
    now_ms: i64,
)
    requires
        ({
            let operation = state.operations[at.operation].record;
            let workload = state.workloads[at.workload].record;
            let node = state.nodes[at.node];
            &&& context == (GrantContextView {
                operation,
                workload_id: workload.id,
                node_id: workload.node_id,
                unit: workload.unit,
                account: workload.account,
                mode: workload.consumption_mode,
                workload_ceiling: workload.local_ceiling_seconds,
                workload_status: workload.status,
                node_status: node.status,
                recipient_key_version: node.key_version,
                approval_status: context.approval_status,
            })
            &&& (context.approval_status is None || context.approval_status == Some("approved"@))
                == approval_allows(state, operation)
            &&& (policy == operation.policy_version) == policy_in_force(
                state,
                operation.policy_version,
            )
        }),
    ensures
        crate::grants::grant_fits(draft, context, policy, state.meta.issuer_epoch, now_ms)
            == may_be_issued(state, draft, at, now_ms),
{
}

/// Drafts that are no group are refused, and nothing changes: none or more than ten of
/// them, two for one operation, or one that is not signed as a grant for what it says.
pub proof fn drafts_that_are_no_group_are_refused(
    state: StoreView,
    c: ClockReadingView,
    drafts: Seq<GrantIssueDraftView>,
)
    requires
        runs(state, c),
        !is_a_group(drafts),
    ensures
        ({
            let (after, reply) = state.issue_operation_grants(c, drafts);
            &&& after == state.checkpoint_clock(c).0
            &&& reply is Err
            &&& drafts.len() == 0 || drafts.len() > 10 ==> reply == Err::<
                GrantIssueOutcomeView,
                StoreError,
            >(StoreError::InvalidInput("grant group size"))
        }),
{
    crate::moment_laws::lemma_runs(state, c);
    lemma_is_a_group(drafts);
}

} // verus!
