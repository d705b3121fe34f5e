//! What lapsed is out of reach: each read and each change looks at the deadline
//! itself.

use crate::approvals::{decidable, live_approval, replay_of};
use crate::authorization::operation_approval_with;
use crate::clock::ClockReadingView;
use crate::error::StoreError;
use crate::exchanges::{live_exchange, reservable, reserved_by, retrievable, revocable};
use crate::fleet::{
    enrollment_restated, enrollment_submitted, issued_enrollment, open_enrollment, submittable,
    submitted_enrollment, Submission,
};
use crate::limits::{milliseconds, unexpired};
use crate::node_channel::{answerable_challenge, answered_challenge};
use crate::operators::usable_token;
use crate::records::{
    ApprovalDecisionOutcomeView, NodeChallengeView, NodeRecordView, OperationDecisionOutcomeView,
};
use crate::relation::{any, first, lemma_any_counted, lemma_updated_none};
use crate::relation_laws::lemma_first_satisfies;
use crate::secret_laws::{finds_nothing, lemma_without_none};
use crate::secrets::{live_request, live_request_in, live_request_of, request_submitted};
use crate::sessions::{
    owned_session, refreshed_by, session_seen, usable_refresh, usable_session,
};
use crate::store::StoreView;
use crate::tables::{EnrollmentRowView, SecretRequestRowView};
use vstd::prelude::*;

verus! {

/// Whether an operation changed nothing and gave nothing: it failed, or found
/// nothing.
pub open spec fn in_vain<T>(
    outcome: (StoreView, Result<Option<T>, StoreError>),
    state: StoreView,
) -> bool {
    outcome.0 == state && (outcome.1 is Err || outcome.1->Ok_0 is None)
}

/// Whether an operation changed nothing and says so: it failed, or answered no.
pub open spec fn denied(outcome: (StoreView, Result<bool, StoreError>), state: StoreView) -> bool {
    outcome.0 == state && (outcome.1 is Err || !outcome.1->Ok_0)
}

/// A secret request whose deadline has passed is out of reach: nothing of it is
/// read, and it is neither submitted to, consumed nor deleted.
pub proof fn a_lapsed_request_is_out_of_reach(
    state: StoreView,
    c: ClockReadingView,
    id: Seq<char>,
    agent_id: Seq<char>,
    enc: Seq<char>,
    ciphertext: Seq<char>,
    ttl_seconds: u64,
)
    requires
        state.checkpoint_clock(c).1 is Ok,
        !any(
            state.secret_requests,
            live_request(id, state.tenant_id, state.checkpoint_clock(c).0.now(c.now_ms)),
        ),
    ensures
        ({
            let s = state.checkpoint_clock(c).0;
            &&& finds_nothing(state.secret_request_metadata(c, id).1)
            &&& finds_nothing(state.browser_request_status(c, id).1)
            &&& finds_nothing(state.request_status(c, id, agent_id).1)
            &&& in_vain(state.consume_secret_request(c, id, agent_id), s)
            &&& denied(state.delete_secret_request(c, id, agent_id), s)
            &&& denied(
                state.submit_secret_request(c, id, agent_id, enc, ciphertext, ttl_seconds),
                s,
            )
        }),
{
    let rows = state.secret_requests;
    let t = state.tenant_id;
    let now = state.checkpoint_clock(c).0.now(c.now_ms);
    let of = live_request_of(id, t, agent_id, now);
    let pending = live_request_in(id, t, agent_id, "pending"@, now);
    let submitted = live_request_in(id, t, agent_id, "submitted"@, now);
    lemma_any_counted(rows, live_request(id, t, now));
    assert(!any(rows, of));
    assert(!any(rows, pending));
    assert(!any(rows, submitted));
    lemma_any_counted(rows, of);
    lemma_any_counted(rows, submitted);
    lemma_without_none(rows, of);
    if milliseconds(ttl_seconds) is Some {
        let change = request_submitted(enc, ciphertext, now, milliseconds(ttl_seconds)->0);
        lemma_updated_none(rows, pending, |v: SecretRequestRowView| change(v)->0);
    }
}

/// An exchange whose deadline has passed is out of reach: it is neither read,
/// reserved, submitted to, consumed nor revoked.
pub proof fn a_lapsed_exchange_is_out_of_reach(
    state: StoreView,
    c: ClockReadingView,
    follow_up: ClockReadingView,
    id: Seq<char>,
    agent_id: Seq<char>,
    requester_id: Option<Seq<char>>,
    enc: Seq<char>,
    ciphertext: Seq<char>,
    ttl_seconds: u64,
)
    requires
        state.checkpoint_clock(c).1 is Ok,
        !any(
            state.exchanges,
            live_exchange(id, state.tenant_id, state.checkpoint_clock(c).0.now(c.now_ms)),
        ),
    ensures
        ({
            let s = state.checkpoint_clock(c).0;
            &&& finds_nothing(state.get_exchange(c, id).1)
            &&& in_vain(state.reserve_exchange(c, follow_up, id, agent_id), s)
            &&& in_vain(
                state.submit_exchange(c, follow_up, id, agent_id, enc, ciphertext, ttl_seconds),
                s,
            )
            &&& in_vain(state.consume_exchange(c, id, agent_id), s)
            &&& in_vain(state.revoke_exchange(c, follow_up, id, requester_id, ttl_seconds), s)
        }),
{
    let rows = state.exchanges;
    let t = state.tenant_id;
    let now = state.checkpoint_clock(c).0.now(c.now_ms);
    lemma_any_counted(rows, live_exchange(id, t, now));
    assert(!any(rows, reservable(id, t, agent_id, now)));
    let held = reserved_by(id, t, agent_id, now);
    assert(!any(rows, held));
    let ready = retrievable(id, t, agent_id, now);
    assert(!any(rows, ready));
    let open = revocable(id, t, requester_id, now);
    assert(!any(rows, open));
    lemma_any_counted(rows, ready);
    lemma_without_none(rows, ready);
}

/// An approval whose deadline has passed is out of reach: it is neither read nor
/// decided. A decision under a key that was not used before finds nothing.
pub proof fn a_lapsed_approval_is_out_of_reach(
    state: StoreView,
    c: ClockReadingView,
    follow_up: ClockReadingView,
    reference: Seq<char>,
    status: Seq<char>,
    actor_id: Seq<char>,
    key_hash: Seq<char>,
    digest: Option<Seq<u8>>,
    audit_id: Seq<char>,
)
    requires
        state.checkpoint_clock(c).1 is Ok,
        !any(
            state.approvals,
            live_approval(reference, state.tenant_id, state.checkpoint_clock(c).0.now(c.now_ms)),
        ),
    ensures
        ({
            let s = state.checkpoint_clock(c).0;
            let once = state.decide_approval_once(
                c,
                reference,
                status,
                actor_id,
                key_hash,
                digest,
                audit_id,
            );
            &&& finds_nothing(state.get_approval(c, reference).1)
            &&& in_vain(state.decide_approval(c, follow_up, reference, status, actor_id), s)
            &&& once.0 == s
            &&& !any(
                s.idempotency_keys,
                replay_of(s.tenant_id, actor_id, key_hash, s.now(c.now_ms)),
            ) ==> once.1 is Err || once.1->Ok_0 == ApprovalDecisionOutcomeView::NotFound
        }),
{
    let rows = state.approvals;
    let t = state.tenant_id;
    let now = state.checkpoint_clock(c).0.now(c.now_ms);
    lemma_any_counted(rows, live_approval(reference, t, now));
    assert(!any(rows, decidable(reference, t, now)));
    lemma_any_counted(state.idempotency_keys, replay_of(t, actor_id, key_hash, now));
}

/// A bootstrap token that lapsed, or that was used, makes no operator.
pub proof fn a_lapsed_token_makes_no_operator(
    state: StoreView,
    c: ClockReadingView,
    token_hash: Seq<char>,
    id: Seq<char>,
    username: Seq<char>,
    display_name: Seq<char>,
    password_hash: Seq<char>,
)
    requires
        state.checkpoint_clock(c).1 is Ok,
        !any(
            state.bootstrap_tokens,
            usable_token(token_hash, state.checkpoint_clock(c).0.now(c.now_ms)),
        ),
    ensures
        denied(
            state.bootstrap_operator_with_token(
                c,
                token_hash,
                id,
                username,
                display_name,
                password_hash,
            ),
            state.checkpoint_clock(c).0,
        ),
{
}

/// Where no enrollment is issued under an identifier and a token, or its deadline
/// has passed, none is found and none is submitted.
pub proof fn an_enrollment_not_issued_is_out_of_reach(
    state: StoreView,
    c: ClockReadingView,
    id: Seq<char>,
    node_id: Seq<char>,
    token_hash: Seq<char>,
    requested_name: Seq<char>,
    submission: Submission,
)
    requires
        state.checkpoint_clock(c).1 is Ok,
        !any(
            state.enrollment_requests,
            issued_enrollment(
                id,
                state.tenant_id,
                token_hash,
                state.checkpoint_clock(c).0.now(c.now_ms),
            ),
        ),
    ensures
        finds_nothing(state.issued_enrollment_by_token_hash(c, id, token_hash).1),
        denied(
            state.submit_enrollment(c, id, node_id, token_hash, requested_name, submission),
            state.checkpoint_clock(c).0,
        ),
{
    let rows = state.enrollment_requests;
    let t = state.tenant_id;
    let now = state.checkpoint_clock(c).0.now(c.now_ms);
    lemma_any_counted(rows, issued_enrollment(id, t, token_hash, now));
    let hit = submittable(id, node_id, t, token_hash, requested_name, now);
    assert(!any(rows, hit));
    lemma_any_counted(rows, hit);
    let change = enrollment_submitted(submission, now);
    lemma_updated_none(rows, hit, |v: EnrollmentRowView| change(v)->0);
}

/// An enrollment whose deadline has passed is neither found under its token nor
/// submitted, approved or rejected.
pub proof fn a_lapsed_enrollment_is_out_of_reach(
    state: StoreView,
    c: ClockReadingView,
    id: Seq<char>,
    node_id: Seq<char>,
    token_hash: Seq<char>,
    requested_name: Seq<char>,
    submission: Submission,
    version: i64,
    fingerprint: Seq<char>,
)
    requires
        state.checkpoint_clock(c).1 is Ok,
        !any(
            state.enrollment_requests,
            open_enrollment(id, state.checkpoint_clock(c).0.now(c.now_ms)),
        ),
    ensures
        finds_nothing(state.issued_enrollment_by_token_hash(c, id, token_hash).1),
        denied(
            state.submit_enrollment(c, id, node_id, token_hash, requested_name, submission),
            state.checkpoint_clock(c).0,
        ),
        state.approve_enrollment(c, id, version, fingerprint) == (
            state.checkpoint_clock(c).0,
            Ok::<Option<NodeRecordView>, StoreError>(None),
        ),
        state.reject_enrollment(c, id, version, fingerprint) == (
            state.checkpoint_clock(c).0,
            Ok::<bool, StoreError>(false),
        ),
{
    let rows = state.enrollment_requests;
    let t = state.tenant_id;
    let now = state.checkpoint_clock(c).0.now(c.now_ms);
    let open = open_enrollment(id, now);
    assert forall|i: int| 0 <= i < rows.len() implies !open(#[trigger] rows[i]) by {}
    assert(!any(rows, issued_enrollment(id, t, token_hash, now)));
    an_enrollment_not_issued_is_out_of_reach(
        state,
        c,
        id,
        node_id,
        token_hash,
        requested_name,
        submission,
    );
    let hit = submitted_enrollment(id, t, version, fingerprint, now);
    assert(!any(rows, hit));
    lemma_any_counted(rows, hit);
    let change = enrollment_restated("rejected"@);
    lemma_updated_none(rows, hit, |v: EnrollmentRowView| change(v)->0);
}

/// A challenge that lapsed, or that was consumed, is neither found nor answered.
pub proof fn a_lapsed_challenge_is_out_of_reach(
    state: StoreView,
    c: ClockReadingView,
    challenge: NodeChallengeView,
    nonce_hash: Seq<char>,
    session_id: Seq<char>,
    token_hash: Seq<char>,
    expires_at_ms: i64,
)
    requires
        state.checkpoint_clock(c).1 is Ok,
        !any(
            state.node_challenges,
            answerable_challenge(
                challenge.tenant_id,
                challenge.node_id,
                nonce_hash,
                state.checkpoint_clock(c).0.now(c.now_ms),
            ),
        ),
    ensures
        challenge.tenant_id == state.tenant_id ==> finds_nothing(
            state.node_challenge(c, challenge.node_id, nonce_hash).1,
        ),
        denied(
            state.consume_node_challenge(
                c,
                challenge,
                nonce_hash,
                session_id,
                token_hash,
                expires_at_ms,
            ),
            state.checkpoint_clock(c).0,
        ),
{
    let rows = state.node_challenges;
    let now = state.checkpoint_clock(c).0.now(c.now_ms);
    lemma_any_counted(
        rows,
        answerable_challenge(challenge.tenant_id, challenge.node_id, nonce_hash, now),
    );
    let hit = answered_challenge(challenge, nonce_hash, now);
    assert(!any(rows, hit));
    lemma_any_counted(rows, hit);
}

/// A browser session that lapsed, lay idle too long or was revoked is out of
/// reach: it is neither read nor touched, and its refresh hash opens no session.
pub proof fn a_lapsed_session_is_out_of_reach(
    state: StoreView,
    c: ClockReadingView,
    follow_up: ClockReadingView,
    session_id: Seq<char>,
    fresh_id: Seq<char>,
    refresh_hash: Seq<char>,
    new_refresh_hash: Seq<char>,
    ttl_seconds: u64,
)
    requires
        state.checkpoint_clock(c).1 is Ok,
    ensures
        ({
            let s = state.checkpoint_clock(c).0;
            let now = s.now(c.now_ms);
            let rotated = state.rotate_browser_session_to(
                c,
                follow_up,
                fresh_id,
                refresh_hash,
                new_refresh_hash,
                ttl_seconds,
            );
            &&& !any(s.operator_sessions, usable_session(session_id, now)) ==> finds_nothing(
                state.browser_session_by_id(c, session_id).1,
            )
            &&& !any(s.operator_sessions, usable_session(session_id, now)) ==> denied(
                state.touch_browser_session(c, session_id),
                s,
            )
            &&& !any(s.operator_sessions, usable_refresh(refresh_hash, now)) ==> finds_nothing(
                state.browser_session_by_refresh_hash(c, refresh_hash).1,
            )
            &&& !any(s.operator_sessions, usable_refresh(refresh_hash, now)) ==> (rotated.1 is Err
                || rotated.1->Ok_0 is None) && rotated.0.operator_sessions.len()
                == s.operator_sessions.len()
        }),
{
    let s = state.checkpoint_clock(c).0;
    let now = s.now(c.now_ms);
    let rows = s.operator_sessions;
    let touched = owned_session(s.operators, usable_session(session_id, now), true);
    let refreshed = owned_session(s.operators, usable_refresh(refresh_hash, now), true);
    lemma_any_counted(rows, touched);
    lemma_any_counted(rows, refreshed);
    lemma_updated_none(rows, touched, session_seen(now));
    lemma_first_satisfies(rows, refreshed_by(refresh_hash));
    if !any(rows, usable_session(session_id, now)) {
        assert(!any(rows, touched));
    }
    if !any(rows, usable_refresh(refresh_hash, now)) {
        assert(!any(rows, refreshed));
        match first(rows, refreshed_by(refresh_hash)) {
            None => {},
            Some(row) => {
                let i = choose|i: int| 0 <= i < rows.len() && rows[i] == row;
                assert(!usable_refresh(refresh_hash, now)(rows[i]));
            },
        }
    }
}

/// A group of operations whose approval lapsed is not decided: no decision takes
/// effect on it.
pub proof fn a_lapsed_group_is_not_decided(
    state: StoreView,
    c: ClockReadingView,
    id: Seq<char>,
    expected_version: i64,
    expected_ids: Seq<Seq<char>>,
    decision: Seq<char>,
    decided_by: Seq<char>,
    decision_key_hash: Seq<char>,
)
    requires
        state.checkpoint_clock(c).1 is Ok,
        match first(
            state.operation_approvals,
            operation_approval_with(id, state.tenant_id),
        ) {
            None => true,
            Some(row) => !unexpired(
                row.record.expires_at_ms,
                state.checkpoint_clock(c).0.now(c.now_ms),
            ),
        },
    ensures
        !(state.decide_operation_approval(
            c,
            id,
            expected_version,
            expected_ids,
            decision,
            decided_by,
            decision_key_hash,
        ).1 matches Ok(OperationDecisionOutcomeView::Applied(_))),
{
}

} // verus!
