//! What each step of a secret request does to it, by what the request says.

use crate::clock::ClockReadingView;
use crate::error::{DatabaseFault, StoreError};
use crate::keys::request_id;
use crate::moment_laws::{lemma_runs, runs};
use crate::records::{
    CreatedSecretRequestView, EncryptedPayloadView, SecretRequestMetadataView, SecretRequestStatus,
};
use crate::relation_laws::{lemma_none, lemma_sole, unique};
use crate::secrets::{live_request, live_request_in, live_request_of, request_taken};
use crate::store::StoreView;
use crate::tables::SecretRequestRowView;
use vstd::prelude::*;

verus! {

/// What the status of a request is told as.
pub open spec fn status_told(row: SecretRequestRowView) -> Result<
    Option<SecretRequestStatus>,
    StoreError,
> {
    if row.status == "pending"@ {
        Ok(Some(SecretRequestStatus::Pending))
    } else if row.status == "submitted"@ {
        Ok(Some(SecretRequestStatus::Submitted))
    } else {
        Err(StoreError::MissingState("secret request status"))
    }
}

/// A request is opened as it was described: pending, without a payload, from now until
/// its time to live is over. The answer tells that deadline.
pub proof fn a_request_is_opened_as_described(
    state: StoreView,
    c: ClockReadingView,
    id: Seq<char>,
    agent: Seq<char>,
    public_key: Seq<char>,
    description: Seq<char>,
    confirmation_code: Seq<char>,
    ttl_seconds: u64,
)
    requires
        runs(state, c),
    ensures
        ({
            let (after, reply) = state.open_secret_request(
                c,
                id,
                agent,
                public_key,
                description,
                confirmation_code,
                ttl_seconds,
            );
            let s = state.checkpoint_clock(c).0;
            let deadline = c.now_ms + ttl_seconds * 1_000;
            let taken = exists|i: int|
                0 <= i < state.secret_requests.len() && (#[trigger] state.secret_requests[i]).id
                    == id;
            if agent.len() == 0 || public_key.len() == 0 || confirmation_code.len() == 0 {
                after == s && reply == Err::<CreatedSecretRequestView, StoreError>(
                    StoreError::InvalidInput("secret request"),
                )
            } else if ttl_seconds == 0 || ttl_seconds * 1_000 > i64::MAX {
                after == s && reply == Err::<CreatedSecretRequestView, StoreError>(
                    StoreError::InvalidInput("request TTL"),
                )
            } else if deadline > i64::MAX || taken {
                after == s && reply is Err
            } else {
                &&& reply == Ok::<CreatedSecretRequestView, StoreError>(
                    CreatedSecretRequestView { id, expires_at_ms: deadline as i64 },
                )
                &&& after == (StoreView {
                    secret_requests: state.secret_requests.push(
                        SecretRequestRowView {
                            id,
                            tenant_id: state.tenant_id,
                            requester_agent_id: agent,
                            public_key,
                            description,
                            confirmation_code,
                            status: "pending"@,
                            require_user_auth: false,
                            created_at_ms: c.now_ms,
                            expires_at_ms: deadline as i64,
                            submitted_at_ms: None,
                            enc: None,
                            ciphertext: None,
                        },
                    ),
                    ..s
                })
            }
        }),
{
    lemma_runs(state, c);
    let taken = request_taken(id);
    if exists|i: int|
        0 <= i < state.secret_requests.len() && (#[trigger] state.secret_requests[i]).id == id {
        let i = choose|i: int|
            0 <= i < state.secret_requests.len() && (#[trigger] state.secret_requests[i]).id == id;
        assert(taken(state.secret_requests[i]));
    }
}

/// A request is read by its tenant until its deadline: what the browser is shown and
/// its status by anybody who knows the identifier, its status by the agent too, but by
/// no other agent.
pub proof fn a_request_is_read_until_its_deadline(
    state: StoreView,
    c: ClockReadingView,
    id: Seq<char>,
    agent: Seq<char>,
    i: int,
)
    requires
        unique(state.secret_requests, request_id()),
        runs(state, c),
        0 <= i < state.secret_requests.len(),
        state.secret_requests[i].id == id,
    ensures
        ({
            let s = state.checkpoint_clock(c).0;
            let row = state.secret_requests[i];
            let live = row.tenant_id == state.tenant_id && row.expires_at_ms > c.now_ms;
            &&& state.secret_request_metadata(c, id) == (
                s,
                Ok::<Option<SecretRequestMetadataView>, StoreError>(
                    if live {
                        Some(
                            SecretRequestMetadataView {
                                requester_agent_id: row.requester_agent_id,
                                public_key: row.public_key,
                                description: row.description,
                                confirmation_code: row.confirmation_code,
                                expires_at_ms: row.expires_at_ms,
                            },
                        )
                    } else {
                        None
                    },
                ),
            )
            &&& state.browser_request_status(c, id) == (
                s,
                if live {
                    status_told(row)
                } else {
                    Ok(None)
                },
            )
            &&& state.request_status(c, id, agent) == (
                s,
                if live && row.requester_agent_id == agent {
                    status_told(row)
                } else {
                    Ok(None)
                },
            )
        }),
{
    lemma_runs(state, c);
    let t = state.tenant_id;
    let now = Some(c.now_ms);
    lemma_sole(state.secret_requests, request_id(), live_request(id, t, now), i);
    lemma_sole(state.secret_requests, request_id(), live_request_of(id, t, agent, now), i);
}

/// Under an identifier that no request has, nothing is read, deleted, submitted or
/// consumed.
pub proof fn an_absent_request_is_out_of_reach(
    state: StoreView,
    c: ClockReadingView,
    id: Seq<char>,
    agent: Seq<char>,
    enc: Seq<char>,
    ciphertext: Seq<char>,
    ttl_seconds: u64,
)
    requires
        runs(state, c),
        forall|i: int|
            0 <= i < state.secret_requests.len() ==> (#[trigger] state.secret_requests[i]).id != id,
        enc.len() > 0,
        ciphertext.len() > 0,
        0 < ttl_seconds * 1_000 <= i64::MAX,
    ensures
        ({
            let s = state.checkpoint_clock(c).0;
            &&& state.secret_request_metadata(c, id) == (
                s,
                Ok::<Option<SecretRequestMetadataView>, StoreError>(None),
            )
            &&& state.browser_request_status(c, id) == (
                s,
                Ok::<Option<SecretRequestStatus>, StoreError>(None),
            )
            &&& state.request_status(c, id, agent) == (
                s,
                Ok::<Option<SecretRequestStatus>, StoreError>(None),
            )
            &&& state.delete_secret_request(c, id, agent) == (s, Ok::<bool, StoreError>(false))
            &&& state.submit_secret_request(c, id, agent, enc, ciphertext, ttl_seconds) == (
                s,
                Ok::<bool, StoreError>(false),
            )
            &&& state.consume_secret_request(c, id, agent) == (
                s,
                Ok::<Option<EncryptedPayloadView>, StoreError>(None),
            )
        }),
{
    lemma_runs(state, c);
    let t = state.tenant_id;
    let now = Some(c.now_ms);
    let rows = state.secret_requests;
    lemma_none(rows, live_request(id, t, now));
    lemma_none(rows, live_request_of(id, t, agent, now));
    lemma_none(rows, live_request_in(id, t, agent, "pending"@, now));
    lemma_none(rows, live_request_in(id, t, agent, "submitted"@, now));
}

/// A request is deleted by the agent that opened it, and by nobody else, until its
/// deadline.
pub proof fn only_its_agent_deletes_a_request(
    state: StoreView,
    c: ClockReadingView,
    id: Seq<char>,
    agent: Seq<char>,
    i: int,
)
    requires
        unique(state.secret_requests, request_id()),
        runs(state, c),
        0 <= i < state.secret_requests.len(),
        state.secret_requests[i].id == id,
    ensures
        ({
            let (after, reply) = state.delete_secret_request(c, id, agent);
            let s = state.checkpoint_clock(c).0;
            let row = state.secret_requests[i];
            let allowed = row.tenant_id == state.tenant_id && row.expires_at_ms > c.now_ms
                && row.requester_agent_id == agent;
            &&& reply == Ok::<bool, StoreError>(allowed)
            &&& after == (StoreView {
                secret_requests: if allowed {
                    state.secret_requests.remove(i)
                } else {
                    state.secret_requests
                },
                ..s
            })
        }),
{
    lemma_runs(state, c);
    lemma_sole(
        state.secret_requests,
        request_id(),
        live_request_of(id, state.tenant_id, agent, Some(c.now_ms)),
        i,
    );
}

/// A payload is taken for a pending request of an agent, until its deadline. The
/// request then holds that payload, and lives on from now for the time to live of a
/// submission.
pub proof fn a_pending_request_takes_a_payload(
    state: StoreView,
    c: ClockReadingView,
    id: Seq<char>,
    agent: Seq<char>,
    enc: Seq<char>,
    ciphertext: Seq<char>,
    ttl_seconds: u64,
    i: int,
)
    requires
        unique(state.secret_requests, request_id()),
        runs(state, c),
        0 <= i < state.secret_requests.len(),
        state.secret_requests[i].id == id,
    ensures
        ({
            let (after, reply) = state.submit_secret_request(
                c,
                id,
                agent,
                enc,
                ciphertext,
                ttl_seconds,
            );
            let s = state.checkpoint_clock(c).0;
            let row = state.secret_requests[i];
            let deadline = c.now_ms + ttl_seconds * 1_000;
            let allowed = row.tenant_id == state.tenant_id && row.expires_at_ms > c.now_ms
                && row.requester_agent_id == agent && row.status == "pending"@;
            if enc.len() == 0 || ciphertext.len() == 0 {
                after == s && reply == Err::<bool, StoreError>(
                    StoreError::InvalidInput("encrypted payload"),
                )
            } else if ttl_seconds == 0 || ttl_seconds * 1_000 > i64::MAX {
                after == s && reply == Err::<bool, StoreError>(
                    StoreError::InvalidInput("submitted TTL"),
                )
            } else if !allowed {
                after == s && reply == Ok::<bool, StoreError>(false)
            } else if deadline > i64::MAX {
                after == s && reply == Err::<bool, StoreError>(
                    StoreError::Database(DatabaseFault::OutOfRange),
                )
            } else {
                &&& reply == Ok::<bool, StoreError>(true)
                &&& after == (StoreView {
                    secret_requests: state.secret_requests.update(
                        i,
                        SecretRequestRowView {
                            status: "submitted"@,
                            enc: Some(enc),
                            ciphertext: Some(ciphertext),
                            submitted_at_ms: Some(c.now_ms),
                            expires_at_ms: deadline as i64,
                            ..row
                        },
                    ),
                    ..s
                })
            }
        }),
{
    lemma_runs(state, c);
    lemma_sole(
        state.secret_requests,
        request_id(),
        live_request_in(id, state.tenant_id, agent, "pending"@, Some(c.now_ms)),
        i,
    );
}

/// A submitted request is handed out to the agent that opened it, and to nobody else,
/// until its deadline, and is deleted with that.
pub proof fn only_its_agent_consumes_a_submitted_request(
    state: StoreView,
    c: ClockReadingView,
    id: Seq<char>,
    agent: Seq<char>,
    i: int,
)
    requires
        unique(state.secret_requests, request_id()),
        runs(state, c),
        0 <= i < state.secret_requests.len(),
        state.secret_requests[i].id == id,
    ensures
        ({
            let (after, reply) = state.consume_secret_request(c, id, agent);
            let s = state.checkpoint_clock(c).0;
            let row = state.secret_requests[i];
            if row.tenant_id != state.tenant_id || row.expires_at_ms <= c.now_ms
                || row.requester_agent_id != agent || row.status != "submitted"@ {
                after == s && reply == Ok::<Option<EncryptedPayloadView>, StoreError>(None)
            } else if row.enc is None || row.ciphertext is None {
                after == s && reply == Err::<Option<EncryptedPayloadView>, StoreError>(
                    StoreError::Database(DatabaseFault::MissingValue),
                )
            } else {
                &&& reply == Ok::<Option<EncryptedPayloadView>, StoreError>(
                    Some(
                        EncryptedPayloadView { enc: row.enc->0, ciphertext: row.ciphertext->0 },
                    ),
                )
                &&& after == (StoreView {
                    secret_requests: state.secret_requests.remove(i),
                    ..s
                })
            }
        }),
{
    lemma_runs(state, c);
    lemma_sole(
        state.secret_requests,
        request_id(),
        live_request_in(id, state.tenant_id, agent, "submitted"@, Some(c.now_ms)),
        i,
    );
}

} // verus!
