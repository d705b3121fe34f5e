//! What each step of an agent does to it, by what the agent says.

use crate::agents::{active_agent, active_agent_at, agent_named, agent_taken, agent_with_key};
use crate::clock::ClockReadingView;
use crate::error::{DatabaseFault, StoreError};
use crate::keys::agent_key_id;
use crate::moment_laws::{lemma_runs, runs};
use crate::records::AgentCredentialView;
use crate::relation::any;
use crate::relation_laws::{lemma_at_most_one, lemma_none, lemma_sole, unique};
use crate::store::StoreView;
use crate::tables::AgentRowView;
use crate::text::{byte_count, trimmed};
use vstd::prelude::*;

verus! {

/// An agent is created as it was described, under trimmed names: active, at its first
/// key, from now. Where a name or the hash of the key is empty, or the key identifier
/// does not have 36 bytes or is taken, nothing changes.
pub proof fn an_agent_is_created_as_described(
    state: StoreView,
    c: ClockReadingView,
    id: Seq<char>,
    agent_id: Seq<char>,
    name: Seq<char>,
    ring: Option<Seq<char>>,
    api_key_hash: Seq<char>,
)
    requires
        runs(state, c),
    ensures
        ({
            let (after, reply) = state.create_agent_with_id(
                c,
                id,
                agent_id,
                name,
                ring,
                api_key_hash,
            );
            let s = state.checkpoint_clock(c).0;
            let taken = exists|q: int|
                0 <= q < state.agents.len() && (#[trigger] state.agents[q]).credential.id == id;
            let credential = AgentCredentialView {
                id,
                agent_id: trimmed(agent_id),
                name: trimmed(name),
                api_key_hash,
                status: "active"@,
                key_version: 1,
                created_at_ms: c.now_ms,
                revoked_at_ms: None,
            };
            if trimmed(agent_id).len() == 0 || trimmed(name).len() == 0 || api_key_hash.len()
                == 0 {
                after == s && reply == Err::<AgentCredentialView, StoreError>(
                    StoreError::InvalidInput("agent"),
                )
            } else if byte_count(id) != 36 {
                after == s && reply == Err::<AgentCredentialView, StoreError>(
                    StoreError::InvalidInput("agent id"),
                )
            } else if taken {
                after == s && reply == Err::<AgentCredentialView, StoreError>(
                    StoreError::Database(DatabaseFault::DuplicateKey),
                )
            } else {
                &&& reply == Ok::<AgentCredentialView, StoreError>(credential)
                &&& after == (StoreView {
                    agents: state.agents.push(
                        AgentRowView {
                            tenant_id: state.tenant_id,
                            ring,
                            rotated_at_ms: None,
                            credential,
                        },
                    ),
                    ..s
                })
            }
        }),
{
    lemma_runs(state, c);
    assert({
        let taken = agent_taken(id);
        any(state.agents, taken) == (exists|q: int|
            0 <= q < state.agents.len() && (#[trigger] state.agents[q]).credential.id == id)
    }) by {
        let taken = agent_taken(id);
        if exists|q: int|
            0 <= q < state.agents.len() && (#[trigger] state.agents[q]).credential.id == id {
            let q = choose|q: int|
                0 <= q < state.agents.len() && (#[trigger] state.agents[q]).credential.id == id;
            assert(taken(state.agents[q]));
        }
        if any(state.agents, taken) {
            let q = choose|q: int| 0 <= q < state.agents.len() && taken(#[trigger] state.agents[q]);
            assert(state.agents[q].credential.id == id);
        }
    };
}

/// An agent is read by its tenant under its key identifier, as it is stored.
pub proof fn an_agent_is_read_under_its_key(
    state: StoreView,
    c: ClockReadingView,
    id: Seq<char>,
    i: int,
)
    requires
        unique(state.agents, agent_key_id()),
        runs(state, c),
        0 <= i < state.agents.len(),
        state.agents[i].credential.id == id,
    ensures
        state.agent_by_key_id(c, id) == (
            state.checkpoint_clock(c).0,
            Ok::<Option<AgentCredentialView>, StoreError>(
                if state.agents[i].tenant_id == state.tenant_id {
                    Some(state.agents[i].credential)
                } else {
                    None
                },
            ),
        ),
{
    lemma_runs(state, c);
    lemma_sole(state.agents, agent_key_id(), agent_with_key(id, state.tenant_id), i);
}

/// Whether an agent is the only one of the tenant under its name.
pub open spec fn is_the_agent(state: StoreView, agent_id: Seq<char>, i: int) -> bool {
    &&& 0 <= i < state.agents.len()
    &&& state.agents[i].credential.agent_id == agent_id
    &&& state.agents[i].tenant_id == state.tenant_id
    &&& forall|j: int|
        0 <= j < state.agents.len() && j != i ==> (
        #[trigger] state.agents[j]).credential.agent_id != agent_id || state.agents[j].tenant_id
            != state.tenant_id
}

/// An agent is read under its name, whatever its status is. It gets another key where
/// it is active at the key that was shown: the key version is one higher, and the rest
/// is as before. It is revoked, from now, where it is active. Nothing else changes.
pub proof fn an_agent_is_rekeyed_and_revoked_while_it_is_active(
    state: StoreView,
    c: ClockReadingView,
    agent_id: Seq<char>,
    key_version: i64,
    api_key_hash: Seq<char>,
    i: int,
)
    requires
        runs(state, c),
        is_the_agent(state, agent_id, i),
    ensures
        ({
            let s = state.checkpoint_clock(c).0;
            let row = state.agents[i];
            let rekeyed = AgentCredentialView {
                api_key_hash,
                key_version: (row.credential.key_version + 1) as i64,
                ..row.credential
            };
            &&& state.agent_by_agent_id(c, agent_id) == (
                s,
                Ok::<Option<AgentCredentialView>, StoreError>(Some(row.credential)),
            )
            &&& state.replace_agent_api_key_hash(c, agent_id, key_version, api_key_hash)
                == if row.credential.status != "active"@ || row.credential.key_version
                != key_version {
                (s, Ok::<Option<AgentCredentialView>, StoreError>(None))
            } else if key_version == i64::MAX {
                (
                    s,
                    Err::<Option<AgentCredentialView>, StoreError>(
                        StoreError::Database(DatabaseFault::OutOfRange),
                    ),
                )
            } else {
                (
                    StoreView {
                        agents: state.agents.update(
                            i,
                            AgentRowView {
                                rotated_at_ms: Some(c.now_ms),
                                credential: rekeyed,
                                ..row
                            },
                        ),
                        ..s
                    },
                    Ok::<Option<AgentCredentialView>, StoreError>(Some(rekeyed)),
                )
            }
            &&& state.revoke_agent(c, agent_id) == if row.credential.status != "active"@ {
                (s, Ok::<bool, StoreError>(false))
            } else {
                (
                    StoreView {
                        agents: state.agents.update(
                            i,
                            AgentRowView {
                                credential: AgentCredentialView {
                                    status: "revoked"@,
                                    revoked_at_ms: Some(c.now_ms),
                                    ..row.credential
                                },
                                ..row
                            },
                        ),
                        ..s
                    },
                    Ok::<bool, StoreError>(true),
                )
            }
        }),
{
    lemma_runs(state, c);
    let t = state.tenant_id;
    lemma_at_most_one(state.agents, agent_named(agent_id, t), i);
    lemma_at_most_one(
        state.agents,
        active_agent_at(agent_id, t, key_version, Some(c.now_ms)),
        i,
    );
    lemma_at_most_one(state.agents, active_agent(agent_id, t, Some(c.now_ms)), i);
}

/// Under a name that no agent of the tenant has, none is read, rekeyed or revoked.
pub proof fn an_absent_agent_is_out_of_reach(
    state: StoreView,
    c: ClockReadingView,
    agent_id: Seq<char>,
    key_version: i64,
    api_key_hash: Seq<char>,
)
    requires
        runs(state, c),
        forall|j: int|
            0 <= j < state.agents.len() ==> (#[trigger] state.agents[j]).credential.agent_id
                != agent_id || state.agents[j].tenant_id != state.tenant_id,
    ensures
        ({
            let s = state.checkpoint_clock(c).0;
            let nothing = (s, Ok::<Option<AgentCredentialView>, StoreError>(None));
            &&& state.agent_by_agent_id(c, agent_id) == nothing
            &&& state.replace_agent_api_key_hash(c, agent_id, key_version, api_key_hash) == nothing
            &&& state.revoke_agent(c, agent_id) == (s, Ok::<bool, StoreError>(false))
        }),
{
    lemma_runs(state, c);
    let t = state.tenant_id;
    lemma_none(state.agents, agent_named(agent_id, t));
    lemma_none(state.agents, active_agent_at(agent_id, t, key_version, Some(c.now_ms)));
    lemma_none(state.agents, active_agent(agent_id, t, Some(c.now_ms)));
}

} // verus!
