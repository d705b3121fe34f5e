//! Agents and the hashes of their API keys.

use crate::clock::{ClockReading, ClockReadingView};
use crate::error::{DatabaseFault, StoreError};
use crate::ids::{is_uuid, new_uuid};
use crate::records::{
    AdminAgentRecord, AdminAgentRecordView, AgentCredential, AgentCredentialView,
};
use crate::relation::{
    answer, answer_option, answer_rows, any, any_row, attempt_rows, attempted, count, find_row,
    first, option_view, order_rows, ordered, push_row, select_rows, selected, update_rows, updated,
    Duplicate,
};
use crate::store::{Store, StoreView};
use crate::tables::{AgentRow, AgentRowView};
use crate::text::{
    before, byte_count, byte_len, optional_str, own, same, text_before, trim, trimmed,
};
use vstd::prelude::*;

verus! {

/// The length of an agent's key identifier, in bytes.
pub const AGENT_KEY_ID_BYTES: usize = 36;

/// The agent with a key identifier, of any tenant.
pub open spec fn agent_taken(id: Seq<char>) -> spec_fn(AgentRowView) -> bool {
    |row: AgentRowView| row.credential.id == id
}

/// The agent with a key identifier.
pub open spec fn agent_with_key(id: Seq<char>, tenant_id: Seq<char>) -> spec_fn(
    AgentRowView,
) -> bool {
    |row: AgentRowView| row.credential.id == id && row.tenant_id == tenant_id
}

/// The agent with a name of its own choice.
pub open spec fn agent_named(agent_id: Seq<char>, tenant_id: Seq<char>) -> spec_fn(
    AgentRowView,
) -> bool {
    |row: AgentRowView| row.credential.agent_id == agent_id && row.tenant_id == tenant_id
}

/// The active agent, while the time can be told.
pub open spec fn active_agent(agent_id: Seq<char>, tenant_id: Seq<char>, now: Option<i64>) -> spec_fn(
    AgentRowView,
) -> bool {
    |row: AgentRowView|
        agent_named(agent_id, tenant_id)(row) && row.credential.status == "active"@ && now is Some
}

/// The active agent whose key has a version.
pub open spec fn active_agent_at(
    agent_id: Seq<char>,
    tenant_id: Seq<char>,
    key_version: i64,
    now: Option<i64>,
) -> spec_fn(AgentRowView) -> bool {
    |row: AgentRowView|
        active_agent(agent_id, tenant_id, now)(row) && row.credential.key_version == key_version
}

/// An agent with another key, unless its key version is exhausted.
pub open spec fn agent_rekeyed(api_key_hash: Seq<char>, now: Option<i64>) -> spec_fn(
    AgentRowView,
) -> Option<AgentRowView> {
    |row: AgentRowView|
        if row.credential.key_version == i64::MAX {
            None
        } else {
            Some(
                AgentRowView {
                    rotated_at_ms: now,
                    credential: AgentCredentialView {
                        api_key_hash,
                        key_version: (row.credential.key_version + 1) as i64,
                        ..row.credential
                    },
                    ..row
                },
            )
        }
}

/// An agent that is revoked.
pub open spec fn agent_revoked(now: Option<i64>) -> spec_fn(AgentRowView) -> AgentRowView {
    |row: AgentRowView|
        AgentRowView {
            credential: AgentCredentialView {
                status: "revoked"@,
                revoked_at_ms: now,
                ..row.credential
            },
            ..row
        }
}

/// The agents of a tenant.
pub open spec fn agent_of(tenant_id: Seq<char>) -> spec_fn(AgentRowView) -> bool {
    |row: AgentRowView| row.tenant_id == tenant_id
}

/// An agent as operators see it.
pub open spec fn admin_agent() -> spec_fn(AgentRowView) -> AdminAgentRecordView {
    |row: AgentRowView|
        AdminAgentRecordView {
            id: row.credential.id,
            agent_id: row.credential.agent_id,
            name: row.credential.name,
            status: row.credential.status,
            created_at_ms: row.credential.created_at_ms,
            revoked_at_ms: row.credential.revoked_at_ms,
        }
}

/// Agents by their own names, then by key identifiers.
pub open spec fn agent_order() -> spec_fn(AdminAgentRecordView, AdminAgentRecordView) -> bool {
    |a: AdminAgentRecordView, b: AdminAgentRecordView|
        text_before(a.agent_id, b.agent_id) || (a.agent_id == b.agent_id && text_before(
            a.id,
            b.id,
        ))
}

impl StoreView {
    /// An agent as it enters the table.
    pub open spec fn fresh_agent(
        self,
        id: Seq<char>,
        agent_id: Seq<char>,
        name: Seq<char>,
        ring: Option<Seq<char>>,
        api_key_hash: Seq<char>,
        now_ms: i64,
    ) -> AgentRowView {
        AgentRowView {
            tenant_id: self.tenant_id,
            ring,
            rotated_at_ms: None,
            credential: AgentCredentialView {
                id,
                agent_id: trimmed(agent_id),
                name: trimmed(name),
                api_key_hash,
                status: "active"@,
                key_version: 1,
                created_at_ms: now_ms,
                revoked_at_ms: None,
            },
        }
    }

    /// Create an agent under a key identifier.
    pub open spec fn create_agent_with_id(
        self,
        c: ClockReadingView,
        id: Seq<char>,
        agent_id: Seq<char>,
        name: Seq<char>,
        ring: Option<Seq<char>>,
        api_key_hash: Seq<char>,
    ) -> (StoreView, Result<AgentCredentialView, StoreError>) {
        let (s, gate) = self.checkpoint_clock(c);
        match gate {
            Err(error) => (s, Err(error)),
            Ok(()) => if trimmed(agent_id).len() == 0 || trimmed(name).len() == 0
                || api_key_hash.len() == 0 {
                (s, Err(StoreError::InvalidInput("agent")))
            } else if byte_count(id) != AGENT_KEY_ID_BYTES {
                (s, Err(StoreError::InvalidInput("agent id")))
            } else {
                match s.now(c.now_ms) {
                    None => (s, Err(StoreError::Database(DatabaseFault::ClockBehind))),
                    Some(now_ms) => if any(s.agents, agent_taken(id)) {
                        (s, Err(StoreError::Database(DatabaseFault::DuplicateKey)))
                    } else {
                        let row = s.fresh_agent(id, agent_id, name, ring, api_key_hash, now_ms);
                        (StoreView { agents: s.agents.push(row), ..s }, Ok(row.credential))
                    },
                }
            },
        }
    }

    /// Read the agent with a key identifier.
    pub open spec fn agent_by_key_id(self, c: ClockReadingView, id: Seq<char>) -> (
        StoreView,
        Result<Option<AgentCredentialView>, StoreError>,
    ) {
        let (s, gate) = self.checkpoint_clock(c);
        match gate {
            Err(error) => (s, Err(error)),
            Ok(()) => (
                s,
                Ok(
                    match first(s.agents, agent_with_key(id, s.tenant_id)) {
                        Some(row) => Some(row.credential),
                        None => None,
                    },
                ),
            ),
        }
    }

    /// Read the agent with a name of its own choice.
    pub open spec fn agent_by_agent_id(self, c: ClockReadingView, agent_id: Seq<char>) -> (
        StoreView,
        Result<Option<AgentCredentialView>, StoreError>,
    ) {
        let (s, gate) = self.checkpoint_clock(c);
        match gate {
            Err(error) => (s, Err(error)),
            Ok(()) => (
                s,
                Ok(
                    match first(s.agents, agent_named(agent_id, s.tenant_id)) {
                        Some(row) => Some(row.credential),
                        None => None,
                    },
                ),
            ),
        }
    }

    /// List the agents of the tenant.
    pub open spec fn list_admin_agents(self, c: ClockReadingView) -> (
        StoreView,
        Result<Seq<AdminAgentRecordView>, StoreError>,
    ) {
        let (s, gate) = self.checkpoint_clock(c);
        match gate {
            Err(error) => (s, Err(error)),
            Ok(()) => (
                s,
                Ok(
                    ordered(
                        selected(s.agents, agent_of(s.tenant_id), admin_agent()),
                        agent_order(),
                    ),
                ),
            ),
        }
    }

    /// Give an active agent another key, where its key has the expected version.
    pub open spec fn replace_agent_api_key_hash(
        self,
        c: ClockReadingView,
        agent_id: Seq<char>,
        expected_key_version: i64,
        api_key_hash: Seq<char>,
    ) -> (StoreView, Result<Option<AgentCredentialView>, StoreError>) {
        let (s, gate) = self.checkpoint_clock(c);
        let now = s.now(c.now_ms);
        let hit = active_agent_at(agent_id, s.tenant_id, expected_key_version, now);
        let change = agent_rekeyed(api_key_hash, now);
        match gate {
            Err(error) => (s, Err(error)),
            Ok(()) => match attempted(s.agents, hit, change) {
                None => (s, Err(StoreError::Database(DatabaseFault::OutOfRange))),
                Some(agents) => (
                    StoreView { agents, ..s },
                    Ok(
                        match first(s.agents, hit) {
                            Some(row) => Some(change(row)->0.credential),
                            None => None,
                        },
                    ),
                ),
            },
        }
    }

    /// Revoke an active agent.
    pub open spec fn revoke_agent(self, c: ClockReadingView, agent_id: Seq<char>) -> (
        StoreView,
        Result<bool, StoreError>,
    ) {
        let (s, gate) = self.checkpoint_clock(c);
        let now = s.now(c.now_ms);
        let hit = active_agent(agent_id, s.tenant_id, now);
        match gate {
            Err(error) => (s, Err(error)),
            Ok(()) => (
                StoreView { agents: updated(s.agents, hit, agent_revoked(now)), ..s },
                Ok(count(s.agents, hit) == 1),
            ),
        }
    }
}

fn rekey(row: &AgentRow, api_key_hash: &str, now: Option<i64>) -> (next: Option<AgentRow>)
    ensures
        option_view(next) == agent_rekeyed(api_key_hash@, now)(row@),
{
    if row.credential.key_version == i64::MAX {
        return None;
    }
    let mut next = row.duplicate();
    next.rotated_at_ms = now;
    next.credential.api_key_hash = api_key_hash.to_owned();
    next.credential.key_version = row.credential.key_version + 1;
    Some(next)
}

impl Store {
    /// Create an agent under a fresh key identifier.
    pub fn create_agent(
        &mut self,
        reading: &ClockReading,
        agent_id: &str,
        name: &str,
        ring: Option<&str>,
        api_key_hash: &str,
    ) -> (reply: Result<AgentCredential, StoreError>)
        ensures
            exists|id: Seq<char>| #[trigger] is_uuid(id) && (final(self)@, answer(reply)) == old(
                self,
            )@.create_agent_with_id(
                reading@,
                id,
                agent_id@,
                name@,
                optional_str(ring),
                api_key_hash@,
            ),
    {
        let id = new_uuid();
        self.create_agent_with_id(reading, &id, agent_id, name, ring, api_key_hash)
    }

    /// Create an agent under a key identifier.
    pub fn create_agent_with_id(
        &mut self,
        reading: &ClockReading,
        id: &str,
        agent_id: &str,
        name: &str,
        ring: Option<&str>,
        api_key_hash: &str,
    ) -> (reply: Result<AgentCredential, StoreError>)
        ensures
            (final(self)@, answer(reply)) == old(self)@.create_agent_with_id(
                reading@,
                id@,
                agent_id@,
                name@,
                optional_str(ring),
                api_key_hash@,
            ),
    {
        if let Err(error) = self.checkpoint_clock(reading) {
            return Err(error);
        }
        let agent_id = trim(agent_id);
        let name = trim(name);
        if agent_id.is_empty() || name.is_empty() || api_key_hash.is_empty() {
            return Err(StoreError::InvalidInput("agent"));
        }
        if byte_len(id) != AGENT_KEY_ID_BYTES {
            return Err(StoreError::InvalidInput("agent id"));
        }
        let now_ms: i64 = match self.now(reading.now_ms) {
            Some(now_ms) => now_ms,
            None => {
                return Err(StoreError::Database(DatabaseFault::ClockBehind));
            },
        };
        let taken = any_row(
            &self.agents,
            |row: &AgentRow| -> (b: bool)
                ensures b == agent_taken(id@)(row@)
                { same(&row.credential.id, id) },
            Ghost(agent_taken(id@)),
        );
        if taken {
            return Err(StoreError::Database(DatabaseFault::DuplicateKey));
        }
        let credential = AgentCredential {
            id: id.to_owned(),
            agent_id: agent_id.to_owned(),
            name: name.to_owned(),
            api_key_hash: api_key_hash.to_owned(),
            status: "active".to_owned(),
            key_version: 1,
            created_at_ms: now_ms,
            revoked_at_ms: None,
        };
        let row = AgentRow {
            tenant_id: self.tenant_id.clone(),
            ring: own(ring),
            rotated_at_ms: None,
            credential: credential.duplicate(),
        };
        push_row(&mut self.agents, row);
        Ok(credential)
    }

    /// Read the agent with a key identifier.
    pub fn agent_by_key_id(&mut self, reading: &ClockReading, id: &str) -> (reply: Result<
        Option<AgentCredential>,
        StoreError,
    >)
        ensures
            (final(self)@, answer_option(reply)) == old(self)@.agent_by_key_id(reading@, id@),
    {
        if let Err(error) = self.checkpoint_clock(reading) {
            return Err(error);
        }
        let tenant_id = &self.tenant_id;
        let found = find_row(
            &self.agents,
            |row: &AgentRow| -> (b: bool)
                ensures b == agent_with_key(id@, tenant_id@)(row@)
                { same(&row.credential.id, id) && same(&row.tenant_id, tenant_id) },
            Ghost(agent_with_key(id@, tenant_id@)),
        );
        match found {
            Some(at) => Ok(Some(self.agents[at].credential.duplicate())),
            None => Ok(None),
        }
    }

    /// Read the agent with a name of its own choice.
    pub fn agent_by_agent_id(&mut self, reading: &ClockReading, agent_id: &str) -> (reply: Result<
        Option<AgentCredential>,
        StoreError,
    >)
        ensures
            (final(self)@, answer_option(reply)) == old(self)@.agent_by_agent_id(
                reading@,
                agent_id@,
            ),
    {
        if let Err(error) = self.checkpoint_clock(reading) {
            return Err(error);
        }
        let tenant_id = &self.tenant_id;
        let found = find_row(
            &self.agents,
            |row: &AgentRow| -> (b: bool)
                ensures b == agent_named(agent_id@, tenant_id@)(row@)
                { same(&row.credential.agent_id, agent_id) && same(&row.tenant_id, tenant_id) },
            Ghost(agent_named(agent_id@, tenant_id@)),
        );
        match found {
            Some(at) => Ok(Some(self.agents[at].credential.duplicate())),
            None => Ok(None),
        }
    }

    /// List the agents of the tenant.
    pub fn list_admin_agents(&mut self, reading: &ClockReading) -> (reply: Result<
        Vec<AdminAgentRecord>,
        StoreError,
    >)
        ensures
            (final(self)@, answer_rows(reply)) == old(self)@.list_admin_agents(reading@),
    {
        if let Err(error) = self.checkpoint_clock(reading) {
            return Err(error);
        }
        let tenant_id = &self.tenant_id;
        let found = select_rows(
            &self.agents,
            |row: &AgentRow| -> (b: bool)
                ensures b == agent_of(tenant_id@)(row@)
                { same(&row.tenant_id, tenant_id) },
            |row: &AgentRow| -> (record: AdminAgentRecord)
                ensures record@ == admin_agent()(row@)
                {
                    AdminAgentRecord {
                        id: row.credential.id.clone(),
                        agent_id: row.credential.agent_id.clone(),
                        name: row.credential.name.clone(),
                        status: row.credential.status.clone(),
                        created_at_ms: row.credential.created_at_ms,
                        revoked_at_ms: row.credential.revoked_at_ms,
                    }
                },
            Ghost(agent_of(tenant_id@)),
            Ghost(admin_agent()),
        );
        Ok(
            order_rows(
                found,
                |a: &AdminAgentRecord, b: &AdminAgentRecord| -> (less: bool)
                    ensures less == agent_order()(a@, b@)
                    {
                        before(&a.agent_id, &b.agent_id) || (same(&a.agent_id, &b.agent_id)
                            && before(&a.id, &b.id))
                    },
                Ghost(agent_order()),
            ),
        )
    }

    /// Give an active agent another key, where its key has the expected version.
    pub fn replace_agent_api_key_hash(
        &mut self,
        reading: &ClockReading,
        agent_id: &str,
        expected_key_version: i64,
        api_key_hash: &str,
    ) -> (reply: Result<Option<AgentCredential>, StoreError>)
        ensures
            (final(self)@, answer_option(reply)) == old(self)@.replace_agent_api_key_hash(
                reading@,
                agent_id@,
                expected_key_version,
                api_key_hash@,
            ),
    {
        if let Err(error) = self.checkpoint_clock(reading) {
            return Err(error);
        }
        let now = self.now(reading.now_ms);
        let tenant_id = &self.tenant_id;
        let ghost hit = active_agent_at(agent_id@, tenant_id@, expected_key_version, now);
        let ghost change = agent_rekeyed(api_key_hash@, now);
        let found = find_row(
            &self.agents,
            |row: &AgentRow| -> (b: bool)
                ensures b == hit(row@)
                {
                    same(&row.credential.agent_id, agent_id) && same(&row.tenant_id, tenant_id)
                        && same(&row.credential.status, "active") && now.is_some()
                        && row.credential.key_version == expected_key_version
                },
            Ghost(hit),
        );
        let rekeyed = match found {
            Some(at) => match rekey(&self.agents[at], api_key_hash, now) {
                Some(row) => Some(row.credential),
                None => None,
            },
            None => None,
        };
        let changed = attempt_rows(
            &mut self.agents,
            |row: &AgentRow| -> (b: bool)
                ensures b == hit(row@)
                {
                    same(&row.credential.agent_id, agent_id) && same(&row.tenant_id, tenant_id)
                        && same(&row.credential.status, "active") && now.is_some()
                        && row.credential.key_version == expected_key_version
                },
            |row: &AgentRow| -> (next: Option<AgentRow>)
                ensures option_view(next) == change(row@)
                { rekey(row, api_key_hash, now) },
            Ghost(hit),
            Ghost(change),
        );
        match changed {
            None => Err(StoreError::Database(DatabaseFault::OutOfRange)),
            Some(_) => Ok(rekeyed),
        }
    }

    /// Revoke an active agent.
    pub fn revoke_agent(&mut self, reading: &ClockReading, agent_id: &str) -> (reply: Result<
        bool,
        StoreError,
    >)
        ensures
            (final(self)@, reply) == old(self)@.revoke_agent(reading@, agent_id@),
    {
        if let Err(error) = self.checkpoint_clock(reading) {
            return Err(error);
        }
        let now = self.now(reading.now_ms);
        let tenant_id = &self.tenant_id;
        let revoked: usize = update_rows(
            &mut self.agents,
            |row: &AgentRow| -> (b: bool)
                ensures b == active_agent(agent_id@, tenant_id@, now)(row@)
                {
                    same(&row.credential.agent_id, agent_id) && same(&row.tenant_id, tenant_id)
                        && same(&row.credential.status, "active") && now.is_some()
                },
            |row: &AgentRow| -> (next: AgentRow)
                ensures next@ == agent_revoked(now)(row@)
                {
                    let mut next = row.duplicate();
                    next.credential.status = "revoked".to_owned();
                    next.credential.revoked_at_ms = now;
                    next
                },
            Ghost(active_agent(agent_id@, tenant_id@, now)),
            Ghost(agent_revoked(now)),
        );
        Ok(revoked == 1)
    }
}

} // verus!
