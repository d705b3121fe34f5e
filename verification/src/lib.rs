//! Tenant-scoped controller state and its verified transitions.

pub mod agent_laws;
pub mod agents;
pub mod approval_laws;
pub mod approvals;
pub mod approving_laws;
pub mod audit;
pub mod authority_laws;
pub mod authorization;
pub mod authorization_laws;
pub mod channel_laws;
pub mod clock;
pub mod clock_laws;
pub mod decision_laws;
pub mod delivery_laws;
pub mod document_laws;
pub mod documents;
pub mod enrollment_laws;
pub mod error;
pub mod exchange_laws;
pub mod exchanges;
pub mod expiry_laws;
pub mod fencing_laws;
pub mod fleet;
pub mod grant_laws;
pub mod grants;
pub mod ids;
pub mod inbox;
pub mod inbox_laws;
pub mod issue_laws;
pub mod journal_laws;
pub mod json;
pub mod key_laws;
pub mod keys;
pub mod limits;
pub mod listing_laws;
pub mod moment_laws;
pub mod node_authority;
pub mod node_channel;
pub mod node_laws;
pub mod operations;
pub mod operator_laws;
pub mod operators;
pub mod paging;
pub mod paging_laws;
pub mod policy;
pub mod policy_laws;
pub mod records;
pub mod relation;
pub mod relation_laws;
pub mod request_laws;
pub mod retention;
pub mod retention_laws;
pub mod rotating_laws;
pub mod schema;
pub mod secret_laws;
pub mod secrets;
pub mod sending_laws;
pub mod sessions;
pub mod signing_in_laws;
pub mod staff_laws;
pub mod starting_laws;
pub mod store;
pub mod sweeping_laws;
pub mod tables;
pub mod tenant_laws;
pub mod text;
pub mod withdrawal_laws;
pub mod workload_laws;
pub mod workloads;
pub mod writing_laws;
