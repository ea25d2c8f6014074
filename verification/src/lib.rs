//! Voting-weight aggregation for token-governed realms.
//!
//! Token holders (members) pool their voting power into groups (clans).
//! The crate keeps the per-clan and realm-wide weight totals that a
//! governance host reads, and drives the life cycle of joining a clan,
//! splitting weight over several clans, and leaving.

pub mod clock;
pub mod error;
pub mod events;
pub mod host;
pub mod processor;
pub mod program;
pub mod pubkey;
pub mod state;
