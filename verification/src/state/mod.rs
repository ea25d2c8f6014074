//! The accounts that hold the aggregation state.

pub mod account;
pub mod clan;
pub mod clan_vwr;
pub mod ledger;
pub mod max_voter_weight;
pub mod member;
pub mod root;
pub mod roster;
pub mod total;

pub use account::Account;
pub use clan::{Clan, ClanBumps};
pub use clan_vwr::{VoterWeightAction, VoterWeightRecord};
pub use ledger::Ledger;
pub use max_voter_weight::MaxVoterWeightRecord;
pub use member::{ClanChunk, Member, MemberBumps, MembershipEntry, MAX_MEMBERSHIP, MAX_SHARE_BP};
pub use root::{first_boundary_after, Root, RootBumps, VoterWeightReset};
