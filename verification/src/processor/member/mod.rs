//! The operations of a member.

pub mod create_member;
pub mod exit_clan;
pub mod join_clan;
pub mod refresh;
pub mod set_voter_weight_record;
pub mod start_leaving_clan;
pub mod update_voter_weight;

pub use create_member::CreateMember;
pub use exit_clan::{ExitClan, ExitClanOutcome};
pub use join_clan::{JoinClan, JoinClanOutcome};
pub use refresh::RefreshOutcome;
pub use set_voter_weight_record::SetVoterWeightRecord;
pub use start_leaving_clan::{StartLeavingClan, StartLeavingClanOutcome};
pub use update_voter_weight::UpdateVoterWeight;
