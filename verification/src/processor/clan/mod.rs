//! The operations on a clan.

pub mod configure_clan;
pub mod create_clan;
pub mod forced_cancel_proposal;
pub mod resize_clan;
pub mod set_clan_owner;
pub mod set_voting_delegate;
pub mod update_clan;
pub mod update_proposal_vote;

pub use configure_clan::ConfigureClan;
pub use create_clan::{CreateClan, CreatedClan};
pub use forced_cancel_proposal::ForcedCancelProposal;
pub use resize_clan::ResizeClan;
pub use set_clan_owner::SetClanOwner;
pub use set_voting_delegate::SetVotingDelegate;
pub use update_clan::UpdateClan;
pub use update_proposal_vote::UpdateProposalVote;
