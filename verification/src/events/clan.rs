//! What is reported about clans.

use vstd::prelude::*;
use crate::pubkey::Pubkey;

verus! {

/// A clan was created.
#[derive(Clone, Copy, Debug, PartialEq, Eq)]
pub struct ClanCreated {
    pub clan: Pubkey,
    pub root: Pubkey,
    pub clan_index: u64,
    pub owner: Pubkey,
}

/// The owner of a clan changed.
#[derive(Clone, Copy, Debug, PartialEq, Eq)]
pub struct ClanOwnerChanged {
    pub clan: Pubkey,
    pub old_owner: Pubkey,
    pub new_owner: Pubkey,
}

/// The account of a clan was given a new size.
#[derive(Clone, Copy, Debug, PartialEq, Eq)]
pub struct ClanResized {
    pub clan: Pubkey,
    pub new_size: u32,
}

/// The delegate of a clan changed.
#[derive(Clone, Copy, Debug, PartialEq, Eq)]
pub struct ClanDelegateChanged {
    pub clan: Pubkey,
    pub old_delegate: Pubkey,
    pub new_delegate: Pubkey,
}

/// The name of a clan changed.
#[derive(Clone, Debug, PartialEq, Eq)]
pub struct ClanNameChanged {
    pub clan: Pubkey,
    pub old_name: String,
    pub new_name: String,
}

/// The description of a clan changed.
#[derive(Clone, Debug, PartialEq, Eq)]
pub struct ClanDescriptionChanged {
    pub clan: Pubkey,
    pub old_description: String,
    pub new_description: String,
}

/// The weight that a member needs to join a clan changed.
#[derive(Clone, Copy, Debug, PartialEq, Eq)]
pub struct ClanMinVotingWeightToJoinChanged {
    pub clan: Pubkey,
    pub old_min_voting_weight_to_join: u64,
    pub new_min_voting_weight_to_join: u64,
}

/// A clan began or stopped accepting members with expiring weight.
#[derive(Clone, Copy, Debug, PartialEq, Eq)]
pub struct ClanAcceptTemporaryMembersChanged {
    pub clan: Pubkey,
    pub old_accept_temporary_members: bool,
    pub new_accept_temporary_members: bool,
}

/// A member joined a clan.
#[derive(Clone, Copy, Debug, PartialEq, Eq)]
pub struct ClanMemberAdded {
    pub clan: Pubkey,
    pub member: Pubkey,
    pub root: Pubkey,
    pub owner: Pubkey,
}

/// The published weight of a clan before and after a posting.
#[derive(Clone, Copy, Debug, PartialEq, Eq)]
pub struct ClanVoterWeightChanged {
    pub clan: Pubkey,
    pub root: Pubkey,
    pub old_voter_weight: u64,
    pub new_voter_weight: u64,
    pub old_permament_voter_weight: u64,
    pub new_permament_voter_weight: u64,
    pub old_is_permanent: bool,
    pub new_is_permanent: bool,
}

/// A member completed its exit from a clan.
#[derive(Clone, Copy, Debug, PartialEq, Eq)]
pub struct ClanMemberLeft {
    pub clan: Pubkey,
    pub member: Pubkey,
    pub root: Pubkey,
    pub owner: Pubkey,
}

/// The voting delegate of a clan on the governance host changed.
#[derive(Clone, Copy, Debug, PartialEq, Eq)]
pub struct ClanVotingDelegateChanged {
    pub clan: Pubkey,
    pub new_voting_delegate: Option<Pubkey>,
    pub old_voting_delegate: Option<Pubkey>,
}

/// The vote of a clan on a proposal was cast again with its current weight.
#[derive(Clone, Copy, Debug, PartialEq, Eq)]
pub struct ProposalVoteUpdated {
    pub clan: Pubkey,
    pub proposal: Pubkey,
    pub old_voting_weight: u64,
    pub new_voting_weight: u64,
}

/// A proposal of a clan was cancelled.
#[derive(Clone, Copy, Debug, PartialEq, Eq)]
pub struct ProposalCanceled {
    pub clan: Pubkey,
    pub proposal: Pubkey,
}

} // verus!
