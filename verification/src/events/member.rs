//! What is reported about members.

use vstd::prelude::*;
use crate::pubkey::Pubkey;

verus! {

/// A member was created.
#[derive(Clone, Copy, Debug, PartialEq, Eq)]
pub struct MemberCreated {
    pub member: Pubkey,
    pub root: Pubkey,
    pub member_index: u64,
    pub owner: Pubkey,
}

/// The cached weight of a member changed.
#[derive(Clone, Copy, Debug, PartialEq, Eq)]
pub struct MemberVoterWeightChanged {
    pub member: Pubkey,
    pub root: Pubkey,
    pub old_voter_weight: u64,
    pub new_voter_weight: u64,
    pub old_voter_weight_record: Pubkey,
    pub new_voter_weight_record: Pubkey,
}

/// A member began to leave a clan.
#[derive(Clone, Copy, Debug, PartialEq, Eq)]
pub struct StartingLeavingClan {
    pub member: Pubkey,
    pub clan: Pubkey,
    pub root: Pubkey,
    pub owner: Pubkey,
}

} // verus!
