//! What is reported about a root.

use vstd::prelude::*;
use crate::pubkey::Pubkey;
use crate::state::root::VoterWeightReset;

verus! {

/// A root was created.
#[derive(Clone, Copy, Debug, PartialEq, Eq)]
pub struct RootCreated {
    pub root: Pubkey,
    pub governance_program: Pubkey,
    pub realm: Pubkey,
    pub governing_token_mint: Pubkey,
    pub voting_weight_plugin: Option<Pubkey>,
}

/// The realm-wide maximum weight changed.
#[derive(Clone, Copy, Debug, PartialEq, Eq)]
pub struct MaxVoterWeightChanged {
    pub root: Pubkey,
    pub old_max_voter_weight: u64,
    pub new_max_voter_weight: u64,
}

/// The time that a leaving member has to wait changed.
#[derive(Clone, Copy, Debug, PartialEq, Eq)]
pub struct MaxProposalLifetimeChanged {
    pub root: Pubkey,
    pub old_max_proposal_lifetime: u64,
    pub new_max_proposal_lifetime: u64,
}

/// The reset schedule of a root changed.
#[derive(Clone, Copy, Debug, PartialEq, Eq)]
pub struct VoterWeightResetChanged {
    pub root: Pubkey,
    pub old_voter_weight_reset: Option<VoterWeightReset>,
    pub new_voter_weight_reset: Option<VoterWeightReset>,
}

/// A root was paused.
#[derive(Clone, Copy, Debug, PartialEq, Eq)]
pub struct Paused {
    pub root: Pubkey,
}

/// A root was resumed.
#[derive(Clone, Copy, Debug, PartialEq, Eq)]
pub struct Resumed {
    pub root: Pubkey,
}

/// The source of member weights changed.
#[derive(Clone, Copy, Debug, PartialEq, Eq)]
pub struct VoterWeightPluginChanged {
    pub root: Pubkey,
    pub old_voting_weight_plugin: Pubkey,
    pub new_voting_weight_plugin: Pubkey,
}

} // verus!
