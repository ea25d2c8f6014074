//! The weight record that a clan publishes for the governance host.

use vstd::prelude::*;
use crate::pubkey::Pubkey;

verus! {

/// The governance action that a weight is evaluated for.
#[derive(Clone, Copy, Debug, PartialEq, Eq, Structural)]
pub enum VoterWeightAction {
    /// Cast a vote on a proposal.
    CastVote,
    /// Comment on a proposal.
    CommentProposal,
    /// Create a governance in a realm.
    CreateGovernance,
    /// Create a proposal for a governance.
    CreateProposal,
    /// Sign off a proposal.
    SignOffProposal,
}

/// A voter's weight in a realm, as the governance host reads it. The
/// record of a clan is written by this crate; the record of a member
/// comes from the source of member weights.
#[derive(Clone, Copy, Debug, PartialEq, Eq)]
pub struct VoterWeightRecord {
    /// The realm that the record belongs to.
    pub realm: Pubkey,
    /// The mint of the governing token.
    pub governing_token_mint: Pubkey,
    /// The voter.
    pub governing_token_owner: Pubkey,
    /// The weight of the voter.
    pub voter_weight: u64,
    /// The slot after which the weight is stale; `None` for a weight
    /// that does not expire.
    pub voter_weight_expiry: Option<u64>,
    /// The action that the weight is restricted to, if any.
    pub weight_action: Option<VoterWeightAction>,
    /// The target that the weight is restricted to, if any.
    pub weight_action_target: Option<Pubkey>,
    /// Space kept for later versions.
    pub reserved: [u8; 8],
}

impl VoterWeightRecord {
    /// A record with the given contents and its reserved space zeroed.
    pub open spec fn spec_new(
        realm: Pubkey,
        governing_token_mint: Pubkey,
        governing_token_owner: Pubkey,
        voter_weight: u64,
        voter_weight_expiry: Option<u64>,
        weight_action: Option<VoterWeightAction>,
        weight_action_target: Option<Pubkey>,
    ) -> VoterWeightRecord {
        VoterWeightRecord {
            realm,
            governing_token_mint,
            governing_token_owner,
            voter_weight,
            voter_weight_expiry,
            weight_action,
            weight_action_target,
            reserved: vstd::array::spec_array_fill_for_copy_type::<u8, 8>(0u8),
        }
    }

    /// A record with the given contents and its reserved space zeroed.
    pub fn new(
        realm: Pubkey,
        governing_token_mint: Pubkey,
        governing_token_owner: Pubkey,
        voter_weight: u64,
        voter_weight_expiry: Option<u64>,
        weight_action: Option<VoterWeightAction>,
        weight_action_target: Option<Pubkey>,
    ) -> (record: VoterWeightRecord)
        ensures
            record == VoterWeightRecord::spec_new(
                realm,
                governing_token_mint,
                governing_token_owner,
                voter_weight,
                voter_weight_expiry,
                weight_action,
                weight_action_target,
            ),
    {
        VoterWeightRecord {
            realm,
            governing_token_mint,
            governing_token_owner,
            voter_weight,
            voter_weight_expiry,
            weight_action,
            weight_action_target,
            reserved: [0u8; 8],
        }
    }

    /// Whether the weight never expires.
    pub open spec fn is_permanent(&self) -> bool {
        self.voter_weight_expiry is None
    }
}

} // verus!
