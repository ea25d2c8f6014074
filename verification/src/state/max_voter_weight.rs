//! The realm-wide maximum weight that the governance host reads.

use vstd::prelude::*;
use crate::pubkey::Pubkey;

verus! {

/// The sum of the weights of all members of a root.
#[derive(Clone, Copy, Debug, PartialEq, Eq)]
pub struct MaxVoterWeightRecord {
    /// The realm that the record belongs to.
    pub realm: Pubkey,
    /// The mint of the governing token.
    pub governing_token_mint: Pubkey,
    /// The maximum weight.
    pub max_voter_weight: u64,
    /// The slot after which the maximum is stale; never set here.
    pub max_voter_weight_expiry: Option<u64>,
    /// Space kept for later versions.
    pub reserved: [u8; 8],
}

impl MaxVoterWeightRecord {
    /// The record of a root without members: a maximum of zero that
    /// does not expire.
    pub open spec fn spec_new(realm: Pubkey, governing_token_mint: Pubkey) -> MaxVoterWeightRecord {
        MaxVoterWeightRecord {
            realm,
            governing_token_mint,
            max_voter_weight: 0,
            max_voter_weight_expiry: None,
            reserved: vstd::array::spec_array_fill_for_copy_type::<u8, 8>(0u8),
        }
    }

    /// The record of a root without members: a maximum of zero that
    /// does not expire.
    pub fn new(realm: Pubkey, governing_token_mint: Pubkey) -> (record: MaxVoterWeightRecord)
        ensures
            record == MaxVoterWeightRecord::spec_new(realm, governing_token_mint),
    {
        MaxVoterWeightRecord {
            realm,
            governing_token_mint,
            max_voter_weight: 0,
            max_voter_weight_expiry: None,
            reserved: [0u8; 8],
        }
    }
}

} // verus!
