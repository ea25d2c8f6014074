//! What this crate reads of the accounts of the governance host.

use vstd::prelude::*;
use crate::pubkey::Pubkey;

verus! {

/// The kind of the lock by which this crate holds a member's tokens
/// in the governance host.
pub const GOVERNANCE_LOCK_TYPE: u8 = 0;

/// A lock on the tokens of a token owner.
#[derive(Clone, Copy, Debug, PartialEq, Eq)]
pub struct TokenOwnerRecordLock {
    /// The kind of the lock, chosen by its authority.
    pub lock_type: u8,
    /// Who holds the lock.
    pub authority: Pubkey,
    /// When the lock ends by itself, if it does.
    pub expiry: Option<i64>,
}

/// The host's record of a token owner in a realm.
#[derive(Clone, Debug, PartialEq, Eq)]
pub struct TokenOwnerRecord {
    /// The owner of the tokens.
    pub governing_token_owner: Pubkey,
    /// The number of votes that the owner has cast and not relinquished.
    pub unrelinquished_votes_count: u64,
    /// The number of proposals of the owner that are still open.
    pub outstanding_proposal_count: u8,
    /// Who may vote for the owner, if anyone.
    pub governance_delegate: Option<Pubkey>,
    /// The locks on the owner's tokens.
    pub locks: Vec<TokenOwnerRecordLock>,
}

impl TokenOwnerRecordLock {
    /// Whether this is the lock without end that `authority` holds
    /// for this crate.
    pub open spec fn is_held_by(&self, authority: Pubkey) -> bool {
        self.authority == authority && self.lock_type == GOVERNANCE_LOCK_TYPE && self.expiry is None
    }
}

impl TokenOwnerRecord {
    /// Whether the owner has neither votes to relinquish nor open proposals.
    pub open spec fn spec_is_free(&self) -> bool {
        self.unrelinquished_votes_count == 0 && self.outstanding_proposal_count == 0
    }

    /// Whether the owner has neither votes to relinquish nor open proposals.
    pub fn is_free(&self) -> (free: bool)
        ensures
            free == self.spec_is_free(),
    {
        self.unrelinquished_votes_count == 0 && self.outstanding_proposal_count == 0
    }

    /// Whether `authority` holds its lock on the owner's tokens.
    pub open spec fn spec_is_locked_by(&self, authority: Pubkey) -> bool {
        exists|i: int| 0 <= i < self.locks@.len() && (#[trigger] self.locks@[i]).is_held_by(authority)
    }

    /// Whether `authority` holds its lock on the owner's tokens.
    pub fn is_locked_by(&self, authority: Pubkey) -> (locked: bool)
        ensures
            locked == self.spec_is_locked_by(authority),
    {
        let mut i: usize = 0;
        while i < self.locks.len()
            invariant
                i <= self.locks@.len(),
                forall|j: int| 0 <= j < i ==> !(#[trigger] self.locks@[j]).is_held_by(authority),
            decreases self.locks@.len() - i,
        {
            let lock = self.locks[i];
            if lock.authority == authority && lock.lock_type == GOVERNANCE_LOCK_TYPE
                && lock.expiry.is_none() {
                return true;
            }
            i += 1;
        }
        false
    }
}

/// The host's record of a realm.
#[derive(Clone, Copy, Debug, PartialEq, Eq)]
pub struct Realm {
    /// Who may configure the realm, if anyone.
    pub authority: Option<Pubkey>,
    /// The mint of the community token.
    pub community_mint: Pubkey,
    /// The mint of the council token, if the realm has a council.
    pub council_mint: Option<Pubkey>,
}

/// The host's configuration of a realm: where it reads the weights
/// of the holders of each token from.
#[derive(Clone, Copy, Debug, PartialEq, Eq)]
pub struct RealmConfig {
    /// The source of the weights of community token holders, if it is
    /// not the host itself.
    pub community_voter_weight_addin: Option<Pubkey>,
    /// The source of the weights of council token holders, if it is
    /// not the host itself.
    pub council_voter_weight_addin: Option<Pubkey>,
}

/// The host's rules of a governance.
#[derive(Clone, Copy, Debug, PartialEq, Eq)]
pub struct GovernanceConfig {
    /// The weight that a community token holder needs to create a proposal.
    pub min_community_weight_to_create_proposal: u64,
    /// The weight that a council token holder needs to create a proposal.
    pub min_council_weight_to_create_proposal: u64,
}

/// The host's record of a proposal.
#[derive(Clone, Copy, Debug, PartialEq, Eq)]
pub struct Proposal {
    /// The record of the token owner that created the proposal.
    pub token_owner_record: Pubkey,
}

/// The host's record of a vote.
#[derive(Clone, Copy, Debug, PartialEq, Eq)]
pub struct VoteRecord {
    /// The weight that the vote was cast with.
    pub voter_weight: u64,
}

} // verus!
