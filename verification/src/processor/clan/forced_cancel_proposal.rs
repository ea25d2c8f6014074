//! Cancelling a proposal of a clan that has lost the weight to make it.

use vstd::prelude::*;
use crate::clock::Clock;
use crate::error::Error;
use crate::events::clan::ProposalCanceled;
use crate::host::{GovernanceConfig, Proposal, Realm};
use crate::pubkey::Pubkey;
use crate::state::account::Account;
use crate::state::clan::Clan;
use crate::state::clan_vwr::VoterWeightRecord;
use crate::state::root::Root;

verus! {

/// The accounts of a forced cancellation.
#[derive(Clone, Debug, PartialEq, Eq)]
pub struct ForcedCancelProposal {
    /// The clan that owns the proposal.
    pub clan: Account<Clan>,
    /// The root of the clan.
    pub root: Account<Root>,
    /// The realm of the root, as the host records it.
    pub realm: Account<Realm>,
    /// The governing token mint of the root.
    pub governing_token_mint: Pubkey,
    /// The rules of the governance that the proposal is made in.
    pub governance: GovernanceConfig,
    /// The proposal.
    pub proposal: Account<Proposal>,
    /// The address of the host's record of the clan's tokens.
    pub clan_tor: Pubkey,
    /// The weight record of the clan.
    pub clan_vwr: Account<VoterWeightRecord>,
    /// The governance host.
    pub governance_program: Pubkey,
}

impl ForcedCancelProposal {
    /// Whether the mint is the community or the council mint of the
    /// realm.
    pub open spec fn mint_is_known(&self) -> bool {
        self.governing_token_mint == self.realm.data.community_mint || self.realm.data.council_mint
            == Some(self.governing_token_mint)
    }

    /// The weight that the holders of the governing token need to
    /// create a proposal.
    pub open spec fn min_weight_to_create_proposal(&self) -> u64 {
        if self.governing_token_mint == self.realm.data.community_mint {
            self.governance.min_community_weight_to_create_proposal
        } else {
            self.governance.min_council_weight_to_create_proposal
        }
    }

    /// Why the accounts do not serve, if they do not: they do not
    /// belong together, or the clan's weight is not up to date.
    pub open spec fn account_error(&self, clock: &Clock) -> Option<Error> {
        if self.clan.data.root != self.root.key {
            Some(Error::ConstraintHasOne)
        } else if !self.clan.data.spec_is_updated(&self.root.data, clock.unix_timestamp) {
            Some(Error::TemporaryMembersNotUpdated)
        } else if self.root.data.realm != self.realm.key || self.root.data.governing_token_mint
            != self.governing_token_mint || self.root.data.governance_program
            != self.governance_program {
            Some(Error::ConstraintHasOne)
        } else if self.clan.data.token_owner_record != self.clan_tor {
            Some(Error::ConstraintAddress)
        } else if self.clan.data.voter_weight_record != self.clan_vwr.key {
            Some(Error::ConstraintSeeds)
        } else {
            None
        }
    }

    /// Why the cancellation is turned down, if it is; the first
    /// reason that applies. The clan's weight must be up to date and
    /// below what a proposal needs, the mint must be one of the
    /// realm's, and the proposal must be the clan's.
    pub open spec fn request_error(&self, clock: &Clock) -> Option<Error> {
        if self.account_error(clock) is Some {
            self.account_error(clock)
        } else if !self.mint_is_known() {
            Some(Error::UnknownGoverningTokenMint)
        } else if self.min_weight_to_create_proposal() <= self.clan_vwr.data.voter_weight {
            Some(Error::RequireGtViolated)
        } else if self.proposal.data.token_owner_record != self.clan_tor {
            Some(Error::RequireKeysEqViolated)
        } else {
            None
        }
    }

    /// Decides whether the proposal of the clan is to be cancelled;
    /// the cancellation itself is the host's to make.
    pub fn process(&self, clock: &Clock) -> (result: Result<ProposalCanceled, Error>)
        ensures
            result == match self.request_error(clock) {
                Some(error) => Err::<ProposalCanceled, Error>(error),
                None => Ok::<ProposalCanceled, Error>(
                    ProposalCanceled { clan: self.clan.key, proposal: self.proposal.key },
                ),
            },
    {
        if self.clan.data.root != self.root.key {
            return Err(Error::ConstraintHasOne);
        }
        if !self.clan.data.is_updated(&self.root.data, clock) {
            return Err(Error::TemporaryMembersNotUpdated);
        }
        if self.root.data.realm != self.realm.key || self.root.data.governing_token_mint
            != self.governing_token_mint || self.root.data.governance_program
            != self.governance_program {
            return Err(Error::ConstraintHasOne);
        }
        if self.clan.data.token_owner_record != self.clan_tor {
            return Err(Error::ConstraintAddress);
        }
        if self.clan.data.voter_weight_record != self.clan_vwr.key {
            return Err(Error::ConstraintSeeds);
        }
        let min_weight_to_create_proposal = if self.governing_token_mint
            == self.realm.data.community_mint {
            self.governance.min_community_weight_to_create_proposal
        } else {
            match self.realm.data.council_mint {
                Some(mint) => {
                    if mint != self.governing_token_mint {
                        return Err(Error::UnknownGoverningTokenMint);
                    }
                },
                None => {
                    return Err(Error::UnknownGoverningTokenMint);
                },
            }
            self.governance.min_council_weight_to_create_proposal
        };
        if min_weight_to_create_proposal <= self.clan_vwr.data.voter_weight {
            return Err(Error::RequireGtViolated);
        }
        if self.proposal.data.token_owner_record != self.clan_tor {
            return Err(Error::RequireKeysEqViolated);
        }
        Ok(ProposalCanceled { clan: self.clan.key, proposal: self.proposal.key })
    }
}

} // verus!
