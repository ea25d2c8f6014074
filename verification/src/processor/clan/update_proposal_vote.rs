//! Casting the vote of a clan again with its present weight.

use vstd::prelude::*;
use crate::clock::Clock;
use crate::error::Error;
use crate::events::clan::ProposalVoteUpdated;
use crate::host::VoteRecord;
use crate::pubkey::Pubkey;
use crate::state::account::Account;
use crate::state::clan::Clan;
use crate::state::clan_vwr::VoterWeightRecord;
use crate::state::root::Root;

verus! {

/// The accounts of an update of a vote.
#[derive(Clone, Debug, PartialEq, Eq)]
pub struct UpdateProposalVote {
    /// The clan that has voted.
    pub clan: Account<Clan>,
    /// The root of the clan.
    pub root: Account<Root>,
    /// The realm of the root.
    pub realm: Pubkey,
    /// The governing token mint of the root.
    pub governing_token_mint: Pubkey,
    /// The proposal that the clan has voted on.
    pub proposal: Pubkey,
    /// The address of the host's record of the clan's tokens.
    pub clan_tor: Pubkey,
    /// The weight record of the clan.
    pub clan_vwr: Account<VoterWeightRecord>,
    /// The host's record of the clan's vote.
    pub vote_record: VoteRecord,
    /// The governance host.
    pub governance_program: Pubkey,
}

impl UpdateProposalVote {
    /// Why the update is turned down, if it is; the first reason that
    /// applies: the accounts do not belong together, or the clan's
    /// weight is not up to date.
    pub open spec fn request_error(&self, clock: &Clock) -> Option<Error> {
        if self.clan.data.root != self.root.key {
            Some(Error::ConstraintHasOne)
        } else if !self.clan.data.spec_is_updated(&self.root.data, clock.unix_timestamp) {
            Some(Error::TemporaryMembersNotUpdated)
        } else if self.root.data.realm != self.realm || self.root.data.governing_token_mint
            != self.governing_token_mint || self.root.data.governance_program
            != self.governance_program {
            Some(Error::ConstraintHasOne)
        } else if self.clan.data.token_owner_record != self.clan_tor {
            Some(Error::ConstraintAddress)
        } else if self.clan.data.voter_weight_record != self.clan_vwr.key {
            Some(Error::ConstraintAddress)
        } else {
            None
        }
    }

    /// What is reported if the vote is cast again: nothing where the
    /// vote carries the clan's weight already, else the weight of the
    /// vote before and after.
    pub open spec fn update(&self) -> Option<ProposalVoteUpdated> {
        if self.vote_record.voter_weight == self.clan_vwr.data.voter_weight {
            None
        } else {
            Some(
                ProposalVoteUpdated {
                    clan: self.clan.key,
                    proposal: self.proposal,
                    old_voting_weight: self.vote_record.voter_weight,
                    new_voting_weight: self.clan_vwr.data.voter_weight,
                },
            )
        }
    }

    /// Decides whether the clan's vote on the proposal is to be
    /// relinquished and cast again; doing so is the host's part.
    pub fn process(&self, clock: &Clock) -> (result: Result<Option<ProposalVoteUpdated>, Error>)
        ensures
            result == match self.request_error(clock) {
                Some(error) => Err::<Option<ProposalVoteUpdated>, Error>(error),
                None => Ok::<Option<ProposalVoteUpdated>, Error>(self.update()),
            },
    {
        if self.clan.data.root != self.root.key {
            return Err(Error::ConstraintHasOne);
        }
        if !self.clan.data.is_updated(&self.root.data, clock) {
            return Err(Error::TemporaryMembersNotUpdated);
        }
        if self.root.data.realm != self.realm || self.root.data.governing_token_mint
            != self.governing_token_mint || self.root.data.governance_program
            != self.governance_program {
            return Err(Error::ConstraintHasOne);
        }
        if self.clan.data.token_owner_record != self.clan_tor {
            return Err(Error::ConstraintAddress);
        }
        if self.clan.data.voter_weight_record != self.clan_vwr.key {
            return Err(Error::ConstraintAddress);
        }
        if self.vote_record.voter_weight == self.clan_vwr.data.voter_weight {
            return Ok(None);
        }
        Ok(
            Some(
                ProposalVoteUpdated {
                    clan: self.clan.key,
                    proposal: self.proposal,
                    old_voting_weight: self.vote_record.voter_weight,
                    new_voting_weight: self.clan_vwr.data.voter_weight,
                },
            ),
        )
    }
}

} // verus!
