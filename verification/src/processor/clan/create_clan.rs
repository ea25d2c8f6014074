//! Creating a clan.

use vstd::prelude::*;
use crate::clock::Clock;
use crate::error::Error;
use crate::events::clan::ClanCreated;
use crate::pubkey::Pubkey;
use crate::state::account::Account;
use crate::state::clan::{Clan, ClanBumps};
use crate::state::clan_vwr::VoterWeightRecord;
use crate::state::root::Root;

verus! {

/// The accounts of the creation of a clan.
#[derive(Clone, Copy, Debug, PartialEq, Eq)]
pub struct CreateClan {
    /// The root that the clan belongs to.
    pub root: Account<Root>,
    /// The realm of the root.
    pub realm: Pubkey,
    /// The governing token mint of the root.
    pub governing_token_mint: Pubkey,
    /// The address of the clan that is created.
    pub clan: Pubkey,
    /// The authority by which the clan votes in the host.
    pub voter_authority: Pubkey,
    /// The address of the host's record of the clan's tokens.
    pub clan_tor: Pubkey,
    /// The address of the clan's weight record.
    pub clan_vwr: Pubkey,
    /// The governance host.
    pub governance_program: Pubkey,
}

/// What the creation of a clan hands back: the clan, its weight
/// record, and the notification for observers.
#[derive(Clone, Debug, PartialEq, Eq)]
pub struct CreatedClan {
    pub clan: Account<Clan>,
    pub clan_vwr: Account<VoterWeightRecord>,
    pub clan_created: ClanCreated,
}

impl CreateClan {
    /// Whether realm, mint and host are those of the root.
    pub open spec fn accounts_match(&self) -> bool {
        &&& self.root.data.realm == self.realm
        &&& self.root.data.governing_token_mint == self.governing_token_mint
        &&& self.root.data.governance_program == self.governance_program
    }

    /// Whether the numbers that the creation leads to can be computed
    /// and stored: the root's next reset time and its number of clans.
    pub open spec fn fits(&self, clock: &Clock) -> bool {
        self.root.data.rollover_fits(clock.unix_timestamp) && self.root.data.clan_count < u64::MAX
    }

    /// Whether `clan` is a clan of `owner` as it is created under
    /// the root `root`: without members, weight, delegate, name or
    /// description, open to temporary members, and with the root's
    /// next reset time.
    pub open spec fn is_created(&self, clan: Clan, owner: Pubkey, bumps: ClanBumps, root: &Root) -> bool {
        &&& clan.root == self.root.key
        &&& clan.owner == owner
        &&& clan.delegate == Pubkey::spec_default()
        &&& clan.voter_authority == self.voter_authority
        &&& clan.token_owner_record == self.clan_tor
        &&& clan.voter_weight_record == self.clan_vwr
        &&& clan.min_voting_weight_to_join == 0
        &&& clan.permanent_members == 0
        &&& clan.temporary_members == 0
        &&& clan.updated_temporary_members == 0
        &&& clan.leaving_members == 0
        &&& clan.accept_temporary_members
        &&& clan.permanent_voter_weight == 0
        &&& clan.next_voter_weight_reset_time == root.spec_next_voter_weight_reset_time()
        &&& clan.name@ == Seq::<char>::empty()
        &&& clan.description@ == Seq::<char>::empty()
        &&& clan.bumps == bumps
    }

    /// Whether `result` and the accounts `after` are what the
    /// creation gives: one that is turned down changes nothing; one
    /// that is not brings the root's schedule up to date, counts the
    /// clan in the root, and hands back the clan and its record.
    pub open spec fn is_result(
        &self,
        owner: Pubkey,
        bumps: ClanBumps,
        clock: &Clock,
        after: &CreateClan,
        result: Result<CreatedClan, Error>,
    ) -> bool {
        &&& !self.accounts_match() ==> {
            &&& result == Err::<CreatedClan, Error>(Error::ConstraintHasOne)
            &&& *after == *self
        }
        &&& self.accounts_match() ==> {
            let root = self.root.data.rolled_over(clock.unix_timestamp);
            &&& result matches Ok(created)
            &&& *after == (CreateClan {
                root: Account {
                    key: self.root.key,
                    data: Root { clan_count: (root.clan_count + 1) as u64, ..root },
                },
                ..*self
            })
            &&& created.clan.key == self.clan
            &&& self.is_created(created.clan.data, owner, bumps, &root)
            &&& created.clan_vwr.key == self.clan_vwr
            &&& created.clan_vwr.data == VoterWeightRecord::spec_new(
                self.realm,
                self.governing_token_mint,
                self.voter_authority,
                0,
                None,
                None,
                None,
            )
            &&& created.clan.data.wf(&created.clan_vwr.data)
            &&& created.clan_created == (ClanCreated {
                clan: self.clan,
                root: self.root.key,
                clan_index: self.root.data.clan_count,
                owner,
            })
        }
    }

    /// Creates a clan of `owner` in the root, with a weight record
    /// of weight zero, and counts it in the root, whose schedule is
    /// brought up to the time of `clock` first.
    pub fn process(&mut self, owner: Pubkey, bumps: ClanBumps, clock: &Clock) -> (result: Result<
        CreatedClan,
        Error,
    >)
        requires
            old(self).accounts_match() ==> old(self).fits(clock),
        ensures
            old(self).is_result(owner, bumps, clock, final(self), result),
    {
        if self.root.data.realm != self.realm || self.root.data.governing_token_mint
            != self.governing_token_mint || self.root.data.governance_program
            != self.governance_program {
            return Err(Error::ConstraintHasOne);
        }
        self.root.data.update_next_voter_weight_reset_time(clock);
        let clan = Clan {
            root: self.root.key,
            owner,
            delegate: Pubkey::default(),
            voter_authority: self.voter_authority,
            token_owner_record: self.clan_tor,
            voter_weight_record: self.clan_vwr,
            min_voting_weight_to_join: 0,
            permanent_members: 0,
            temporary_members: 0,
            updated_temporary_members: 0,
            leaving_members: 0,
            accept_temporary_members: true,
            permanent_voter_weight: 0,
            next_voter_weight_reset_time: self.root.data.next_voter_weight_reset_time(),
            name: String::new(),
            description: String::new(),
            bumps,
        };
        let clan_vwr = VoterWeightRecord::new(
            self.realm,
            self.root.data.governing_token_mint,
            self.voter_authority,
            0,
            None,
            None,
            None,
        );
        let clan_created = ClanCreated {
            clan: self.clan,
            root: self.root.key,
            clan_index: self.root.data.clan_count,
            owner,
        };
        self.root.data.clan_count += 1;
        Ok(
            CreatedClan {
                clan: Account { key: self.clan, data: clan },
                clan_vwr: Account { key: self.clan_vwr, data: clan_vwr },
                clan_created,
            },
        )
    }

    /// Does what `process` does where the numbers that the creation
    /// leads to can be stored; where they cannot, changes nothing and
    /// hands back `None`.
    pub fn try_process(&mut self, owner: Pubkey, bumps: ClanBumps, clock: &Clock) -> (result: Option<
        Result<CreatedClan, Error>,
    >)
        ensures
            match result {
                Some(result) => {
                    &&& old(self).accounts_match() ==> old(self).fits(clock)
                    &&& old(self).is_result(owner, bumps, clock, final(self), result)
                },
                None => {
                    &&& old(self).accounts_match()
                    &&& !old(self).fits(clock)
                    &&& *final(self) == *old(self)
                },
            },
    {
        let matching = self.root.data.realm == self.realm && self.root.data.governing_token_mint
            == self.governing_token_mint && self.root.data.governance_program
            == self.governance_program;
        if matching && !(self.root.data.rollover_is_storable(clock) && self.root.data.clan_count
            < u64::MAX) {
            None
        } else {
            Some(self.process(owner, bumps, clock))
        }
    }
}

} // verus!
