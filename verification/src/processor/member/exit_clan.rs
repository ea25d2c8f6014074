//! Completing the leave from a clan.

use vstd::prelude::*;
use crate::clock::Clock;
use crate::error::Error;
use crate::events::clan::ClanMemberLeft;
use crate::host::TokenOwnerRecord;
use crate::pubkey::Pubkey;
use crate::state::account::Account;
use crate::state::clan::Clan;
use crate::state::member::{
    lemma_active_share_total_remove, lemma_position_of, position_of, Member,
};
use crate::state::root::Root;

verus! {

/// The accounts of an exit.
#[derive(Clone, Debug, PartialEq, Eq)]
pub struct ExitClan {
    /// The member that exits.
    pub member: Account<Member>,
    /// The clan that it exits from.
    pub clan: Account<Clan>,
    /// Who asks for the exit.
    pub member_authority: Pubkey,
    /// The host's record of the member's tokens.
    pub member_tor: Pubkey,
    /// The root of member and clan.
    pub root: Account<Root>,
    /// The realm of the root.
    pub realm: Pubkey,
    /// The authority by which the root locks the tokens of its members.
    pub lock_authority: Pubkey,
    /// The governance host.
    pub governance_program: Pubkey,
    /// The host's record of the clan's tokens, for an exit before the
    /// waiting time has passed.
    pub clan_tor: Option<TokenOwnerRecord>,
}

/// What an exit hands back: the notification for observers, and
/// whether the root's lock on the member's tokens is to be given up.
#[derive(Clone, Copy, Debug, PartialEq, Eq)]
pub struct ExitClanOutcome {
    pub clan_member_left: ClanMemberLeft,
    /// Whether the member has left its last clan, so that its tokens
    /// need no longer be locked.
    pub unlock_required: bool,
}

impl ExitClan {
    /// Why the accounts do not belong together, if they do not.
    pub open spec fn account_error(&self) -> Option<Error> {
        if self.member.data.root != self.root.key {
            Some(Error::ConstraintHasOne)
        } else if self.clan.data.root != self.root.key {
            Some(Error::ConstraintHasOne)
        } else if self.member_authority != self.member.data.owner && self.member_authority
            != self.member.data.delegate {
            Some(Error::WrongMemberAuthority)
        } else if self.member.data.token_owner_record != self.member_tor {
            Some(Error::ConstraintAddress)
        } else if self.root.data.governance_program != self.governance_program
            || self.root.data.realm != self.realm {
            Some(Error::ConstraintHasOne)
        } else {
            None
        }
    }

    /// Whether the member may exit before its waiting time has
    /// passed: the clan's record is supplied, and the clan has neither
    /// votes to relinquish nor open proposals.
    pub open spec fn is_safe(&self) -> bool {
        self.clan_tor matches Some(record) && record.spec_is_free()
    }

    /// Why the exit is turned down, if it is; the first reason that
    /// applies. The member must be leaving the clan, and either its
    /// waiting time has passed or the exit is safe.
    pub open spec fn request_error(&self, clock: &Clock) -> Option<Error> {
        let entries = self.member.data.membership@;
        if self.account_error() is Some {
            self.account_error()
        } else if position_of(entries, self.clan.key) is None {
            Some(Error::UnexpectedExitingClan)
        } else if entries[position_of(entries, self.clan.key).unwrap()].leaving_time is None {
            Some(Error::UnexpectedExitingClan)
        } else if !self.is_safe() && clock.unix_timestamp < entries[position_of(
            entries,
            self.clan.key,
        ).unwrap()].leaving_time.unwrap() {
            Some(Error::TooEarlyToExitClan)
        } else {
            None
        }
    }

    /// Whether `result` and the accounts `after` are what the exit
    /// gives: one that is turned down changes nothing; one that is
    /// not removes the member's entry for the clan and counts one
    /// leaving member less in the clan.
    pub open spec fn is_result(&self, clock: &Clock, after: &ExitClan, result: Result<ExitClanOutcome, Error>) -> bool {
        match self.request_error(clock) {
            Some(error) => {
                &&& result == Err::<ExitClanOutcome, Error>(error)
                &&& *after == *self
            },
            None => {
                &&& result matches Ok(outcome)
                &&& *after == (ExitClan {
                    member: Account {
                        key: self.member.key,
                        data: Member {
                            membership: after.member.data.membership,
                            ..self.member.data
                        },
                    },
                    clan: Account {
                        key: self.clan.key,
                        data: Clan {
                            leaving_members: (self.clan.data.leaving_members - 1) as u64,
                            ..self.clan.data
                        },
                    },
                    ..*self
                })
                &&& after.member.data.membership@ == self.member.data.membership@.remove(
                    position_of(self.member.data.membership@, self.clan.key).unwrap(),
                )
                &&& after.member.data.wf()
                &&& outcome.clan_member_left == (ClanMemberLeft {
                    member: self.member.key,
                    clan: self.clan.key,
                    root: self.root.key,
                    owner: self.member.data.owner,
                })
                &&& outcome.unlock_required == (after.member.data.membership@.len() == 0)
            },
        }
    }

    /// Looks for a reason to turn the exit down. Where there is
    /// none, hands back the position of the member's entry for the
    /// clan.
    pub fn check_request(&self, clock: &Clock) -> (result: Result<usize, Error>)
        requires
            self.member.data.wf(),
        ensures
            match self.request_error(clock) {
                Some(error) => result == Err::<usize, Error>(error),
                None => result matches Ok(i) && position_of(
                    self.member.data.membership@,
                    self.clan.key,
                ) == Some(i as int) && i < self.member.data.membership@.len(),
            },
    {
        if self.member.data.root != self.root.key {
            return Err(Error::ConstraintHasOne);
        }
        if self.clan.data.root != self.root.key {
            return Err(Error::ConstraintHasOne);
        }
        if self.member_authority != self.member.data.owner && self.member_authority
            != self.member.data.delegate {
            return Err(Error::WrongMemberAuthority);
        }
        if self.member.data.token_owner_record != self.member_tor {
            return Err(Error::ConstraintAddress);
        }
        if self.root.data.governance_program != self.governance_program || self.root.data.realm
            != self.realm {
            return Err(Error::ConstraintHasOne);
        }
        let i = match self.member.data.find_entry(self.clan.key) {
            None => {
                return Err(Error::UnexpectedExitingClan);
            },
            Some(i) => i,
        };
        proof {
            lemma_position_of(self.member.data.membership@, i as int);
        }
        let leaving_time = match self.member.data.membership[i].leaving_time {
            None => {
                return Err(Error::UnexpectedExitingClan);
            },
            Some(time) => time,
        };
        let safe_to_exit = match &self.clan_tor {
            Some(record) => record.is_free(),
            None => false,
        };
        if !safe_to_exit && clock.unix_timestamp < leaving_time {
            return Err(Error::TooEarlyToExitClan);
        }
        Ok(i)
    }

    /// Removes the member's entry for the clan. An exit that is
    /// turned down changes nothing.
    pub fn process(&mut self, clock: &Clock) -> (result: Result<ExitClanOutcome, Error>)
        requires
            old(self).member.data.wf(),
            old(self).request_error(clock) is None ==> old(self).clan.data.leaving_members >= 1,
        ensures
            old(self).is_result(clock, final(self), result),
    {
        let i = match self.check_request(clock) {
            Err(error) => {
                return Err(error);
            },
            Ok(i) => i,
        };
        let ghost entries = self.member.data.membership@;
        proof {
            lemma_active_share_total_remove(entries, i as int);
        }
        self.member.data.membership.remove(i);
        self.clan.data.leaving_members -= 1;
        let unlock_required = self.member.data.membership.len() == 0;
        Ok(
            ExitClanOutcome {
                clan_member_left: ClanMemberLeft {
                    member: self.member.key,
                    clan: self.clan.key,
                    root: self.root.key,
                    owner: self.member.data.owner,
                },
                unlock_required,
            },
        )
    }

    /// Does what `process` does where the clan counts a leaving
    /// member; where it counts none, changes nothing and hands back
    /// `None`.
    pub fn try_process(&mut self, clock: &Clock) -> (result: Option<Result<ExitClanOutcome, Error>>)
        requires
            old(self).member.data.wf(),
        ensures
            match result {
                Some(result) => {
                    &&& old(self).request_error(clock) is None ==> old(self).clan.data.leaving_members >= 1
                    &&& old(self).is_result(clock, final(self), result)
                },
                None => {
                    &&& old(self).request_error(clock) is None
                    &&& old(self).clan.data.leaving_members == 0
                    &&& *final(self) == *old(self)
                },
            },
    {
        match self.check_request(clock) {
            Err(error) => Some(Err(error)),
            Ok(_) => {
                if self.clan.data.leaving_members >= 1 {
                    Some(self.process(clock))
                } else {
                    None
                }
            },
        }
    }
}

} // verus!
