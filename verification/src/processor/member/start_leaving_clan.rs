//! Beginning to leave a clan.

use vstd::prelude::*;
use crate::clock::Clock;
use crate::error::Error;
use crate::events::clan::ClanVoterWeightChanged;
use crate::events::member::StartingLeavingClan;
use crate::pubkey::Pubkey;
use crate::state::account::Account;
use crate::state::clan::Clan;
use crate::state::clan_vwr::VoterWeightRecord;
use crate::state::ledger::Ledger;
use crate::state::member::{
    lemma_active_share_total_update, lemma_position_of, position_of, Member, MembershipEntry,
};
use crate::state::root::Root;

verus! {

/// The accounts of the start of a leave.
#[derive(Clone, Debug, PartialEq, Eq)]
pub struct StartLeavingClan {
    /// The member that leaves.
    pub member: Account<Member>,
    /// The root of member and clan.
    pub root: Account<Root>,
    /// The clan that is left.
    pub clan: Account<Clan>,
    /// The weight record of the clan.
    pub clan_vwr: Account<VoterWeightRecord>,
    /// Who asks for the leave.
    pub member_authority: Pubkey,
}

/// What the start of a leave hands back: the notifications for
/// observers.
#[derive(Clone, Copy, Debug, PartialEq, Eq)]
pub struct StartLeavingClanOutcome {
    pub clan_voter_weight_changed: ClanVoterWeightChanged,
    pub starting_leaving_clan: StartingLeavingClan,
}

/// The time from which a member that starts to leave at `now` may
/// exit, under a waiting time of `max_proposal_lifetime`.
pub open spec fn leaving_time_at(now: i64, max_proposal_lifetime: u64) -> int {
    now + max_proposal_lifetime
}

impl StartLeavingClan {
    /// Why the accounts do not belong together, if they do not.
    pub open spec fn account_error(&self) -> Option<Error> {
        if self.member.data.root != self.root.key {
            Some(Error::ConstraintHasOne)
        } else if self.clan.data.root != self.root.key {
            Some(Error::ConstraintHasOne)
        } else if self.clan.data.voter_weight_record != self.clan_vwr.key {
            Some(Error::ConstraintSeeds)
        } else if self.member_authority != self.member.data.owner && self.member_authority
            != self.member.data.delegate {
            Some(Error::WrongMemberAuthority)
        } else {
            None
        }
    }

    /// Why the leave is turned down, if it is; the first reason that
    /// applies. The member must be in the clan and not leaving it.
    pub open spec fn request_error(&self) -> Option<Error> {
        let entries = self.member.data.membership@;
        if self.account_error() is Some {
            self.account_error()
        } else if position_of(entries, self.clan.key) is None {
            Some(Error::UnexpectedClan)
        } else if !entries[position_of(entries, self.clan.key).unwrap()].is_active() {
            Some(Error::RerequestingLeavingClan)
        } else {
            None
        }
    }

    /// The books of the clan once the member's contribution has been
    /// taken out.
    pub open spec fn left_ledger(&self, clock: &Clock) -> Ledger {
        let root = self.root.data.rolled_over(clock.unix_timestamp);
        let entries = self.member.data.membership@;
        self.clan.data.after_reset(&root).posted_ledger(
            &self.clan.data.record_after_reset(&root, self.clan_vwr.data),
            &self.member.data,
            Some(entries[position_of(entries, self.clan.key).unwrap()].share_bp),
            None,
            None,
        )
    }

    /// Whether the numbers that the leave leads to can be computed
    /// and stored: the time of the exit, the root's next reset time,
    /// the books of the clan, and its number of leaving members.
    pub open spec fn fits(&self, clock: &Clock) -> bool {
        let root = self.root.data.rolled_over(clock.unix_timestamp);
        let entries = self.member.data.membership@;
        &&& leaving_time_at(clock.unix_timestamp, self.root.data.max_proposal_lifetime) <= i64::MAX
        &&& self.root.data.rollover_fits(clock.unix_timestamp)
        &&& self.clan.data.after_reset(&root).can_post(
            &self.clan.data.record_after_reset(&root, self.clan_vwr.data),
            &self.member.data,
            Some(entries[position_of(entries, self.clan.key).unwrap()].share_bp),
            None,
            None,
        )
        &&& self.clan.data.leaving_members < u64::MAX
    }

    /// The member's entries once it has started to leave the clan at
    /// the time of `clock`.
    pub open spec fn leaving_membership(&self, clock: &Clock) -> Seq<MembershipEntry> {
        let entries = self.member.data.membership@;
        let i = position_of(entries, self.clan.key).unwrap();
        entries.update(
            i,
            MembershipEntry {
                leaving_time: Some(
                    leaving_time_at(clock.unix_timestamp, self.root.data.max_proposal_lifetime) as i64,
                ),
                ..entries[i]
            },
        )
    }

    /// Whether `result` and the accounts `after` are what the start
    /// of the leave gives: one that is turned down changes nothing;
    /// one that is not marks the member's entry as leaving and takes
    /// the member's contribution out of the clan.
    pub open spec fn is_result(
        &self,
        clock: &Clock,
        after: &StartLeavingClan,
        result: Result<StartLeavingClanOutcome, Error>,
    ) -> bool {
        match self.request_error() {
            Some(error) => {
                &&& result == Err::<StartLeavingClanOutcome, Error>(error)
                &&& *after == *self
            },
            None => {
                let root = self.root.data.rolled_over(clock.unix_timestamp);
                let ledger = self.left_ledger(clock);
                &&& result matches Ok(outcome)
                &&& after.member_authority == self.member_authority
                &&& after.root.key == self.root.key
                &&& after.root.data == root
                &&& after.member.key == self.member.key
                &&& after.member.data == (Member {
                    membership: after.member.data.membership,
                    ..self.member.data
                })
                &&& after.member.data.membership@ == self.leaving_membership(clock)
                &&& after.member.data.wf()
                &&& after.clan.key == self.clan.key
                &&& after.clan.data == (Clan {
                    leaving_members: (self.clan.data.leaving_members + 1) as u64,
                    ..self.clan.data.after_reset(&root).with_ledger(ledger)
                })
                &&& after.clan_vwr.key == self.clan_vwr.key
                &&& after.clan_vwr.data == Clan::record_with_ledger(
                    self.clan.data.record_after_reset(&root, self.clan_vwr.data),
                    ledger,
                    clock.slot,
                )
                &&& after.clan.data.wf(&after.clan_vwr.data)
                &&& outcome.clan_voter_weight_changed == Clan::weight_change(
                    &Account {
                        key: self.clan.key,
                        data: self.clan.data.after_reset(&root),
                    },
                    &self.clan.data.record_after_reset(&root, self.clan_vwr.data),
                    &after.clan.data,
                    &after.clan_vwr.data,
                )
                &&& outcome.starting_leaving_clan == (StartingLeavingClan {
                    member: self.member.key,
                    clan: self.clan.key,
                    root: self.root.key,
                    owner: self.member.data.owner,
                })
            },
        }
    }

    /// Looks for a reason to turn the leave down. Where there is
    /// none, hands back the position of the member's entry for the
    /// clan.
    pub fn check_request(&self) -> (result: Result<usize, Error>)
        requires
            self.member.data.wf(),
        ensures
            match self.request_error() {
                Some(error) => result == Err::<usize, Error>(error),
                None => result matches Ok(i) && position_of(
                    self.member.data.membership@,
                    self.clan.key,
                ) == Some(i as int) && i < self.member.data.membership@.len(),
            },
    {
        if self.member.data.root != self.root.key {
            return Err(Error::ConstraintHasOne);
        }
        if self.clan.data.root != self.root.key {
            return Err(Error::ConstraintHasOne);
        }
        if self.clan.data.voter_weight_record != self.clan_vwr.key {
            return Err(Error::ConstraintSeeds);
        }
        if self.member_authority != self.member.data.owner && self.member_authority
            != self.member.data.delegate {
            return Err(Error::WrongMemberAuthority);
        }
        let i = match self.member.data.find_entry(self.clan.key) {
            None => {
                return Err(Error::UnexpectedClan);
            },
            Some(i) => i,
        };
        proof {
            lemma_position_of(self.member.data.membership@, i as int);
        }
        let entry = self.member.data.membership[i];
        if entry.leaving_time.is_some() {
            return Err(Error::RerequestingLeavingClan);
        }
        Ok(i)
    }

    /// Computes `fits` for a leave that is not turned down.
    fn is_storable(&self, clock: &Clock) -> (fits: bool)
        requires
            self.member.data.wf(),
            self.request_error() is None,
        ensures
            fits == self.fits(clock),
    {
        let i = match self.member.data.find_entry(self.clan.key) {
            None => {
                return false;
            },
            Some(i) => i,
        };
        proof {
            lemma_position_of(self.member.data.membership@, i as int);
        }
        if clock.unix_timestamp as i128 + self.root.data.max_proposal_lifetime as i128
            > i64::MAX as i128 {
            return false;
        }
        if !self.root.data.rollover_is_storable(clock) {
            return false;
        }
        let mut root = self.root.data;
        root.update_next_voter_weight_reset_time(clock);
        self.clan.data.can_post_after_reset(
            &self.clan_vwr.data,
            &root,
            &self.member.data,
            Some(self.member.data.membership[i].share_bp),
            None,
            None,
        ) && self.clan.data.leaving_members < u64::MAX
    }

    /// Starts the member's leave from the clan: from now on the
    /// member contributes no weight to the clan, and it may exit once
    /// the root's waiting time has passed. A leave that is turned down
    /// changes nothing.
    pub fn process(&mut self, clock: &Clock) -> (result: Result<StartLeavingClanOutcome, Error>)
        requires
            old(self).member.data.wf(),
            old(self).request_error() is None ==> old(self).fits(clock),
        ensures
            old(self).is_result(clock, final(self), result),
    {
        let i = match self.check_request() {
            Err(error) => {
                return Err(error);
            },
            Ok(i) => i,
        };
        let ghost entries = self.member.data.membership@;
        let entry = self.member.data.membership[i];
        let leaving_time: i64 = (clock.unix_timestamp as i128
            + self.root.data.max_proposal_lifetime as i128) as i64;
        proof {
            lemma_active_share_total_update(
                entries,
                i as int,
                MembershipEntry { leaving_time: Some(leaving_time), ..entry },
            );
        }
        self.member.data.membership[i].leaving_time = Some(leaving_time);

        self.root.data.update_next_voter_weight_reset_time(clock);
        self.clan.data.reset_voter_weight_if_needed(&self.root.data, &mut self.clan_vwr.data);
        let clan_voter_weight_changed = match Clan::update_member(
            &mut self.clan,
            &self.member.data,
            Some(entry.share_bp),
            None,
            None,
            &mut self.clan_vwr.data,
            clock,
        ) {
            Ok(event) => event,
            Err(error) => {
                return Err(error);
            },
        };
        self.clan.data.leaving_members += 1;
        Ok(
            StartLeavingClanOutcome {
                clan_voter_weight_changed,
                starting_leaving_clan: StartingLeavingClan {
                    member: self.member.key,
                    clan: self.clan.key,
                    root: self.root.key,
                    owner: self.member.data.owner,
                },
            },
        )
    }

    /// Does what `process` does where the numbers that the leave
    /// leads to can be computed and stored; where they cannot, changes
    /// nothing and hands back `None`.
    pub fn try_process(&mut self, clock: &Clock) -> (result: Option<
        Result<StartLeavingClanOutcome, Error>,
    >)
        requires
            old(self).member.data.wf(),
        ensures
            match result {
                Some(result) => {
                    &&& old(self).request_error() is None ==> old(self).fits(clock)
                    &&& old(self).is_result(clock, final(self), result)
                },
                None => {
                    &&& old(self).request_error() is None
                    &&& !old(self).fits(clock)
                    &&& *final(self) == *old(self)
                },
            },
    {
        match self.check_request() {
            Err(error) => Some(Err(error)),
            Ok(_) => {
                if self.is_storable(clock) {
                    Some(self.process(clock))
                } else {
                    None
                }
            },
        }
    }
}

} // verus!
