//! Resetting a clan whose root has moved on.

use vstd::prelude::*;
use crate::clock::Clock;
use crate::error::Error;
use crate::state::account::Account;
use crate::state::clan::Clan;
use crate::state::clan_vwr::VoterWeightRecord;
use crate::state::root::Root;

verus! {

/// The accounts of an update of a clan.
#[derive(Clone, Debug, PartialEq, Eq)]
pub struct UpdateClan {
    /// The root of the clan.
    pub root: Account<Root>,
    /// The clan.
    pub clan: Account<Clan>,
    /// The weight record of the clan.
    pub clan_vwr: Account<VoterWeightRecord>,
}

impl UpdateClan {
    /// Why the accounts do not belong together, if they do not.
    pub open spec fn account_error(&self) -> Option<Error> {
        if self.clan.data.root != self.root.key {
            Some(Error::ConstraintHasOne)
        } else if self.clan.data.voter_weight_record != self.clan_vwr.key {
            Some(Error::ConstraintAddress)
        } else {
            None
        }
    }

    /// Whether `result` and the accounts `after` are what the update
    /// gives: one that is turned down changes nothing; one that is
    /// not brings the root's schedule up to date and resets the clan
    /// if that is due.
    pub open spec fn is_result(&self, clock: &Clock, after: &UpdateClan, result: Result<(), Error>) -> bool {
        match self.account_error() {
            Some(error) => {
                &&& result == Err::<(), Error>(error)
                &&& *after == *self
            },
            None => {
                let root = self.root.data.rolled_over(clock.unix_timestamp);
                &&& result is Ok
                &&& *after == (UpdateClan {
                    root: Account { key: self.root.key, data: root },
                    clan: Account {
                        key: self.clan.key,
                        data: self.clan.data.after_reset(&root),
                    },
                    clan_vwr: Account {
                        key: self.clan_vwr.key,
                        data: self.clan.data.record_after_reset(
                            &root,
                            self.clan_vwr.data,
                        ),
                    },
                })
                &&& self.clan.data.wf(&self.clan_vwr.data) ==> after.clan.data.wf(&after.clan_vwr.data)
            },
        }
    }

    /// Checks that the accounts belong together.
    pub fn check_accounts(&self) -> (result: Result<(), Error>)
        ensures
            match self.account_error() {
                Some(error) => result == Err::<(), Error>(error),
                None => result is Ok,
            },
    {
        if self.clan.data.root != self.root.key {
            return Err(Error::ConstraintHasOne);
        }
        if self.clan.data.voter_weight_record != self.clan_vwr.key {
            return Err(Error::ConstraintAddress);
        }
        Ok(())
    }

    /// Brings the root's schedule up to the time of `clock`, and
    /// resets the clan if that is due.
    pub fn process(&mut self, clock: &Clock) -> (result: Result<(), Error>)
        requires
            old(self).account_error() is None ==> old(self).root.data.rollover_fits(
                clock.unix_timestamp,
            ),
        ensures
            old(self).is_result(clock, final(self), result),
    {
        match self.check_accounts() {
            Err(error) => {
                return Err(error);
            },
            Ok(()) => {},
        }
        self.root.data.update_next_voter_weight_reset_time(clock);
        self.clan.data.reset_voter_weight_if_needed(&self.root.data, &mut self.clan_vwr.data);
        Ok(())
    }

    /// Does what `process` does where the root's next reset time can
    /// be stored; where it cannot, changes nothing and hands back
    /// `None`.
    pub fn try_process(&mut self, clock: &Clock) -> (result: Option<Result<(), Error>>)
        ensures
            match result {
                Some(result) => {
                    &&& old(self).account_error() is None ==> old(self).root.data.rollover_fits(
                        clock.unix_timestamp,
                    )
                    &&& old(self).is_result(clock, final(self), result)
                },
                None => {
                    &&& old(self).account_error() is None
                    &&& !old(self).root.data.rollover_fits(clock.unix_timestamp)
                    &&& *final(self) == *old(self)
                },
            },
    {
        match self.check_accounts() {
            Err(error) => Some(Err(error)),
            Ok(()) => {
                if self.root.data.rollover_is_storable(clock) {
                    Some(self.process(clock))
                } else {
                    None
                }
            },
        }
    }
}

} // verus!
