//! Configuring a root, by the authority of its realm.

use vstd::prelude::*;
use crate::clock::Clock;
use crate::error::Error;
use crate::events::root::{MaxProposalLifetimeChanged, Paused, Resumed, VoterWeightResetChanged};
use crate::host::Realm;
use crate::pubkey::Pubkey;
use crate::state::account::Account;
use crate::state::root::{Root, VoterWeightReset};

verus! {

/// The accounts of a configuration of a root.
#[derive(Clone, Copy, Debug, PartialEq, Eq)]
pub struct ConfigureRoot {
    /// The root.
    pub root: Account<Root>,
    /// The realm of the root, as the host records it.
    pub realm: Account<Realm>,
    /// Who asks for the configuration.
    pub realm_authority: Pubkey,
}

impl ConfigureRoot {
    /// Why the configuration is not authorised, if it is not: the
    /// realm is not the root's, it has no authority, or its authority
    /// is not the one that asks.
    pub open spec fn authority_error(&self) -> Option<Error> {
        if self.root.data.realm != self.realm.key {
            Some(Error::ConstraintHasOne)
        } else if self.realm.data.authority is None {
            Some(Error::EmptyRealmAuthority)
        } else if self.realm.data.authority != Some(self.realm_authority) {
            Some(Error::WrongRealmAuthority)
        } else {
            None
        }
    }

    /// Checks that the authority of the root's realm asks.
    pub fn check_authority(&self) -> (result: Result<(), Error>)
        ensures
            match self.authority_error() {
                Some(error) => result == Err::<(), Error>(error),
                None => result is Ok,
            },
    {
        if self.root.data.realm != self.realm.key {
            return Err(Error::ConstraintHasOne);
        }
        match self.realm.data.authority {
            None => Err(Error::EmptyRealmAuthority),
            Some(authority) => {
                if authority != self.realm_authority {
                    Err(Error::WrongRealmAuthority)
                } else {
                    Ok(())
                }
            },
        }
    }

    /// Sets the time that a member has to wait between the start of
    /// a leave and its exit. Reports the change, if it is one.
    pub fn set_max_proposal_lifetime(&mut self, new_max_proposal_lifetime: u64) -> (result: Result<
        Option<MaxProposalLifetimeChanged>,
        Error,
    >)
        ensures
            match old(self).authority_error() {
                Some(error) => {
                    &&& result == Err::<Option<MaxProposalLifetimeChanged>, Error>(error)
                    &&& *final(self) == *old(self)
                },
                None => {
                    &&& result matches Ok(event)
                    &&& *final(self) == (ConfigureRoot {
                        root: Account {
                            key: old(self).root.key,
                            data: Root {
                                max_proposal_lifetime: new_max_proposal_lifetime,
                                ..old(self).root.data
                            },
                        },
                        ..*old(self)
                    })
                    &&& event == if new_max_proposal_lifetime != old(self).root.data.max_proposal_lifetime {
                        Some(
                            MaxProposalLifetimeChanged {
                                root: old(self).root.key,
                                old_max_proposal_lifetime: old(self).root.data.max_proposal_lifetime,
                                new_max_proposal_lifetime,
                            },
                        )
                    } else {
                        None
                    }
                },
            },
    {
        match self.check_authority() {
            Err(error) => {
                return Err(error);
            },
            Ok(()) => {},
        }
        let old_max_proposal_lifetime = self.root.data.max_proposal_lifetime;
        self.root.data.max_proposal_lifetime = new_max_proposal_lifetime;
        if new_max_proposal_lifetime != old_max_proposal_lifetime {
            Ok(
                Some(
                    MaxProposalLifetimeChanged {
                        root: self.root.key,
                        old_max_proposal_lifetime,
                        new_max_proposal_lifetime,
                    },
                ),
            )
        } else {
            Ok(None)
        }
    }

    /// The first reset time of a new schedule: the one asked for, or
    /// one step from `now` where none is.
    pub open spec fn first_reset_time(new_step: u64, new_next_reset_time: Option<i64>, now: i64) -> int {
        match new_next_reset_time {
            Some(time) => time as int,
            None => now + new_step,
        }
    }

    /// Why a change of the schedule is turned down, if it is; the
    /// first reason that applies. The next reset time of a schedule
    /// that is set cannot be changed; a new schedule needs a step
    /// above zero and a first reset in the future.
    pub open spec fn reset_error(&self, new_step: u64, new_next_reset_time: Option<i64>, now: i64) -> Option<
        Error,
    > {
        if self.authority_error() is Some {
            self.authority_error()
        } else if self.root.data.voter_weight_reset is Some {
            if new_next_reset_time is Some {
                Some(Error::CanNotChangeNextResetTime)
            } else {
                None
            }
        } else if new_step == 0 {
            Some(Error::InvalidResetStep)
        } else if ConfigureRoot::first_reset_time(new_step, new_next_reset_time, now) <= now {
            Some(Error::InvalidNextResetTime)
        } else {
            None
        }
    }

    /// The schedule after a change that is not turned down: the step
    /// of a schedule that is set is replaced; where none is set, a
    /// new one begins.
    pub open spec fn changed_reset(&self, new_step: u64, new_next_reset_time: Option<i64>, now: i64) -> VoterWeightReset {
        match self.root.data.voter_weight_reset {
            Some(reset) => VoterWeightReset { step: new_step, ..reset },
            None => VoterWeightReset {
                next_reset_time: ConfigureRoot::first_reset_time(
                    new_step,
                    new_next_reset_time,
                    now,
                ) as i64,
                step: new_step,
            },
        }
    }

    /// Whether the schedule after a change leaves room for one more
    /// step: the reset after the next can be stored.
    pub open spec fn reset_fits(&self, new_step: u64, new_next_reset_time: Option<i64>, now: i64) -> bool {
        match self.root.data.voter_weight_reset {
            Some(reset) => reset.next_reset_time + new_step <= i64::MAX,
            None => ConfigureRoot::first_reset_time(new_step, new_next_reset_time, now) + new_step
                <= i64::MAX,
        }
    }

    /// Whether `result` and the accounts `after` are what the change
    /// of the schedule gives: one that is turned down changes
    /// nothing; one that is not sets the schedule.
    pub open spec fn is_reset_result(
        &self,
        new_step: u64,
        new_next_reset_time: Option<i64>,
        clock: &Clock,
        after: &ConfigureRoot,
        result: Result<VoterWeightResetChanged, Error>,
    ) -> bool {
        match self.reset_error(new_step, new_next_reset_time, clock.unix_timestamp) {
            Some(error) => {
                &&& result == Err::<VoterWeightResetChanged, Error>(error)
                &&& *after == *self
            },
            None => {
                let reset = self.changed_reset(
                    new_step,
                    new_next_reset_time,
                    clock.unix_timestamp,
                );
                &&& result == Ok::<VoterWeightResetChanged, Error>(
                    VoterWeightResetChanged {
                        root: self.root.key,
                        old_voter_weight_reset: self.root.data.voter_weight_reset,
                        new_voter_weight_reset: Some(reset),
                    },
                )
                &&& *after == (ConfigureRoot {
                    root: Account {
                        key: self.root.key,
                        data: Root { voter_weight_reset: Some(reset), ..self.root.data },
                    },
                    ..*self
                })
                &&& reset.next_reset_time + reset.step <= i64::MAX
            },
        }
    }

    /// Sets the schedule by which temporary weight is forgotten, or
    /// the step of the schedule that is set. A step of zero makes the
    /// next reset the last one.
    pub fn set_voter_weight_reset(
        &mut self,
        new_step: u64,
        new_next_reset_time: Option<i64>,
        clock: &Clock,
    ) -> (result: Result<VoterWeightResetChanged, Error>)
        requires
            old(self).reset_error(new_step, new_next_reset_time, clock.unix_timestamp) is None
                ==> old(self).reset_fits(new_step, new_next_reset_time, clock.unix_timestamp),
        ensures
            old(self).is_reset_result(new_step, new_next_reset_time, clock, final(self), result),
    {
        match self.check_authority() {
            Err(error) => {
                return Err(error);
            },
            Ok(()) => {},
        }
        let old_voter_weight_reset = self.root.data.voter_weight_reset;
        let reset = match self.root.data.voter_weight_reset {
            Some(reset) => {
                if new_next_reset_time.is_some() {
                    return Err(Error::CanNotChangeNextResetTime);
                }
                VoterWeightReset { next_reset_time: reset.next_reset_time, step: new_step }
            },
            None => {
                if new_step == 0 {
                    return Err(Error::InvalidResetStep);
                }
                let current_time = clock.unix_timestamp;
                let next_reset_time: i128 = match new_next_reset_time {
                    Some(time) => time as i128,
                    None => current_time as i128 + new_step as i128,
                };
                if next_reset_time <= current_time as i128 {
                    return Err(Error::InvalidNextResetTime);
                }
                VoterWeightReset { next_reset_time: next_reset_time as i64, step: new_step }
            },
        };
        self.root.data.voter_weight_reset = Some(reset);
        Ok(
            VoterWeightResetChanged {
                root: self.root.key,
                old_voter_weight_reset,
                new_voter_weight_reset: Some(reset),
            },
        )
    }

    /// Does what `set_voter_weight_reset` does where the schedule
    /// leaves room for one more step; where it does not, changes
    /// nothing and hands back `None`.
    pub fn try_set_voter_weight_reset(
        &mut self,
        new_step: u64,
        new_next_reset_time: Option<i64>,
        clock: &Clock,
    ) -> (result: Option<Result<VoterWeightResetChanged, Error>>)
        ensures
            match result {
                Some(result) => {
                    &&& old(self).reset_error(new_step, new_next_reset_time, clock.unix_timestamp)
                        is None ==> old(self).reset_fits(
                        new_step,
                        new_next_reset_time,
                        clock.unix_timestamp,
                    )
                    &&& old(self).is_reset_result(
                        new_step,
                        new_next_reset_time,
                        clock,
                        final(self),
                        result,
                    )
                },
                None => {
                    &&& old(self).reset_error(new_step, new_next_reset_time, clock.unix_timestamp)
                        is None
                    &&& !old(self).reset_fits(new_step, new_next_reset_time, clock.unix_timestamp)
                    &&& *final(self) == *old(self)
                },
            },
    {
        if self.check_authority().is_ok() {
            let first: Option<i128> = match self.root.data.voter_weight_reset {
                Some(reset) => if new_next_reset_time.is_none() {
                    Some(reset.next_reset_time as i128)
                } else {
                    None
                },
                None => {
                    let now = clock.unix_timestamp as i128;
                    let time: i128 = match new_next_reset_time {
                        Some(time) => time as i128,
                        None => now + new_step as i128,
                    };
                    if new_step != 0 && time > now {
                        Some(time)
                    } else {
                        None
                    }
                },
            };
            if let Some(time) = first {
                if time + new_step as i128 > i64::MAX as i128 {
                    return None;
                }
            }
        }
        Some(self.set_voter_weight_reset(new_step, new_next_reset_time, clock))
    }

    /// Pauses the root. Reports the pause, unless the root was paused.
    pub fn pause(&mut self) -> (result: Result<Option<Paused>, Error>)
        ensures
            match old(self).authority_error() {
                Some(error) => {
                    &&& result == Err::<Option<Paused>, Error>(error)
                    &&& *final(self) == *old(self)
                },
                None => {
                    &&& result matches Ok(event)
                    &&& *final(self) == (ConfigureRoot {
                        root: Account {
                            key: old(self).root.key,
                            data: Root { paused: true, ..old(self).root.data },
                        },
                        ..*old(self)
                    })
                    &&& event == if old(self).root.data.paused {
                        None
                    } else {
                        Some(Paused { root: old(self).root.key })
                    }
                },
            },
    {
        match self.check_authority() {
            Err(error) => {
                return Err(error);
            },
            Ok(()) => {},
        }
        let old_paused = self.root.data.paused;
        self.root.data.paused = true;
        if !old_paused {
            Ok(Some(Paused { root: self.root.key }))
        } else {
            Ok(None)
        }
    }

    /// Resumes the root. Reports it, if the root was paused.
    pub fn resume(&mut self) -> (result: Result<Option<Resumed>, Error>)
        ensures
            match old(self).authority_error() {
                Some(error) => {
                    &&& result == Err::<Option<Resumed>, Error>(error)
                    &&& *final(self) == *old(self)
                },
                None => {
                    &&& result matches Ok(event)
                    &&& *final(self) == (ConfigureRoot {
                        root: Account {
                            key: old(self).root.key,
                            data: Root { paused: false, ..old(self).root.data },
                        },
                        ..*old(self)
                    })
                    &&& event == if old(self).root.data.paused {
                        Some(Resumed { root: old(self).root.key })
                    } else {
                        None
                    }
                },
            },
    {
        match self.check_authority() {
            Err(error) => {
                return Err(error);
            },
            Ok(()) => {},
        }
        let old_paused = self.root.data.paused;
        self.root.data.paused = false;
        if old_paused {
            Ok(Some(Resumed { root: self.root.key }))
        } else {
            Ok(None)
        }
    }
}

} // verus!
