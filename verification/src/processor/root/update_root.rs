//! Bringing the schedule of a root up to date.

use vstd::prelude::*;
use crate::clock::Clock;
use crate::state::account::Account;
use crate::state::root::Root;

verus! {

/// The accounts of an update of a root.
#[derive(Clone, Copy, Debug, PartialEq, Eq)]
pub struct UpdateRoot {
    /// The root.
    pub root: Account<Root>,
}

impl UpdateRoot {
    /// Brings the root's schedule up to the time of `clock`.
    pub fn process(&mut self, clock: &Clock)
        requires
            old(self).root.data.rollover_fits(clock.unix_timestamp),
        ensures
            final(self).root.key == old(self).root.key,
            final(self).root.data == old(self).root.data.rolled_over(clock.unix_timestamp),
    {
        self.root.data.update_next_voter_weight_reset_time(clock);
    }

    /// Does what `process` does where the root's next reset time can
    /// be stored, and says whether it did; where it cannot, changes
    /// nothing.
    pub fn try_process(&mut self, clock: &Clock) -> (updated: bool)
        ensures
            updated == old(self).root.data.rollover_fits(clock.unix_timestamp),
            updated ==> final(self).root.key == old(self).root.key && final(self).root.data == old(self).root.data.rolled_over(clock.unix_timestamp),
            !updated ==> *final(self) == *old(self),
    {
        if self.root.data.rollover_is_storable(clock) {
            self.process(clock);
            true
        } else {
            false
        }
    }
}

} // verus!
