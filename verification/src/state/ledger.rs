//! The arithmetic of a clan's books, over unbounded integers.

use vstd::prelude::*;
use crate::state::member::share_of;

verus! {

/// The numbers that a clan and its weight record keep.
pub struct Ledger {
    /// The weight that the clan publishes.
    pub voter_weight: int,
    /// The part of it that comes from members whose weight does not
    /// expire.
    pub permanent_voter_weight: int,
    /// The number of members whose weight does not expire.
    pub permanent_members: int,
    /// The number of members whose weight expires.
    pub temporary_members: int,
    /// The number of those whose weight has been read since the
    /// clan's last reset.
    pub updated_temporary_members: int,
}

impl Ledger {
    /// The books of a clan without members.
    pub open spec fn empty() -> Ledger {
        Ledger {
            voter_weight: 0,
            permanent_voter_weight: 0,
            permanent_members: 0,
            temporary_members: 0,
            updated_temporary_members: 0,
        }
    }

    /// What holds of the books of every clan: the permanent weight is
    /// part of the published weight, and the updated temporary members
    /// are among the temporary members.
    pub open spec fn wf(self) -> bool {
        &&& 0 <= self.permanent_voter_weight <= self.voter_weight
        &&& 0 <= self.permanent_members
        &&& 0 <= self.updated_temporary_members <= self.temporary_members
    }

    /// Every number can be stored in 64 bits.
    pub open spec fn fits(self) -> bool {
        &&& self.voter_weight <= u64::MAX
        &&& self.permanent_voter_weight <= u64::MAX
        &&& self.permanent_members <= u64::MAX
        &&& self.temporary_members <= u64::MAX
        &&& self.updated_temporary_members <= u64::MAX
    }

    /// Whether the books can hold the contribution of a member with
    /// the given weight and share: a permanent one is part of the
    /// permanent weight, a temporary one that is up to date is part of
    /// the rest of the weight, and one that is outdated is among the
    /// temporary members that are not updated.
    pub open spec fn holds(self, weight: u64, share_bp: u16, permanent: bool, outdated: bool) -> bool {
        if permanent {
            self.permanent_members >= 1 && self.permanent_voter_weight >= share_of(weight, share_bp)
        } else if outdated {
            self.temporary_members > self.updated_temporary_members
        } else {
            self.updated_temporary_members >= 1 && self.voter_weight - self.permanent_voter_weight
                >= share_of(weight, share_bp)
        }
    }

    /// The books after a member with the given weight and share has
    /// been taken out. The weight of an outdated temporary member is
    /// not in the published weight and stays out of it.
    pub open spec fn withdraw(self, weight: u64, share_bp: u16, permanent: bool, outdated: bool) -> Ledger {
        let amount = share_of(weight, share_bp);
        if permanent {
            Ledger {
                voter_weight: self.voter_weight - amount,
                permanent_voter_weight: self.permanent_voter_weight - amount,
                permanent_members: self.permanent_members - 1,
                ..self
            }
        } else if outdated {
            Ledger { temporary_members: self.temporary_members - 1, ..self }
        } else {
            Ledger {
                voter_weight: self.voter_weight - amount,
                temporary_members: self.temporary_members - 1,
                updated_temporary_members: self.updated_temporary_members - 1,
                ..self
            }
        }
    }

    /// The books after a member with the given weight and share has
    /// been put in. A temporary member counts as updated.
    pub open spec fn deposit(self, weight: u64, share_bp: u16, permanent: bool) -> Ledger {
        let amount = share_of(weight, share_bp);
        if permanent {
            Ledger {
                voter_weight: self.voter_weight + amount,
                permanent_voter_weight: self.permanent_voter_weight + amount,
                permanent_members: self.permanent_members + 1,
                ..self
            }
        } else {
            Ledger {
                voter_weight: self.voter_weight + amount,
                temporary_members: self.temporary_members + 1,
                updated_temporary_members: self.updated_temporary_members + 1,
                ..self
            }
        }
    }

    /// The books after a reset: all temporary weight is forgotten and
    /// no temporary member counts as updated.
    pub open spec fn reset(self) -> Ledger {
        Ledger {
            voter_weight: self.permanent_voter_weight,
            updated_temporary_members: 0,
            ..self
        }
    }
}

} // verus!
