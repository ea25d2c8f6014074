//! A clan: the pooled weight of its members.

use vstd::prelude::*;
use crate::clock::Clock;
use crate::error::Error;
use crate::events::clan::ClanVoterWeightChanged;
use crate::pubkey::Pubkey;
use crate::state::account::Account;
use crate::state::clan_vwr::VoterWeightRecord;
use crate::state::ledger::Ledger;
use crate::state::member::{lemma_share_of_bounds, weight_share, Member, MAX_SHARE_BP};
use crate::state::root::Root;

verus! {

/// The bump seeds of the addresses derived for a clan.
#[derive(Clone, Copy, Debug, PartialEq, Eq, Structural)]
pub struct ClanBumps {
    pub voter_authority: u8,
    pub token_owner_record: u8,
    pub voter_weight_record: u8,
}

/// A group of members that votes with their pooled weight.
#[derive(Clone, Debug, PartialEq, Eq)]
pub struct Clan {
    pub root: Pubkey,
    pub owner: Pubkey,
    pub delegate: Pubkey,
    pub voter_authority: Pubkey,
    pub token_owner_record: Pubkey,
    pub voter_weight_record: Pubkey,
    /// The weight that a member's share must reach to join.
    pub min_voting_weight_to_join: u64,
    /// The number of members whose weight does not expire.
    pub permanent_members: u64,
    /// The number of members whose weight expires.
    pub temporary_members: u64,
    /// The number of temporary members whose weight has been read
    /// since the clan's last reset.
    pub updated_temporary_members: u64,
    /// The number of members that are leaving.
    pub leaving_members: u64,
    /// Whether members whose weight expires may join.
    pub accept_temporary_members: bool,
    /// The part of the clan's weight that does not expire.
    pub permanent_voter_weight: u64,
    /// The reset time of the root when the clan was last reset.
    pub next_voter_weight_reset_time: Option<i64>,
    pub name: String,
    pub description: String,
    pub bumps: ClanBumps,
}

/// The weight that a posting puts in: that of the fresh record, or
/// the member's cached weight where there is none.
pub open spec fn posted_weight(member: &Member, new_member_vwr: Option<&VoterWeightRecord>) -> u64 {
    match new_member_vwr {
        Some(record) => record.voter_weight,
        None => member.voter_weight,
    }
}

/// The expiry of the weight that a posting puts in.
pub open spec fn posted_expiry(member: &Member, new_member_vwr: Option<&VoterWeightRecord>) -> Option<u64> {
    match new_member_vwr {
        Some(record) => record.voter_weight_expiry,
        None => member.voter_weight_expiry,
    }
}

impl Clan {
    /// The numbers that the clan and its weight record keep.
    pub open spec fn ledger(&self, clan_vwr: &VoterWeightRecord) -> Ledger {
        Ledger {
            voter_weight: clan_vwr.voter_weight as int,
            permanent_voter_weight: self.permanent_voter_weight as int,
            permanent_members: self.permanent_members as int,
            temporary_members: self.temporary_members as int,
            updated_temporary_members: self.updated_temporary_members as int,
        }
    }

    /// What holds of every clan and its weight record between
    /// operations: the books are well formed, and the record expires
    /// exactly if it holds temporary weight.
    pub open spec fn wf(&self, clan_vwr: &VoterWeightRecord) -> bool {
        &&& self.ledger(clan_vwr).wf()
        &&& clan_vwr.voter_weight_expiry is None <==> clan_vwr.voter_weight
            == self.permanent_voter_weight
    }

    /// Whether the member's cached weight is temporary and was read
    /// under another reset time than the clan's. The clan's last reset
    /// has then dropped the member's contribution already.
    pub open spec fn is_outdated(&self, member: &Member) -> bool {
        member.voter_weight_expiry is Some && member.next_voter_weight_reset_time
            != self.next_voter_weight_reset_time
    }

    /// Whether a posting with the given fresh record is turned down:
    /// the record expires and the clan accepts no temporary members.
    pub open spec fn rejects(&self, new_member_vwr: Option<&VoterWeightRecord>) -> bool {
        new_member_vwr matches Some(record) && record.voter_weight_expiry is Some
            && !self.accept_temporary_members
    }

    /// The books once the member's contribution under `old_share_bp`
    /// has been taken out.
    pub open spec fn ledger_without(
        &self,
        clan_vwr: &VoterWeightRecord,
        member: &Member,
        old_share_bp: Option<u16>,
    ) -> Ledger {
        match old_share_bp {
            Some(share_bp) => self.ledger(clan_vwr).withdraw(
                member.voter_weight,
                share_bp,
                member.is_permanent(),
                self.is_outdated(member),
            ),
            None => self.ledger(clan_vwr),
        }
    }

    /// The books after a posting: the member's contribution under
    /// `old_share_bp` is taken out, and its contribution under
    /// `new_share_bp`, with the weight of the fresh record if there is
    /// one, is put in.
    pub open spec fn posted_ledger(
        &self,
        clan_vwr: &VoterWeightRecord,
        member: &Member,
        old_share_bp: Option<u16>,
        new_member_vwr: Option<&VoterWeightRecord>,
        new_share_bp: Option<u16>,
    ) -> Ledger {
        let without = self.ledger_without(clan_vwr, member, old_share_bp);
        match new_share_bp {
            Some(share_bp) => without.deposit(
                posted_weight(member, new_member_vwr),
                share_bp,
                posted_expiry(member, new_member_vwr) is None,
            ),
            None => without,
        }
    }

    /// Whether a posting can be carried out on these books: they are
    /// well formed, they hold the contribution that is taken out, no
    /// share exceeds the whole, and the result can be stored.
    pub open spec fn can_post(
        &self,
        clan_vwr: &VoterWeightRecord,
        member: &Member,
        old_share_bp: Option<u16>,
        new_member_vwr: Option<&VoterWeightRecord>,
        new_share_bp: Option<u16>,
    ) -> bool {
        &&& self.ledger(clan_vwr).wf()
        &&& old_share_bp matches Some(share_bp) ==> share_bp <= MAX_SHARE_BP && self.ledger(
            clan_vwr,
        ).holds(member.voter_weight, share_bp, member.is_permanent(), self.is_outdated(member))
        &&& new_share_bp matches Some(share_bp) ==> share_bp <= MAX_SHARE_BP
        &&& self.posted_ledger(clan_vwr, member, old_share_bp, new_member_vwr, new_share_bp).fits()
    }

    /// The clan after a posting that led to the books `ledger`.
    pub open spec fn with_ledger(self, ledger: Ledger) -> Clan {
        Clan {
            permanent_voter_weight: ledger.permanent_voter_weight as u64,
            permanent_members: ledger.permanent_members as u64,
            temporary_members: ledger.temporary_members as u64,
            updated_temporary_members: ledger.updated_temporary_members as u64,
            ..self
        }
    }

    /// The weight record after a posting in slot `slot` that led to
    /// the books `ledger`: it does not expire if all its weight is
    /// permanent, and expires in `slot` otherwise.
    pub open spec fn record_with_ledger(clan_vwr: VoterWeightRecord, ledger: Ledger, slot: u64) -> VoterWeightRecord {
        VoterWeightRecord {
            voter_weight: ledger.voter_weight as u64,
            voter_weight_expiry: if ledger.voter_weight == ledger.permanent_voter_weight {
                None
            } else {
                Some(slot)
            },
            ..clan_vwr
        }
    }

    /// What is reported of a posting that has taken a clan and its
    /// weight record to the state `after` and `after_vwr`.
    pub open spec fn weight_change(
        clan: &Account<Clan>,
        clan_vwr: &VoterWeightRecord,
        after: &Clan,
        after_vwr: &VoterWeightRecord,
    ) -> ClanVoterWeightChanged {
        ClanVoterWeightChanged {
            clan: clan.key,
            root: clan.data.root,
            old_voter_weight: clan_vwr.voter_weight,
            new_voter_weight: after_vwr.voter_weight,
            old_permament_voter_weight: clan.data.permanent_voter_weight,
            new_permament_voter_weight: after.permanent_voter_weight,
            old_is_permanent: clan_vwr.voter_weight_expiry is None,
            new_is_permanent: after_vwr.voter_weight_expiry is None,
        }
    }

    /// The clan once `root`'s schedule has been taken into account.
    /// Under a schedule whose reset time lies after the clan's, the
    /// clan takes over that time and no temporary member counts as
    /// updated; without a schedule the clan has no reset time.
    pub open spec fn after_reset(self, root: &Root) -> Clan {
        match root.voter_weight_reset {
            Some(reset) => if self.reset_is_due(root) {
                Clan {
                    next_voter_weight_reset_time: Some(reset.next_reset_time),
                    updated_temporary_members: 0,
                    ..self
                }
            } else {
                self
            },
            None => Clan { next_voter_weight_reset_time: None, ..self },
        }
    }

    /// Whether `root` has a schedule whose reset time lies after the
    /// clan's, or the clan has none.
    pub open spec fn reset_is_due(&self, root: &Root) -> bool {
        root.voter_weight_reset matches Some(reset) && (self.next_voter_weight_reset_time matches Some(
            time,
        ) ==> time < reset.next_reset_time)
    }

    /// The weight record of the clan once `root`'s schedule has been
    /// taken into account: where a reset is due, only the permanent
    /// weight is left, and it does not expire.
    pub open spec fn record_after_reset(&self, root: &Root, clan_vwr: VoterWeightRecord) -> VoterWeightRecord {
        if self.reset_is_due(root) {
            VoterWeightRecord {
                voter_weight: self.permanent_voter_weight,
                voter_weight_expiry: None,
                ..clan_vwr
            }
        } else {
            clan_vwr
        }
    }

    /// Computes `can_post` for the clan and its record as they are
    /// once `root`'s schedule has been taken into account.
    pub fn can_post_after_reset(
        &self,
        clan_vwr: &VoterWeightRecord,
        root: &Root,
        member: &Member,
        old_share_bp: Option<u16>,
        new_member_vwr: Option<&VoterWeightRecord>,
        new_share_bp: Option<u16>,
    ) -> (possible: bool)
        ensures
            possible == self.after_reset(root).can_post(
                &self.record_after_reset(root, *clan_vwr),
                member,
                old_share_bp,
                new_member_vwr,
                new_share_bp,
            ),
    {
        let due = match root.voter_weight_reset {
            Some(reset) => match self.next_voter_weight_reset_time {
                None => true,
                Some(time) => time < reset.next_reset_time,
            },
            None => false,
        };
        let time = match root.voter_weight_reset {
            Some(reset) => if due {
                Some(reset.next_reset_time)
            } else {
                self.next_voter_weight_reset_time
            },
            None => None,
        };
        let mut voter_weight: u128 = if due {
            self.permanent_voter_weight as u128
        } else {
            clan_vwr.voter_weight as u128
        };
        let mut permanent_voter_weight: u128 = self.permanent_voter_weight as u128;
        let mut permanent_members: u128 = self.permanent_members as u128;
        let mut temporary_members: u128 = self.temporary_members as u128;
        let mut updated_temporary_members: u128 = if due {
            0
        } else {
            self.updated_temporary_members as u128
        };
        if permanent_voter_weight > voter_weight || updated_temporary_members > temporary_members {
            return false;
        }
        if let Some(share_bp) = old_share_bp {
            if share_bp > MAX_SHARE_BP {
                return false;
            }
            proof {
                lemma_share_of_bounds(member.voter_weight, share_bp);
            }
            let amount = weight_share(member.voter_weight, share_bp);
            if member.voter_weight_expiry.is_none() {
                if permanent_members < 1 || permanent_voter_weight < amount {
                    return false;
                }
                voter_weight -= amount;
                permanent_voter_weight -= amount;
                permanent_members -= 1;
            } else if !same_time(member.next_voter_weight_reset_time, time) {
                if temporary_members <= updated_temporary_members {
                    return false;
                }
                temporary_members -= 1;
            } else {
                if updated_temporary_members < 1 || voter_weight - permanent_voter_weight < amount {
                    return false;
                }
                voter_weight -= amount;
                temporary_members -= 1;
                updated_temporary_members -= 1;
            }
        }
        if let Some(share_bp) = new_share_bp {
            if share_bp > MAX_SHARE_BP {
                return false;
            }
            let (weight, expiry) = match new_member_vwr {
                Some(record) => (record.voter_weight, record.voter_weight_expiry),
                None => (member.voter_weight, member.voter_weight_expiry),
            };
            proof {
                lemma_share_of_bounds(weight, share_bp);
            }
            let amount = weight_share(weight, share_bp);
            voter_weight += amount;
            if expiry.is_none() {
                permanent_voter_weight += amount;
                permanent_members += 1;
            } else {
                temporary_members += 1;
                updated_temporary_members += 1;
            }
        }
        voter_weight <= u64::MAX as u128 && permanent_voter_weight <= u64::MAX as u128
            && permanent_members <= u64::MAX as u128 && temporary_members <= u64::MAX as u128
            && updated_temporary_members <= u64::MAX as u128
    }

    /// Forgets the temporary weight of the clan if `root`'s schedule
    /// has moved on since the clan was last reset.
    pub fn reset_voter_weight_if_needed(&mut self, root: &Root, clan_vwr: &mut VoterWeightRecord)
        ensures
            *final(self) == old(self).after_reset(root),
            *final(clan_vwr) == old(self).record_after_reset(root, *old(clan_vwr)),
            old(self).wf(old(clan_vwr)) ==> final(self).wf(final(clan_vwr)),
            old(self).reset_is_due(root) ==> final(self).ledger(final(clan_vwr)) == old(
                self,
            ).ledger(old(clan_vwr)).reset(),
            !old(self).reset_is_due(root) ==> final(self).ledger(final(clan_vwr)) == old(
                self,
            ).ledger(old(clan_vwr)),
    {
        match root.voter_weight_reset {
            Some(reset) => {
                let due = match self.next_voter_weight_reset_time {
                    None => true,
                    Some(time) => time < reset.next_reset_time,
                };
                if due {
                    self.next_voter_weight_reset_time = Some(reset.next_reset_time);
                    clan_vwr.voter_weight = self.permanent_voter_weight;
                    clan_vwr.voter_weight_expiry = None;
                    self.updated_temporary_members = 0;
                }
            },
            None => {
                self.next_voter_weight_reset_time = None;
            },
        }
    }

    /// Posts a change of one member to the books of the clan: takes
    /// out the member's contribution under `old_share_bp` (`None`: it
    /// was no member), puts in its contribution under `new_share_bp`
    /// (`None`: it will be no member) with the weight of
    /// `new_member_vwr` (`None`: the member's cached weight), and sets
    /// the expiry of the clan's record. Reports the weight of the clan
    /// before and after.
    pub fn update_member(
        clan: &mut Account<Clan>,
        member: &Member,
        old_share_bp: Option<u16>,
        new_member_vwr: Option<&VoterWeightRecord>,
        new_share_bp: Option<u16>,
        clan_vwr: &mut VoterWeightRecord,
        clock: &Clock,
    ) -> (result: Result<ClanVoterWeightChanged, Error>)
        requires
            !old(clan).data.rejects(new_member_vwr) ==> old(clan).data.can_post(
                old(clan_vwr),
                member,
                old_share_bp,
                new_member_vwr,
                new_share_bp,
            ),
        ensures
            old(clan).data.rejects(new_member_vwr) ==> {
                &&& result == Err::<ClanVoterWeightChanged, Error>(
                    Error::TemporaryMembersNotAllowed,
                )
                &&& *final(clan) == *old(clan)
                &&& *final(clan_vwr) == *old(clan_vwr)
            },
            !old(clan).data.rejects(new_member_vwr) ==> {
                let ledger = old(clan).data.posted_ledger(
                    old(clan_vwr),
                    member,
                    old_share_bp,
                    new_member_vwr,
                    new_share_bp,
                );
                &&& result matches Ok(event)
                &&& final(clan).key == old(clan).key
                &&& final(clan).data == old(clan).data.with_ledger(ledger)
                &&& *final(clan_vwr) == Clan::record_with_ledger(*old(clan_vwr), ledger, clock.slot)
                &&& final(clan).data.ledger(final(clan_vwr)) == ledger
                &&& final(clan).data.wf(final(clan_vwr))
                &&& event == Clan::weight_change(
                    old(clan),
                    old(clan_vwr),
                    &final(clan).data,
                    final(clan_vwr),
                )
            },
    {
        if let Some(record) = new_member_vwr {
            if record.voter_weight_expiry.is_some() && !clan.data.accept_temporary_members {
                return Err(Error::TemporaryMembersNotAllowed);
            }
        }
        let old_clan_voter_weight = clan_vwr.voter_weight;
        let old_clan_voter_weight_expiry = clan_vwr.voter_weight_expiry;
        let old_permanent_clan_voter_weight = clan.data.permanent_voter_weight;

        if let Some(share_bp) = old_share_bp {
            proof {
                lemma_share_of_bounds(member.voter_weight, share_bp);
            }
            let old_member_voter_weight = weight_share(member.voter_weight, share_bp) as u64;
            let is_outdated = member.voter_weight_expiry.is_some() && !same_time(
                member.next_voter_weight_reset_time,
                clan.data.next_voter_weight_reset_time,
            );
            if !is_outdated {
                clan_vwr.voter_weight -= old_member_voter_weight;
            }
            if member.voter_weight_expiry.is_none() {
                clan.data.permanent_voter_weight -= old_member_voter_weight;
                clan.data.permanent_members -= 1;
            } else {
                clan.data.temporary_members -= 1;
                if !is_outdated {
                    clan.data.updated_temporary_members -= 1;
                }
            }
        }
        assert(clan.data.ledger(clan_vwr) == old(clan).data.ledger_without(
            old(clan_vwr),
            member,
            old_share_bp,
        ));

        if let Some(share_bp) = new_share_bp {
            let (weight, expiry) = match new_member_vwr {
                Some(record) => (record.voter_weight, record.voter_weight_expiry),
                None => (member.voter_weight, member.voter_weight_expiry),
            };
            proof {
                lemma_share_of_bounds(weight, share_bp);
            }
            let new_member_voter_weight = weight_share(weight, share_bp) as u64;
            clan_vwr.voter_weight += new_member_voter_weight;
            if expiry.is_none() {
                clan.data.permanent_voter_weight += new_member_voter_weight;
                clan.data.permanent_members += 1;
            } else {
                clan.data.temporary_members += 1;
                clan.data.updated_temporary_members += 1;
            }
        }

        clan_vwr.voter_weight_expiry = if clan.data.permanent_voter_weight == clan_vwr.voter_weight {
            None
        } else {
            Some(clock.slot)
        };

        Ok(
            ClanVoterWeightChanged {
                clan: clan.key,
                root: clan.data.root,
                old_voter_weight: old_clan_voter_weight,
                new_voter_weight: clan_vwr.voter_weight,
                old_permament_voter_weight: old_permanent_clan_voter_weight,
                new_permament_voter_weight: clan.data.permanent_voter_weight,
                old_is_permanent: old_clan_voter_weight_expiry.is_none(),
                new_is_permanent: clan_vwr.voter_weight_expiry.is_none(),
            },
        )
    }

    /// Whether the published weight of the clan is up to date at the
    /// time `now`: `root` has no schedule, or the clan's reset time
    /// lies ahead and every temporary member is updated.
    pub open spec fn spec_is_updated(&self, root: &Root, now: i64) -> bool {
        root.voter_weight_reset is None || (self.next_voter_weight_reset_time matches Some(time)
            && now < time && self.updated_temporary_members == self.temporary_members)
    }

    /// Whether the published weight of the clan can be relied on at
    /// the time of `clock`.
    pub fn is_updated(&self, root: &Root, clock: &Clock) -> (updated: bool)
        ensures
            updated == self.spec_is_updated(root, clock.unix_timestamp),
    {
        if root.voter_weight_reset.is_none() {
            return true;
        }
        match self.next_voter_weight_reset_time {
            Some(time) => clock.unix_timestamp < time && self.updated_temporary_members
                == self.temporary_members,
            None => false,
        }
    }
}

/// Whether two optional times are the same.
pub fn same_time(a: Option<i64>, b: Option<i64>) -> (same: bool)
    ensures
        same == (a == b),
{
    match (a, b) {
        (Some(x), Some(y)) => x == y,
        (None, None) => true,
        _ => false,
    }
}

} // verus!
