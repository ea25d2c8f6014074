//! Joining a clan, or raising the share of a clan that was joined.

use vstd::prelude::*;
use crate::clock::Clock;
use crate::error::Error;
use crate::events::clan::{ClanMemberAdded, ClanVoterWeightChanged};
use crate::events::member::MemberVoterWeightChanged;
use crate::events::root::MaxVoterWeightChanged;
use crate::host::TokenOwnerRecord;
use crate::pubkey::Pubkey;
use crate::state::account::Account;
use crate::state::clan::Clan;
use crate::state::clan_vwr::VoterWeightRecord;
use crate::state::ledger::Ledger;
use crate::state::max_voter_weight::MaxVoterWeightRecord;
use crate::state::member::{
    active_share_total, check_record, distinct_clans, entry_for,
    lemma_active_share_total_update, lemma_active_share_within_total, lemma_position_of,
    load_error, position_of, record_error, share_of, wanted_count, weight_share, ClanChunk,
    Member, MembershipEntry, MAX_MEMBERSHIP, MAX_SHARE_BP,
};
use crate::state::root::Root;

verus! {

/// The accounts of a join.
#[derive(Clone, Debug, PartialEq, Eq)]
pub struct JoinClan {
    /// The member that joins.
    pub member: Account<Member>,
    /// Who asks for the join.
    pub member_authority: Pubkey,
    /// The clan that is joined.
    pub clan: Account<Clan>,
    /// The root of both.
    pub root: Account<Root>,
    /// The authority by which the root locks the tokens of its members.
    pub lock_authority: Pubkey,
    /// The realm of the root.
    pub realm: Pubkey,
    /// The weight record of the clan.
    pub clan_vwr: Account<VoterWeightRecord>,
    /// The host's record of the member's tokens.
    pub member_tor: Account<TokenOwnerRecord>,
    /// The member's present weight, from the source of member weights.
    pub member_vwr: Account<VoterWeightRecord>,
    /// The realm-wide maximum weight.
    pub max_vwr: MaxVoterWeightRecord,
    /// The governance host.
    pub governance_program: Pubkey,
}

/// What a join hands back: the notifications for observers, and
/// whether the member's tokens have yet to be locked in the host.
#[derive(Clone, Debug, PartialEq, Eq)]
pub struct JoinClanOutcome {
    /// The weight changes of the member's other clans, in the order
    /// in which they were supplied.
    pub refreshed: Vec<ClanVoterWeightChanged>,
    /// The weight change of the clan that was joined.
    pub clan_voter_weight_changed: ClanVoterWeightChanged,
    pub member_voter_weight_changed: MemberVoterWeightChanged,
    pub max_voter_weight_changed: MaxVoterWeightChanged,
    pub clan_member_added: ClanMemberAdded,
    /// Whether the root's lock on the member's tokens is still to be set.
    pub lock_required: bool,
}

/// The share under which a member with the given entries contributes
/// to `clan`: that of its entry for the clan if it has one and is not
/// leaving, and none otherwise.
pub open spec fn contributing_share(entries: Seq<MembershipEntry>, clan: Pubkey) -> Option<u16> {
    match position_of(entries, clan) {
        Some(i) => if entries[i].is_active() {
            Some(entries[i].share_bp)
        } else {
            None
        },
        None => None,
    }
}

/// The entries of a member after it has joined `clan` with the share
/// `share_bp`: its entry for the clan, if it has one, holds the new
/// share and is active; if it has none, one is added at the end.
pub open spec fn joined_membership(entries: Seq<MembershipEntry>, clan: Pubkey, share_bp: u16) -> Seq<
    MembershipEntry,
> {
    let entry = MembershipEntry { clan, share_bp, leaving_time: None };
    match position_of(entries, clan) {
        Some(i) => entries.update(i, entry),
        None => entries.push(entry),
    }
}

/// A well-formed member stays well formed when it joins a clan with
/// a share that keeps the sum of its active shares within the whole.
pub proof fn lemma_joined_membership_wf(entries: Seq<MembershipEntry>, clan: Pubkey, share_bp: u16)
    requires
        distinct_clans(entries),
        forall|i: int| 0 <= i < entries.len() ==> (#[trigger] entries[i]).share_bp <= MAX_SHARE_BP,
        active_share_total(joined_membership(entries, clan, share_bp)) <= MAX_SHARE_BP,
    ensures
        distinct_clans(joined_membership(entries, clan, share_bp)),
        forall|i: int|
            0 <= i < joined_membership(entries, clan, share_bp).len() ==> (
            #[trigger] joined_membership(entries, clan, share_bp)[i]).share_bp <= MAX_SHARE_BP,
        share_bp <= MAX_SHARE_BP,
{
    let joined = joined_membership(entries, clan, share_bp);
    match position_of(entries, clan) {
        Some(i) => {
            lemma_active_share_within_total(joined, i);
        },
        None => {
            lemma_active_share_within_total(joined, entries.len() as int);
        },
    }
}

impl JoinClan {
    /// Why the accounts do not belong together, if they do not.
    pub open spec fn account_error(&self) -> Option<Error> {
        if self.member.data.root != self.root.key {
            Some(Error::ConstraintHasOne)
        } else if self.member_authority != self.member.data.owner && self.member_authority
            != self.member.data.delegate {
            Some(Error::WrongMemberAuthority)
        } else if self.clan.data.root != self.root.key {
            Some(Error::ConstraintHasOne)
        } else if self.root.data.governance_program != self.governance_program
            || self.root.data.realm != self.realm {
            Some(Error::ConstraintHasOne)
        } else if self.clan.data.voter_weight_record != self.clan_vwr.key {
            Some(Error::ConstraintSeeds)
        } else if self.member.data.token_owner_record != self.member_tor.key {
            Some(Error::ConstraintAddress)
        } else {
            None
        }
    }

    /// The number of clans that a join refreshes: the clans that the
    /// member is in and not leaving, but for the clan that it joins.
    pub open spec fn refreshed_count(&self) -> nat {
        wanted_count(self.member.data.membership@, Some(self.clan.key))
    }

    /// Why a join with the share `share_bp` and the supplied clans is
    /// turned down, if it is; the first reason that applies, in the
    /// order in which the join looks for them.
    pub open spec fn request_error(&self, share_bp: u16, chunks: Seq<ClanChunk>, clock: &Clock) -> Option<
        Error,
    > {
        let entries = self.member.data.membership@;
        let record = &self.member_vwr.data;
        if self.account_error() is Some {
            self.account_error()
        } else if self.member_tor.data.governing_token_owner != self.member.data.owner {
            Some(Error::RequireKeysEqViolated)
        } else if self.member_tor.data.unrelinquished_votes_count != 0 {
            Some(Error::MemberHasUnrelinquishedVotes)
        } else if self.member_tor.data.outstanding_proposal_count != 0 {
            Some(Error::MemberHasOutstandingProposals)
        } else if record.realm != self.root.data.realm || record.governing_token_mint
            != self.root.data.governing_token_mint || record.governing_token_owner
            != self.member.data.owner {
            Some(Error::RequireKeysEqViolated)
        } else if share_of(record.voter_weight, share_bp)
            < self.clan.data.min_voting_weight_to_join {
            Some(Error::RequireGteViolated)
        } else if self.clan.data.rejects(Some(record)) {
            Some(Error::TemporaryMembersNotAllowed)
        } else if position_of(entries, self.clan.key) matches Some(i) && share_bp
            < entries[i].share_bp {
            Some(Error::InvalidShareBp)
        } else if position_of(entries, self.clan.key) is None && entries.len() >= MAX_MEMBERSHIP {
            Some(Error::MaxMembershipExceeded)
        } else if active_share_total(joined_membership(entries, self.clan.key, share_bp))
            > MAX_SHARE_BP {
            Some(Error::InvalidShareBp)
        } else if load_error(entries, Some(self.clan.key), chunks) is Some {
            load_error(entries, Some(self.clan.key), chunks)
        } else if Member::some_clan_rejects(chunks, self.refreshed_count(), record) {
            Some(Error::TemporaryMembersNotAllowed)
        } else {
            record_error(record, clock.slot)
        }
    }

    /// The books of the joined clan after the join.
    pub open spec fn joined_ledger(&self, share_bp: u16, clock: &Clock) -> Ledger {
        let root = self.root.data.rolled_over(clock.unix_timestamp);
        self.clan.data.after_reset(&root).posted_ledger(
            &self.clan.data.record_after_reset(&root, self.clan_vwr.data),
            &self.member.data,
            contributing_share(self.member.data.membership@, self.clan.key),
            Some(&self.member_vwr.data),
            Some(share_bp),
        )
    }

    /// Whether the numbers that a join leads to can be computed and
    /// stored: the root's next reset time, the books of the joined
    /// clan and of each refreshed clan, and the realm-wide maximum.
    pub open spec fn fits(&self, share_bp: u16, chunks: Seq<ClanChunk>, clock: &Clock) -> bool {
        let root = self.root.data.rolled_over(clock.unix_timestamp);
        let entries = self.member.data.membership@;
        &&& self.root.data.rollover_fits(clock.unix_timestamp)
        &&& self.member.data.can_refresh_all(
            &root,
            chunks,
            self.refreshed_count(),
            &self.member_vwr.data,
        )
        &&& self.clan.data.after_reset(&root).can_post(
            &self.clan.data.record_after_reset(&root, self.clan_vwr.data),
            &self.member.data,
            contributing_share(entries, self.clan.key),
            Some(&self.member_vwr.data),
            Some(share_bp),
        )
        &&& self.member.data.max_fits(self.max_vwr.max_voter_weight, self.member_vwr.data.voter_weight)
    }

    /// The member after the join.
    pub open spec fn joined_member(&self, share_bp: u16, clock: &Clock, membership: Vec<MembershipEntry>) -> Member {
        Member {
            membership,
            voter_weight_record: self.member_vwr.key,
            voter_weight: self.member_vwr.data.voter_weight,
            voter_weight_expiry: self.member_vwr.data.voter_weight_expiry,
            next_voter_weight_reset_time: self.root.data.rolled_over(
                clock.unix_timestamp,
            ).spec_next_voter_weight_reset_time(),
            ..self.member.data
        }
    }

    /// The accounts after a join that is not turned down, given the
    /// list that holds the member's entries.
    pub open spec fn joined(self, share_bp: u16, clock: &Clock, membership: Vec<MembershipEntry>) -> JoinClan {
        let root = self.root.data.rolled_over(clock.unix_timestamp);
        let ledger = self.joined_ledger(share_bp, clock);
        JoinClan {
            member: Account {
                key: self.member.key,
                data: self.joined_member(share_bp, clock, membership),
            },
            clan: Account {
                key: self.clan.key,
                data: self.clan.data.after_reset(&root).with_ledger(ledger),
            },
            root: Account { key: self.root.key, data: root },
            clan_vwr: Account {
                key: self.clan_vwr.key,
                data: Clan::record_with_ledger(
                    self.clan.data.record_after_reset(&root, self.clan_vwr.data),
                    ledger,
                    clock.slot,
                ),
            },
            max_vwr: MaxVoterWeightRecord {
                max_voter_weight: self.member.data.max_after(
                    self.max_vwr.max_voter_weight,
                    self.member_vwr.data.voter_weight,
                ) as u64,
                ..self.max_vwr
            },
            ..self
        }
    }

    /// Checks that the accounts belong together.
    pub fn check_accounts(&self) -> (result: Result<(), Error>)
        ensures
            match self.account_error() {
                Some(error) => result == Err::<(), Error>(error),
                None => result is Ok,
            },
    {
        if self.member.data.root != self.root.key {
            return Err(Error::ConstraintHasOne);
        }
        if self.member_authority != self.member.data.owner && self.member_authority
            != self.member.data.delegate {
            return Err(Error::WrongMemberAuthority);
        }
        if self.clan.data.root != self.root.key {
            return Err(Error::ConstraintHasOne);
        }
        if self.root.data.governance_program != self.governance_program || self.root.data.realm
            != self.realm {
            return Err(Error::ConstraintHasOne);
        }
        if self.clan.data.voter_weight_record != self.clan_vwr.key {
            return Err(Error::ConstraintSeeds);
        }
        if self.member.data.token_owner_record != self.member_tor.key {
            return Err(Error::ConstraintAddress);
        }
        Ok(())
    }

    /// Looks for a reason to turn the join down. Where there is none,
    /// hands back the position of the member's entry for the clan, if
    /// it has one, and the member's entries for the clans that are
    /// refreshed, in the order of `chunks`.
    fn check_request(&self, share_bp: u16, chunks: &Vec<ClanChunk>, clock: &Clock) -> (result: Result<
        (Option<usize>, Vec<MembershipEntry>),
        Error,
    >)
        requires
            self.member.data.wf(),
        ensures
            match self.request_error(share_bp, chunks@, clock) {
                Some(error) => result == Err::<(Option<usize>, Vec<MembershipEntry>), Error>(error),
                None => {
                    &&& result matches Ok((position, entries))
                    &&& match position {
                        Some(i) => position_of(self.member.data.membership@, self.clan.key)
                            == Some(i as int) && i < self.member.data.membership@.len(),
                        None => position_of(self.member.data.membership@, self.clan.key) is None,
                    }
                    &&& entries@.len() == self.refreshed_count()
                    &&& entries@.len() <= chunks@.len()
                    &&& forall|k: int|
                        0 <= k < entries@.len() ==> {
                            &&& #[trigger] entries@[k] == entry_for(
                                self.member.data.membership@,
                                chunks@[k].clan.key,
                            )
                            &&& entries@[k].is_active()
                            &&& entries@[k].clan == chunks@[k].clan.key
                        }
                },
            },
    {
        let ghost members = self.member.data.membership@;
        match self.check_accounts() {
            Err(error) => {
                return Err(error);
            },
            Ok(()) => {},
        }
        if self.member_tor.data.governing_token_owner != self.member.data.owner {
            return Err(Error::RequireKeysEqViolated);
        }
        if self.member_tor.data.unrelinquished_votes_count != 0 {
            return Err(Error::MemberHasUnrelinquishedVotes);
        }
        if self.member_tor.data.outstanding_proposal_count != 0 {
            return Err(Error::MemberHasOutstandingProposals);
        }
        let record = &self.member_vwr.data;
        if record.realm != self.root.data.realm || record.governing_token_mint
            != self.root.data.governing_token_mint || record.governing_token_owner
            != self.member.data.owner {
            return Err(Error::RequireKeysEqViolated);
        }
        if weight_share(record.voter_weight, share_bp)
            < self.clan.data.min_voting_weight_to_join as u128 {
            return Err(Error::RequireGteViolated);
        }
        if record.voter_weight_expiry.is_some() && !self.clan.data.accept_temporary_members {
            return Err(Error::TemporaryMembersNotAllowed);
        }
        let position = self.member.data.find_entry(self.clan.key);
        let total = self.member.data.active_share_sum();
        let new_total: u64;
        match position {
            Some(i) => {
                proof {
                    lemma_position_of(members, i as int);
                    lemma_active_share_total_update(
                        members,
                        i as int,
                        MembershipEntry { clan: self.clan.key, share_bp, leaving_time: None },
                    );
                    lemma_active_share_within_total(members, i as int);
                }
                let entry = self.member.data.membership[i];
                if share_bp < entry.share_bp {
                    return Err(Error::InvalidShareBp);
                }
                let old_part: u64 = if entry.leaving_time.is_none() {
                    entry.share_bp as u64
                } else {
                    0
                };
                new_total = total - old_part + share_bp as u64;
            },
            None => {
                if self.member.data.membership.len() >= MAX_MEMBERSHIP {
                    return Err(Error::MaxMembershipExceeded);
                }
                proof {
                    let entry = MembershipEntry { clan: self.clan.key, share_bp, leaving_time: None };
                    assert(members.push(entry).drop_last() =~= members);
                }
                new_total = total + share_bp as u64;
            },
        }
        if new_total > MAX_SHARE_BP as u64 {
            return Err(Error::InvalidShareBp);
        }
        let entries = match self.member.data.load_clan_chunks(chunks, Some(self.clan.key)) {
            Err(error) => {
                return Err(error);
            },
            Ok(entries) => entries,
        };
        if !Member::all_clans_accept(chunks, entries.len(), record) {
            return Err(Error::TemporaryMembersNotAllowed);
        }
        match check_record(record, clock) {
            Err(error) => {
                return Err(error);
            },
            Ok(()) => {},
        }
        Ok((position, entries))
    }

    /// Whether `result`, the accounts `after` and the chunks
    /// `chunks_after` are what the join gives: a join that is turned
    /// down changes nothing; one that is not enters the clan in the
    /// member's entries, refreshes the member's weight in its other
    /// clans, posts it to the joined clan, and moves the realm-wide
    /// maximum along.
    pub open spec fn is_result(
        &self,
        share_bp: u16,
        chunks: Vec<ClanChunk>,
        clock: &Clock,
        after: &JoinClan,
        chunks_after: Vec<ClanChunk>,
        result: Result<JoinClanOutcome, Error>,
    ) -> bool {
        match self.request_error(share_bp, chunks@, clock) {
            Some(error) => {
                &&& result == Err::<JoinClanOutcome, Error>(error)
                &&& *after == *self
                &&& chunks_after == chunks
            },
            None => {
                &&& result matches Ok(outcome)
                &&& *after == self.joined(
                    share_bp,
                    clock,
                    after.member.data.membership,
                )
                &&& after.member.data.membership@ == joined_membership(
                    self.member.data.membership@,
                    self.clan.key,
                    share_bp,
                )
                &&& after.member.data.wf()
                &&& after.clan.data.wf(&after.clan_vwr.data)
                &&& chunks_after@ == self.member.data.refreshed_chunks(
                    &after.root.data,
                    chunks@,
                    self.refreshed_count(),
                    &self.member_vwr.data,
                    clock.slot,
                )
                &&& outcome.refreshed@ == self.member.data.refresh_events(
                    &after.root.data,
                    chunks@,
                    self.refreshed_count(),
                    &self.member_vwr.data,
                    clock.slot,
                )
                &&& outcome.clan_voter_weight_changed == Clan::weight_change(
                    &Account {
                        key: self.clan.key,
                        data: self.clan.data.after_reset(&after.root.data),
                    },
                    &self.clan.data.record_after_reset(
                        &after.root.data,
                        self.clan_vwr.data,
                    ),
                    &after.clan.data,
                    &after.clan_vwr.data,
                )
                &&& forall|k: int|
                    0 <= k < self.refreshed_count() ==> (
                    #[trigger] chunks_after@[k]).clan.data.wf(&chunks_after@[k].vwr.data)
                &&& outcome.member_voter_weight_changed == (MemberVoterWeightChanged {
                    member: self.member.key,
                    root: self.member.data.root,
                    old_voter_weight: self.member.data.voter_weight,
                    new_voter_weight: self.member_vwr.data.voter_weight,
                    old_voter_weight_record: self.member.data.voter_weight_record,
                    new_voter_weight_record: self.member_vwr.key,
                })
                &&& outcome.max_voter_weight_changed == (MaxVoterWeightChanged {
                    root: self.member.data.root,
                    old_max_voter_weight: self.max_vwr.max_voter_weight,
                    new_max_voter_weight: after.max_vwr.max_voter_weight,
                })
                &&& outcome.clan_member_added == (ClanMemberAdded {
                    clan: self.clan.key,
                    member: self.member.key,
                    root: self.root.key,
                    owner: self.member.data.owner,
                })
                &&& outcome.lock_required == !self.member_tor.data.spec_is_locked_by(
                    self.lock_authority,
                )
            },
        }
    }

    /// Computes `fits` for a join that is not turned down.
    fn is_storable(
        &self,
        share_bp: u16,
        position: Option<usize>,
        entries: &Vec<MembershipEntry>,
        chunks: &Vec<ClanChunk>,
        clock: &Clock,
    ) -> (fits: bool)
        requires
            match position {
                Some(i) => position_of(self.member.data.membership@, self.clan.key) == Some(
                    i as int,
                ) && i < self.member.data.membership@.len(),
                None => position_of(self.member.data.membership@, self.clan.key) is None,
            },
            entries@.len() == self.refreshed_count(),
            entries@.len() <= chunks@.len(),
            forall|k: int|
                0 <= k < entries@.len() ==> #[trigger] entries@[k] == entry_for(
                    self.member.data.membership@,
                    chunks@[k].clan.key,
                ),
        ensures
            fits == self.fits(share_bp, chunks@, clock),
    {
        if !self.root.data.rollover_is_storable(clock) {
            return false;
        }
        let mut root = self.root.data;
        root.update_next_voter_weight_reset_time(clock);
        let old_share_bp = match position {
            Some(i) => {
                let entry = self.member.data.membership[i];
                if entry.leaving_time.is_none() {
                    Some(entry.share_bp)
                } else {
                    None
                }
            },
            None => None,
        };
        self.member.data.can_refresh_memberships(&root, entries, chunks, &self.member_vwr.data)
            && self.clan.data.can_post_after_reset(
            &self.clan_vwr.data,
            &root,
            &self.member.data,
            old_share_bp,
            Some(&self.member_vwr.data),
            Some(share_bp),
        ) && self.member.data.max_is_storable(&self.max_vwr, self.member_vwr.data.voter_weight)
    }

    /// Carries out a join that is not turned down.
    fn apply(
        &mut self,
        share_bp: u16,
        position: Option<usize>,
        entries: Vec<MembershipEntry>,
        chunks: &mut Vec<ClanChunk>,
        clock: &Clock,
    ) -> (result: Result<JoinClanOutcome, Error>)
        requires
            old(self).member.data.wf(),
            old(self).request_error(share_bp, old(chunks)@, clock) is None,
            old(self).fits(share_bp, old(chunks)@, clock),
            match position {
                Some(i) => position_of(old(self).member.data.membership@, old(self).clan.key)
                    == Some(i as int) && i < old(self).member.data.membership@.len(),
                None => position_of(old(self).member.data.membership@, old(self).clan.key) is None,
            },
            entries@.len() == old(self).refreshed_count(),
            entries@.len() <= old(chunks)@.len(),
            forall|k: int|
                0 <= k < entries@.len() ==> {
                    &&& #[trigger] entries@[k] == entry_for(
                        old(self).member.data.membership@,
                        old(chunks)@[k].clan.key,
                    )
                    &&& entries@[k].is_active()
                    &&& entries@[k].clan == old(chunks)@[k].clan.key
                },
        ensures
            old(self).is_result(share_bp, *old(chunks), clock, final(self), *final(chunks), result),
    {
        let ghost members = self.member.data.membership@;
        proof {
            lemma_joined_membership_wf(members, self.clan.key, share_bp);
        }
        self.root.data.update_next_voter_weight_reset_time(clock);

        let refreshed = self.member.data.refresh_memberships(
            &self.root.data,
            &entries,
            chunks,
            &self.member_vwr.data,
            clock,
        );

        let joining = MembershipEntry { clan: self.clan.key, share_bp, leaving_time: None };
        let old_share_bp = match position {
            Some(i) => {
                let entry = self.member.data.membership[i];
                self.member.data.membership[i] = joining;
                if entry.leaving_time.is_none() {
                    Some(entry.share_bp)
                } else {
                    None
                }
            },
            None => {
                self.member.data.membership.push(joining);
                None
            },
        };

        self.clan.data.reset_voter_weight_if_needed(&self.root.data, &mut self.clan_vwr.data);
        let clan_voter_weight_changed = match Clan::update_member(
            &mut self.clan,
            &self.member.data,
            old_share_bp,
            Some(&self.member_vwr.data),
            Some(share_bp),
            &mut self.clan_vwr.data,
            clock,
        ) {
            Ok(event) => event,
            Err(error) => {
                return Err(error);
            },
        };
        let (member_voter_weight_changed, max_voter_weight_changed) =
            match Member::update_voter_weight(
            &mut self.member,
            self.member_vwr.key,
            &self.member_vwr.data,
            &mut self.max_vwr,
            clock,
        ) {
            Ok(events) => events,
            Err(error) => {
                return Err(error);
            },
        };
        self.member.data.next_voter_weight_reset_time = self.root.data.next_voter_weight_reset_time();
        let lock_required = !self.member_tor.data.is_locked_by(self.lock_authority);
        Ok(
            JoinClanOutcome {
                refreshed,
                clan_voter_weight_changed,
                member_voter_weight_changed,
                max_voter_weight_changed,
                clan_member_added: ClanMemberAdded {
                    clan: self.clan.key,
                    member: self.member.key,
                    root: self.root.key,
                    owner: self.member.data.owner,
                },
                lock_required,
            },
        )
    }

    /// Lets the member join the clan with the share `share_bp`, or
    /// raises its share to that. The member's weight is read anew
    /// from its record and refreshed in each of its other clans, which
    /// come in `chunks`. A join that is turned down changes nothing.
    pub fn process(&mut self, share_bp: u16, chunks: &mut Vec<ClanChunk>, clock: &Clock) -> (result: Result<
        JoinClanOutcome,
        Error,
    >)
        requires
            old(self).member.data.wf(),
            old(self).request_error(share_bp, old(chunks)@, clock) is None ==> old(self).fits(
                share_bp,
                old(chunks)@,
                clock,
            ),
        ensures
            old(self).is_result(share_bp, *old(chunks), clock, final(self), *final(chunks), result),
    {
        match self.check_request(share_bp, chunks, clock) {
            Err(error) => Err(error),
            Ok((position, entries)) => self.apply(share_bp, position, entries, chunks, clock),
        }
    }

    /// Does what `process` does where the numbers that the join leads
    /// to can be computed and stored; where they cannot, changes
    /// nothing and hands back `None`.
    pub fn try_process(&mut self, share_bp: u16, chunks: &mut Vec<ClanChunk>, clock: &Clock) -> (result:
        Option<Result<JoinClanOutcome, Error>>)
        requires
            old(self).member.data.wf(),
        ensures
            match result {
                Some(result) => {
                    &&& old(self).request_error(share_bp, old(chunks)@, clock) is None ==> old(self).fits(share_bp, old(chunks)@, clock)
                    &&& old(self).is_result(
                        share_bp,
                        *old(chunks),
                        clock,
                        final(self),
                        *final(chunks),
                        result,
                    )
                },
                None => {
                    &&& old(self).request_error(share_bp, old(chunks)@, clock) is None
                    &&& !old(self).fits(share_bp, old(chunks)@, clock)
                    &&& *final(self) == *old(self)
                    &&& *final(chunks) == *old(chunks)
                },
            },
    {
        match self.check_request(share_bp, chunks, clock) {
            Err(error) => Some(Err(error)),
            Ok((position, entries)) => {
                if self.is_storable(share_bp, position, &entries, chunks, clock) {
                    Some(self.apply(share_bp, position, entries, chunks, clock))
                } else {
                    None
                }
            },
        }
    }
}

} // verus!
