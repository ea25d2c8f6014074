//! Reading a member's weight anew and carrying it to all its clans.

use vstd::prelude::*;
use crate::clock::Clock;
use crate::error::Error;
use crate::events::clan::ClanVoterWeightChanged;
use crate::events::member::MemberVoterWeightChanged;
use crate::events::root::MaxVoterWeightChanged;
use crate::pubkey::Pubkey;
use crate::state::account::Account;
use crate::state::clan_vwr::VoterWeightRecord;
use crate::state::max_voter_weight::MaxVoterWeightRecord;
use crate::state::member::{
    check_record, entry_for, load_error, record_error, wanted_count, ClanChunk,
    Member, MembershipEntry,
};
use crate::state::root::Root;

verus! {

/// What a refresh hands back: the notifications for observers.
#[derive(Clone, Debug, PartialEq, Eq)]
pub struct RefreshOutcome {
    /// The weight changes of the member's clans, in the order in
    /// which they were supplied.
    pub refreshed: Vec<ClanVoterWeightChanged>,
    pub member_voter_weight_changed: MemberVoterWeightChanged,
    pub max_voter_weight_changed: MaxVoterWeightChanged,
}

/// The number of clans that a refresh of `member` needs: those that
/// it is in and not leaving.
pub open spec fn active_count(member: &Member) -> nat {
    wanted_count(member.membership@, None)
}

/// Why the member's weight cannot be refreshed from `record` with
/// the supplied clans, if it cannot: the clans are not those of the
/// member, one of them turns the record down, or the record cannot
/// serve as a member's weight.
pub open spec fn refresh_error(
    member: &Member,
    record: &VoterWeightRecord,
    chunks: Seq<ClanChunk>,
    slot: u64,
) -> Option<Error> {
    if load_error(member.membership@, None, chunks) is Some {
        load_error(member.membership@, None, chunks)
    } else if Member::some_clan_rejects(chunks, active_count(member), record) {
        Some(Error::TemporaryMembersNotAllowed)
    } else {
        record_error(record, slot)
    }
}

/// Whether the numbers that a refresh leads to can be computed and
/// stored: the root's next reset time, the books of each clan, and
/// the realm-wide maximum.
pub open spec fn refresh_fits(
    member: &Member,
    root: &Root,
    max_vwr: &MaxVoterWeightRecord,
    record: &VoterWeightRecord,
    chunks: Seq<ClanChunk>,
    now: i64,
) -> bool {
    &&& root.rollover_fits(now)
    &&& member.can_refresh_all(&root.rolled_over(now), chunks, active_count(member), record)
    &&& member.max_fits(max_vwr.max_voter_weight, record.voter_weight)
}

/// The member after its weight has been refreshed from `record`,
/// read from the address `record_key`, under the root `root`.
pub open spec fn refreshed_member(member: Member, root: &Root, record_key: Pubkey, record: &VoterWeightRecord) -> Member {
    Member {
        next_voter_weight_reset_time: root.spec_next_voter_weight_reset_time(),
        ..member.with_weight(record_key, record)
    }
}

/// Whether `result` and the accounts after it are what a refresh of
/// the accounts before it gives: a refresh that is turned down
/// changes nothing; one that is not brings the root's schedule up to
/// date, refreshes the member's weight in each of its clans, makes the
/// record the member's cached weight, and moves the realm-wide maximum
/// along.
pub open spec fn is_refreshed(
    member: &Account<Member>,
    root: &Root,
    max_vwr: &MaxVoterWeightRecord,
    record_key: Pubkey,
    record: &VoterWeightRecord,
    chunks: Vec<ClanChunk>,
    clock: &Clock,
    member_after: &Account<Member>,
    root_after: &Root,
    max_vwr_after: &MaxVoterWeightRecord,
    chunks_after: Vec<ClanChunk>,
    result: Result<RefreshOutcome, Error>,
) -> bool {
    match refresh_error(&member.data, record, chunks@, clock.slot) {
        Some(error) => {
            &&& result == Err::<RefreshOutcome, Error>(error)
            &&& *member_after == *member
            &&& *root_after == *root
            &&& *max_vwr_after == *max_vwr
            &&& chunks_after == chunks
        },
        None => {
            &&& result matches Ok(outcome)
            &&& *root_after == root.rolled_over(clock.unix_timestamp)
            &&& member_after.key == member.key
            &&& member_after.data == refreshed_member(member.data, root_after, record_key, record)
            &&& *max_vwr_after == (MaxVoterWeightRecord {
                max_voter_weight: member.data.max_after(
                    max_vwr.max_voter_weight,
                    record.voter_weight,
                ) as u64,
                ..*max_vwr
            })
            &&& chunks_after@ == member.data.refreshed_chunks(
                root_after,
                chunks@,
                active_count(&member.data),
                record,
                clock.slot,
            )
            &&& forall|k: int|
                0 <= k < active_count(&member.data) ==> (#[trigger] chunks_after@[k]).clan.data.wf(
                    &chunks_after@[k].vwr.data,
                )
            &&& outcome.refreshed@ == member.data.refresh_events(
                root_after,
                chunks@,
                active_count(&member.data),
                record,
                clock.slot,
            )
            &&& outcome.member_voter_weight_changed == (MemberVoterWeightChanged {
                member: member.key,
                root: member.data.root,
                old_voter_weight: member.data.voter_weight,
                new_voter_weight: record.voter_weight,
                old_voter_weight_record: member.data.voter_weight_record,
                new_voter_weight_record: record_key,
            })
            &&& outcome.max_voter_weight_changed == (MaxVoterWeightChanged {
                root: member.data.root,
                old_max_voter_weight: max_vwr.max_voter_weight,
                new_max_voter_weight: max_vwr_after.max_voter_weight,
            })
        },
    }
}

/// Looks for a reason to turn the refresh down. Where there is none,
/// hands back the member's entries for the clans that are refreshed,
/// in the order of `chunks`.
fn check_refresh(member: &Member, record: &VoterWeightRecord, chunks: &Vec<ClanChunk>, clock: &Clock) -> (result:
    Result<Vec<MembershipEntry>, Error>)
    requires
        member.wf(),
    ensures
        match refresh_error(member, record, chunks@, clock.slot) {
            Some(error) => result == Err::<Vec<MembershipEntry>, Error>(error),
            None => {
                &&& result matches Ok(entries)
                &&& entries@.len() == active_count(member)
                &&& entries@.len() <= chunks@.len()
                &&& forall|k: int|
                    0 <= k < entries@.len() ==> {
                        &&& #[trigger] entries@[k] == entry_for(
                            member.membership@,
                            chunks@[k].clan.key,
                        )
                        &&& entries@[k].is_active()
                        &&& entries@[k].clan == chunks@[k].clan.key
                    }
            },
        },
{
    let entries = match member.load_clan_chunks(chunks, None) {
        Err(error) => {
            return Err(error);
        },
        Ok(entries) => entries,
    };
    if !Member::all_clans_accept(chunks, entries.len(), record) {
        return Err(Error::TemporaryMembersNotAllowed);
    }
    match check_record(record, clock) {
        Err(error) => {
            return Err(error);
        },
        Ok(()) => {},
    }
    Ok(entries)
}

/// Computes `refresh_fits` for a refresh that is not turned down.
fn refresh_is_storable(
    member: &Member,
    root: &Root,
    max_vwr: &MaxVoterWeightRecord,
    record: &VoterWeightRecord,
    entries: &Vec<MembershipEntry>,
    chunks: &Vec<ClanChunk>,
    clock: &Clock,
) -> (fits: bool)
    requires
        entries@.len() == active_count(member),
        entries@.len() <= chunks@.len(),
        forall|k: int|
            0 <= k < entries@.len() ==> #[trigger] entries@[k] == entry_for(
                member.membership@,
                chunks@[k].clan.key,
            ),
    ensures
        fits == refresh_fits(member, root, max_vwr, record, chunks@, clock.unix_timestamp),
{
    if !root.rollover_is_storable(clock) {
        return false;
    }
    let mut rolled = *root;
    rolled.update_next_voter_weight_reset_time(clock);
    member.can_refresh_memberships(&rolled, entries, chunks, record) && member.max_is_storable(
        max_vwr,
        record.voter_weight,
    )
}

/// Carries out a refresh that is not turned down.
fn apply_refresh(
    member: &mut Account<Member>,
    root: &mut Root,
    max_vwr: &mut MaxVoterWeightRecord,
    record_key: Pubkey,
    record: &VoterWeightRecord,
    entries: Vec<MembershipEntry>,
    chunks: &mut Vec<ClanChunk>,
    clock: &Clock,
) -> (result: Result<RefreshOutcome, Error>)
    requires
        refresh_error(&old(member).data, record, old(chunks)@, clock.slot) is None,
        refresh_fits(
            &old(member).data,
            old(root),
            old(max_vwr),
            record,
            old(chunks)@,
            clock.unix_timestamp,
        ),
        entries@.len() == active_count(&old(member).data),
        entries@.len() <= old(chunks)@.len(),
        forall|k: int|
            0 <= k < entries@.len() ==> {
                &&& #[trigger] entries@[k] == entry_for(
                    old(member).data.membership@,
                    old(chunks)@[k].clan.key,
                )
                &&& entries@[k].is_active()
                &&& entries@[k].clan == old(chunks)@[k].clan.key
            },
    ensures
        is_refreshed(
            old(member),
            old(root),
            old(max_vwr),
            record_key,
            record,
            *old(chunks),
            clock,
            final(member),
            final(root),
            final(max_vwr),
            *final(chunks),
            result,
        ),
{
    root.update_next_voter_weight_reset_time(clock);
    let refreshed = member.data.refresh_memberships(root, &entries, chunks, record, clock);
    let (member_voter_weight_changed, max_voter_weight_changed) = match Member::update_voter_weight(
        member,
        record_key,
        record,
        max_vwr,
        clock,
    ) {
        Ok(events) => events,
        Err(error) => {
            return Err(error);
        },
    };
    member.data.next_voter_weight_reset_time = root.next_voter_weight_reset_time();
    Ok(RefreshOutcome { refreshed, member_voter_weight_changed, max_voter_weight_changed })
}

/// Brings the root's schedule up to date, refreshes the member's
/// weight from `record` in each of its clans, which come in `chunks`,
/// makes `record` the member's cached weight, and moves the
/// realm-wide maximum along. A refresh that is turned down changes
/// nothing.
pub fn refresh_member_weight(
    member: &mut Account<Member>,
    root: &mut Root,
    max_vwr: &mut MaxVoterWeightRecord,
    record_key: Pubkey,
    record: &VoterWeightRecord,
    chunks: &mut Vec<ClanChunk>,
    clock: &Clock,
) -> (result: Result<RefreshOutcome, Error>)
    requires
        old(member).data.wf(),
        refresh_error(&old(member).data, record, old(chunks)@, clock.slot) is None ==> refresh_fits(
            &old(member).data,
            old(root),
            old(max_vwr),
            record,
            old(chunks)@,
            clock.unix_timestamp,
        ),
    ensures
        is_refreshed(
            old(member),
            old(root),
            old(max_vwr),
            record_key,
            record,
            *old(chunks),
            clock,
            final(member),
            final(root),
            final(max_vwr),
            *final(chunks),
            result,
        ),
{
    match check_refresh(&member.data, record, chunks, clock) {
        Err(error) => Err(error),
        Ok(entries) => apply_refresh(
            member,
            root,
            max_vwr,
            record_key,
            record,
            entries,
            chunks,
            clock,
        ),
    }
}

/// Does what `refresh_member_weight` does where the numbers that the
/// refresh leads to can be computed and stored; where they cannot,
/// changes nothing and hands back `None`.
pub fn try_refresh_member_weight(
    member: &mut Account<Member>,
    root: &mut Root,
    max_vwr: &mut MaxVoterWeightRecord,
    record_key: Pubkey,
    record: &VoterWeightRecord,
    chunks: &mut Vec<ClanChunk>,
    clock: &Clock,
) -> (result: Option<Result<RefreshOutcome, Error>>)
    requires
        old(member).data.wf(),
    ensures
        match result {
            Some(result) => {
                &&& refresh_error(&old(member).data, record, old(chunks)@, clock.slot) is None
                    ==> refresh_fits(
                    &old(member).data,
                    old(root),
                    old(max_vwr),
                    record,
                    old(chunks)@,
                    clock.unix_timestamp,
                )
                &&& is_refreshed(
                    old(member),
                    old(root),
                    old(max_vwr),
                    record_key,
                    record,
                    *old(chunks),
                    clock,
                    final(member),
                    final(root),
                    final(max_vwr),
                    *final(chunks),
                    result,
                )
            },
            None => {
                &&& refresh_error(&old(member).data, record, old(chunks)@, clock.slot) is None
                &&& !refresh_fits(
                    &old(member).data,
                    old(root),
                    old(max_vwr),
                    record,
                    old(chunks)@,
                    clock.unix_timestamp,
                )
                &&& *final(member) == *old(member)
                &&& *final(root) == *old(root)
                &&& *final(max_vwr) == *old(max_vwr)
                &&& *final(chunks) == *old(chunks)
            },
        },
{
    match check_refresh(&member.data, record, chunks, clock) {
        Err(error) => Some(Err(error)),
        Ok(entries) => {
            if refresh_is_storable(&member.data, root, max_vwr, record, &entries, chunks, clock) {
                Some(
                    apply_refresh(
                        member,
                        root,
                        max_vwr,
                        record_key,
                        record,
                        entries,
                        chunks,
                        clock,
                    ),
                )
            } else {
                None
            }
        },
    }
}

} // verus!
