//! A token holder: its cached weight and the clans it shares it among.

use vstd::prelude::*;
use crate::clock::Clock;
use crate::error::Error;
use crate::events::clan::ClanVoterWeightChanged;
use crate::events::member::MemberVoterWeightChanged;
use crate::events::root::MaxVoterWeightChanged;
use crate::pubkey::Pubkey;
use crate::state::account::Account;
use crate::state::clan::Clan;
use crate::state::clan_vwr::VoterWeightRecord;
use crate::state::max_voter_weight::MaxVoterWeightRecord;
use crate::state::root::Root;

verus! {

/// The number of clans that one member can belong to.
pub const MAX_MEMBERSHIP: usize = 16;

/// The whole of a member's weight, in basis points.
pub const MAX_SHARE_BP: u16 = 10000;

/// The bump seeds of the addresses derived for a member.
#[derive(Clone, Copy, Debug, PartialEq, Eq, Structural)]
pub struct MemberBumps {
    pub address: u8,
    pub token_owner_record: u8,
}

/// The membership of a member in one clan.
#[derive(Clone, Copy, Debug, PartialEq, Eq)]
pub struct MembershipEntry {
    /// The clan.
    pub clan: Pubkey,
    /// The part of the member's weight that goes to the clan, in
    /// basis points.
    pub share_bp: u16,
    /// Set while the member is leaving the clan: the time from which
    /// it may exit. A leaving member contributes no weight.
    pub leaving_time: Option<i64>,
}

impl MembershipEntry {
    /// Whether the membership contributes weight to its clan.
    pub open spec fn is_active(&self) -> bool {
        self.leaving_time is None
    }
}

/// A token holder of a root.
#[derive(Clone, Debug, PartialEq, Eq)]
pub struct Member {
    pub root: Pubkey,
    pub owner: Pubkey,
    pub delegate: Pubkey,
    pub token_owner_record: Pubkey,
    /// The record that the cached weight was read from.
    pub voter_weight_record: Pubkey,
    /// The weight of the member when it was last read.
    pub voter_weight: u64,
    /// The slot after which the cached weight is stale; `None` for a
    /// weight that does not expire.
    pub voter_weight_expiry: Option<u64>,
    /// The reset time of the root when the weight was last read.
    pub next_voter_weight_reset_time: Option<i64>,
    /// The clans of the member.
    pub membership: Vec<MembershipEntry>,
    pub bumps: MemberBumps,
}

/// A clan and its weight record, supplied to an operation so that the
/// weight of one of the clan's members can be refreshed in it.
#[derive(Clone, Debug, PartialEq, Eq)]
pub struct ClanChunk {
    pub clan: Account<Clan>,
    pub vwr: Account<VoterWeightRecord>,
}

/// The part of `weight` that a share of `share_bp` basis points
/// stands for, rounded down.
pub open spec fn share_of(weight: u64, share_bp: u16) -> int {
    (weight as int * share_bp as int) / 10000
}

/// A share of at most the whole is at most the weight.
pub proof fn lemma_share_of_bounds(weight: u64, share_bp: u16)
    ensures
        0 <= share_of(weight, share_bp),
        share_bp <= MAX_SHARE_BP ==> share_of(weight, share_bp) <= weight,
        share_bp == MAX_SHARE_BP ==> share_of(weight, share_bp) == weight,
{
    let w = weight as int;
    let s = share_bp as int;
    assert(0 <= w * s) by (nonlinear_arith)
        requires
            0 <= w,
            0 <= s,
    ;
    assert(w * s <= w * 65535) by (nonlinear_arith)
        requires
            0 <= w,
            0 <= s <= 65535,
    ;
    if share_bp <= MAX_SHARE_BP {
        assert(w * s <= w * 10000) by (nonlinear_arith)
            requires
                0 <= w,
                0 <= s <= 10000,
        ;
    }
}

/// Computes `share_of`.
pub fn weight_share(weight: u64, share_bp: u16) -> (share: u128)
    ensures
        share == share_of(weight, share_bp),
{
    proof {
        lemma_share_of_bounds(weight, share_bp);
        assert(weight as int * share_bp as int <= u64::MAX as int * 65535) by (nonlinear_arith)
            requires
                0 <= weight <= u64::MAX,
                0 <= share_bp <= 65535,
        ;
    }
    (weight as u128) * (share_bp as u128) / 10000
}

/// The sum of the shares of the active entries among `entries`.
pub open spec fn active_share_total(entries: Seq<MembershipEntry>) -> int
    decreases entries.len(),
{
    if entries.len() == 0 {
        0
    } else {
        active_share_total(entries.drop_last()) + if entries.last().is_active() {
            entries.last().share_bp as int
        } else {
            0
        }
    }
}

/// The position of the entry for `clan` among `entries`, if there is one.
pub open spec fn position_of(entries: Seq<MembershipEntry>, clan: Pubkey) -> Option<int> {
    if exists|i: int| 0 <= i < entries.len() && entries[i].clan == clan {
        Some(choose|i: int| 0 <= i < entries.len() && entries[i].clan == clan)
    } else {
        None
    }
}

/// No clan occurs twice among `entries`.
pub open spec fn distinct_clans(entries: Seq<MembershipEntry>) -> bool {
    forall|i: int, j: int|
        0 <= i < j < entries.len() ==> (#[trigger] entries[i]).clan != (#[trigger] entries[j]).clan
}

impl Member {
    /// What holds of every member between operations: it belongs to
    /// at most `MAX_MEMBERSHIP` clans, to none of them twice, no share
    /// exceeds the whole, and the shares of the clans that it is not
    /// leaving do not exceed the whole together.
    pub open spec fn wf(&self) -> bool {
        &&& self.membership@.len() <= MAX_MEMBERSHIP
        &&& distinct_clans(self.membership@)
        &&& forall|i: int|
            0 <= i < self.membership@.len() ==> (#[trigger] self.membership@[i]).share_bp
                <= MAX_SHARE_BP
        &&& active_share_total(self.membership@) <= MAX_SHARE_BP
    }

    /// Whether the cached weight never expires.
    pub open spec fn is_permanent(&self) -> bool {
        self.voter_weight_expiry is None
    }

    /// Computes `wf`.
    pub fn is_wf(&self) -> (wf: bool)
        ensures
            wf == self.wf(),
    {
        if self.membership.len() > MAX_MEMBERSHIP {
            return false;
        }
        let mut i: usize = 0;
        while i < self.membership.len()
            invariant
                i <= self.membership@.len() <= MAX_MEMBERSHIP,
                forall|a: int, b: int|
                    0 <= a < b < i ==> (#[trigger] self.membership@[a]).clan != (
                    #[trigger] self.membership@[b]).clan,
                forall|a: int|
                    0 <= a < i ==> (#[trigger] self.membership@[a]).share_bp <= MAX_SHARE_BP,
            decreases self.membership@.len() - i,
        {
            if self.membership[i].share_bp > MAX_SHARE_BP {
                return false;
            }
            let mut j: usize = 0;
            while j < i
                invariant
                    j <= i < self.membership@.len(),
                    forall|a: int|
                        0 <= a < j ==> (#[trigger] self.membership@[a]).clan
                            != self.membership@[i as int].clan,
                decreases i - j,
            {
                if self.membership[j].clan == self.membership[i].clan {
                    return false;
                }
                j += 1;
            }
            i += 1;
        }
        self.active_share_sum() <= MAX_SHARE_BP as u64
    }
}

/// The share that an entry adds to the sum of the active shares.
pub open spec fn active_share(entry: MembershipEntry) -> int {
    if entry.is_active() {
        entry.share_bp as int
    } else {
        0
    }
}

/// Replacing one entry changes the sum of the active shares by the
/// difference of what the two entries add to it.
pub proof fn lemma_active_share_total_update(entries: Seq<MembershipEntry>, i: int, entry: MembershipEntry)
    requires
        0 <= i < entries.len(),
    ensures
        active_share_total(entries.update(i, entry)) == active_share_total(entries) - active_share(
            entries[i],
        ) + active_share(entry),
    decreases entries.len(),
{
    let updated = entries.update(i, entry);
    if i == entries.len() - 1 {
        assert(updated.drop_last() =~= entries.drop_last());
    } else {
        assert(updated.drop_last() =~= entries.drop_last().update(i, entry));
        lemma_active_share_total_update(entries.drop_last(), i, entry);
    }
}

/// No active share exceeds the sum of the active shares.
pub proof fn lemma_active_share_within_total(entries: Seq<MembershipEntry>, i: int)
    requires
        0 <= i < entries.len(),
    ensures
        0 <= active_share(entries[i]) <= active_share_total(entries),
    decreases entries.len(),
{
    lemma_active_share_total_bounds(entries.drop_last());
    if i < entries.len() - 1 {
        lemma_active_share_within_total(entries.drop_last(), i);
    }
}

/// Among entries with distinct clans, the position of the entry for
/// a clan is the position of any entry with that clan.
pub proof fn lemma_position_of(entries: Seq<MembershipEntry>, i: int)
    requires
        distinct_clans(entries),
        0 <= i < entries.len(),
    ensures
        position_of(entries, entries[i].clan) == Some(i),
{
}

/// Taking one entry out lowers the sum of the active shares by what
/// the entry added to it.
pub proof fn lemma_active_share_total_remove(entries: Seq<MembershipEntry>, i: int)
    requires
        0 <= i < entries.len(),
    ensures
        active_share_total(entries.remove(i)) == active_share_total(entries) - active_share(
            entries[i],
        ),
    decreases entries.len(),
{
    if i < entries.len() - 1 {
        assert(entries.remove(i).drop_last() =~= entries.drop_last().remove(i));
        lemma_active_share_total_remove(entries.drop_last(), i);
    }
}

/// Whether an entry is among those that an operation refreshes: it is
/// active and not the entry of the clan `skip`.
pub open spec fn is_wanted(entry: MembershipEntry, skip: Option<Pubkey>) -> bool {
    entry.is_active() && (skip matches Some(clan) ==> entry.clan != clan)
}

/// The number of entries among `entries` that an operation refreshes.
pub open spec fn wanted_count(entries: Seq<MembershipEntry>, skip: Option<Pubkey>) -> nat
    decreases entries.len(),
{
    if entries.len() == 0 {
        0
    } else {
        wanted_count(entries.drop_last(), skip) + if is_wanted(entries.last(), skip) {
            1nat
        } else {
            0nat
        }
    }
}

/// Whether `entries` has a wanted entry for `clan`.
pub open spec fn has_wanted(entries: Seq<MembershipEntry>, skip: Option<Pubkey>, clan: Pubkey) -> bool {
    exists|i: int| 0 <= i < entries.len() && is_wanted(#[trigger] entries[i], skip) && entries[i].clan == clan
}

/// Whether the clan at position `k` of `clans` is rightly supplied:
/// the member has a wanted entry for it, and it was not supplied at
/// an earlier position.
pub open spec fn is_expected(
    entries: Seq<MembershipEntry>,
    skip: Option<Pubkey>,
    clans: Seq<Pubkey>,
    k: int,
) -> bool {
    &&& has_wanted(entries, skip, clans[k])
    &&& forall|j: int| 0 <= j < k ==> #[trigger] clans[j] != clans[k]
}

/// Why the chunk at position `k` is not rightly supplied, if it is
/// not: its record is not the record of its clan, or its clan is not
/// expected.
pub open spec fn chunk_error(
    entries: Seq<MembershipEntry>,
    skip: Option<Pubkey>,
    chunks: Seq<ClanChunk>,
    k: int,
) -> Option<Error> {
    if chunks[k].clan.data.voter_weight_record != chunks[k].vwr.key {
        Some(Error::ConstraintSeeds)
    } else if !is_expected(entries, skip, chunk_clans(chunks), k) {
        Some(Error::UnexpectedClan)
    } else {
        None
    }
}

/// Why the chunks from position `k` on do not serve to refresh the
/// wanted entries, if they do not.
pub open spec fn load_error_from(
    entries: Seq<MembershipEntry>,
    skip: Option<Pubkey>,
    chunks: Seq<ClanChunk>,
    k: int,
) -> Option<Error>
    decreases wanted_count(entries, skip) - k,
{
    if k < 0 || k >= wanted_count(entries, skip) {
        None
    } else if k >= chunks.len() {
        Some(Error::NotEnoughAccountKeys)
    } else if chunk_error(entries, skip, chunks, k) is Some {
        chunk_error(entries, skip, chunks, k)
    } else {
        load_error_from(entries, skip, chunks, k + 1)
    }
}

/// Why the supplied chunks do not serve to refresh the wanted
/// entries, if they do not. One chunk is taken for each wanted entry,
/// in the order of supply; chunks beyond that number are not looked
/// at. The first chunk that is lacking or not rightly supplied
/// decides.
pub open spec fn load_error(
    entries: Seq<MembershipEntry>,
    skip: Option<Pubkey>,
    chunks: Seq<ClanChunk>,
) -> Option<Error> {
    load_error_from(entries, skip, chunks, 0)
}

/// The addresses of the clans of `chunks`.
pub open spec fn chunk_clans(chunks: Seq<ClanChunk>) -> Seq<Pubkey> {
    chunks.map_values(|chunk: ClanChunk| chunk.clan.key)
}

/// Why a weight record cannot become the cached weight of a member in
/// slot `slot`, if it cannot: it is bound to an action or to a target,
/// or it expired before `slot`.
pub open spec fn record_error(record: &VoterWeightRecord, slot: u64) -> Option<Error> {
    if record.weight_action is Some {
        Some(Error::UnexpectedWeightAction)
    } else if record.weight_action_target is Some {
        Some(Error::UnexpectedWeightActionTarget)
    } else if record.voter_weight_expiry matches Some(expiry) && expiry < slot {
        Some(Error::VoterWeightExpired)
    } else {
        None
    }
}

/// Computes `record_error`.
pub fn check_record(record: &VoterWeightRecord, clock: &Clock) -> (result: Result<(), Error>)
    ensures
        match record_error(record, clock.slot) {
            Some(error) => result == Err::<(), Error>(error),
            None => result is Ok,
        },
{
    if record.weight_action.is_some() {
        return Err(Error::UnexpectedWeightAction);
    }
    if record.weight_action_target.is_some() {
        return Err(Error::UnexpectedWeightActionTarget);
    }
    if let Some(expiry) = record.voter_weight_expiry {
        if expiry < clock.slot {
            return Err(Error::VoterWeightExpired);
        }
    }
    Ok(())
}

/// The entry for `clan` among `entries`. Meant for entries that
/// have one.
pub open spec fn entry_for(entries: Seq<MembershipEntry>, clan: Pubkey) -> MembershipEntry {
    entries[choose|i: int| 0 <= i < entries.len() && (#[trigger] entries[i]).clan == clan]
}

/// Among entries with distinct clans, the entry for a clan is the
/// only entry with that clan.
pub proof fn lemma_entry_for_unique(entries: Seq<MembershipEntry>, i: int)
    requires
        distinct_clans(entries),
        0 <= i < entries.len(),
    ensures
        entry_for(entries, entries[i].clan) == entries[i],
{
}

/// Counting the wanted entries of a prefix that is one entry longer.
proof fn lemma_wanted_count_step(entries: Seq<MembershipEntry>, skip: Option<Pubkey>, i: int)
    requires
        0 <= i < entries.len(),
    ensures
        wanted_count(entries.subrange(0, i + 1), skip) == wanted_count(
            entries.subrange(0, i),
            skip,
        ) + if is_wanted(entries[i], skip) {
            1nat
        } else {
            0nat
        },
{
    assert(entries.subrange(0, i + 1).drop_last() =~= entries.subrange(0, i));
}

/// Summing the active shares of a prefix that is one entry longer.
pub proof fn lemma_active_share_total_step(entries: Seq<MembershipEntry>, i: int)
    requires
        0 <= i < entries.len(),
    ensures
        active_share_total(entries.subrange(0, i + 1)) == active_share_total(
            entries.subrange(0, i),
        ) + if entries[i].is_active() {
            entries[i].share_bp as int
        } else {
            0
        },
{
    assert(entries.subrange(0, i + 1).drop_last() =~= entries.subrange(0, i));
}

/// The active shares sum to a value between zero and 65535 for each entry.
pub proof fn lemma_active_share_total_bounds(entries: Seq<MembershipEntry>)
    ensures
        0 <= active_share_total(entries) <= 65535 * entries.len(),
    decreases entries.len(),
{
    if entries.len() > 0 {
        lemma_active_share_total_bounds(entries.drop_last());
    }
}

impl Member {
    /// The member with `record`, read from the address `record_key`,
    /// as its cached weight.
    pub open spec fn with_weight(self, record_key: Pubkey, record: &VoterWeightRecord) -> Member {
        Member {
            voter_weight_record: record_key,
            voter_weight: record.voter_weight,
            voter_weight_expiry: record.voter_weight_expiry,
            ..self
        }
    }

    /// The realm-wide maximum after the member's weight has changed
    /// to `new_weight`.
    pub open spec fn max_after(&self, max_voter_weight: u64, new_weight: u64) -> int {
        max_voter_weight - self.voter_weight + new_weight
    }

    /// Whether the realm-wide maximum can follow a change of the
    /// member's weight to `new_weight`: the old weight is part of it,
    /// and the new maximum can be stored.
    pub open spec fn max_fits(&self, max_voter_weight: u64, new_weight: u64) -> bool {
        self.voter_weight <= max_voter_weight && self.max_after(max_voter_weight, new_weight)
            <= u64::MAX
    }

    /// Computes `max_fits`.
    pub fn max_is_storable(&self, max_vwr: &MaxVoterWeightRecord, new_weight: u64) -> (fits: bool)
        ensures
            fits == self.max_fits(max_vwr.max_voter_weight, new_weight),
    {
        self.voter_weight <= max_vwr.max_voter_weight && (max_vwr.max_voter_weight
            - self.voter_weight) as u128 + new_weight as u128 <= u64::MAX as u128
    }

    /// Makes `member_vwr`, read from the address `member_vwr_key`,
    /// the cached weight of the member, and moves the realm-wide
    /// maximum by the difference to the old weight.
    pub fn update_voter_weight(
        member: &mut Account<Member>,
        member_vwr_key: Pubkey,
        member_vwr: &VoterWeightRecord,
        max_vwr: &mut MaxVoterWeightRecord,
        clock: &Clock,
    ) -> (result: Result<(MemberVoterWeightChanged, MaxVoterWeightChanged), Error>)
        requires
            record_error(member_vwr, clock.slot) is None ==> old(member).data.max_fits(
                old(max_vwr).max_voter_weight,
                member_vwr.voter_weight,
            ),
        ensures
            match record_error(member_vwr, clock.slot) {
                Some(error) => {
                    &&& result == Err::<(MemberVoterWeightChanged, MaxVoterWeightChanged), Error>(
                        error,
                    )
                    &&& *final(member) == *old(member)
                    &&& *final(max_vwr) == *old(max_vwr)
                },
                None => {
                    &&& result matches Ok((member_event, max_event))
                    &&& final(member).key == old(member).key
                    &&& final(member).data == old(member).data.with_weight(
                        member_vwr_key,
                        member_vwr,
                    )
                    &&& *final(max_vwr) == (MaxVoterWeightRecord {
                        max_voter_weight: old(member).data.max_after(
                            old(max_vwr).max_voter_weight,
                            member_vwr.voter_weight,
                        ) as u64,
                        ..*old(max_vwr)
                    })
                    &&& member_event == (MemberVoterWeightChanged {
                        member: old(member).key,
                        root: old(member).data.root,
                        old_voter_weight: old(member).data.voter_weight,
                        new_voter_weight: member_vwr.voter_weight,
                        old_voter_weight_record: old(member).data.voter_weight_record,
                        new_voter_weight_record: member_vwr_key,
                    })
                    &&& max_event == (MaxVoterWeightChanged {
                        root: old(member).data.root,
                        old_max_voter_weight: old(max_vwr).max_voter_weight,
                        new_max_voter_weight: final(max_vwr).max_voter_weight,
                    })
                },
            },
    {
        match check_record(member_vwr, clock) {
            Err(error) => {
                return Err(error);
            },
            Ok(()) => {},
        }
        let old_voter_weight_record = member.data.voter_weight_record;
        let old_member_voter_weight = member.data.voter_weight;
        let old_max_voter_weight = max_vwr.max_voter_weight;
        max_vwr.max_voter_weight -= old_member_voter_weight;
        member.data.voter_weight_record = member_vwr_key;
        member.data.voter_weight = member_vwr.voter_weight;
        member.data.voter_weight_expiry = member_vwr.voter_weight_expiry;
        max_vwr.max_voter_weight += member_vwr.voter_weight;
        Ok(
            (
                MemberVoterWeightChanged {
                    member: member.key,
                    root: member.data.root,
                    old_voter_weight: old_member_voter_weight,
                    new_voter_weight: member.data.voter_weight,
                    old_voter_weight_record,
                    new_voter_weight_record: member.data.voter_weight_record,
                },
                MaxVoterWeightChanged {
                    root: member.data.root,
                    old_max_voter_weight,
                    new_max_voter_weight: max_vwr.max_voter_weight,
                },
            ),
        )
    }
    /// The number of entries that an operation refreshes.
    pub fn wanted_len(&self, skip: Option<Pubkey>) -> (count: usize)
        ensures
            count == wanted_count(self.membership@, skip),
    {
        let mut count: usize = 0;
        let mut i: usize = 0;
        while i < self.membership.len()
            invariant
                i <= self.membership@.len(),
                count == wanted_count(self.membership@.subrange(0, i as int), skip),
                count <= i,
            decreases self.membership@.len() - i,
        {
            proof {
                lemma_wanted_count_step(self.membership@, skip, i as int);
            }
            let entry = self.membership[i];
            let skipped = match skip {
                Some(clan) => entry.clan == clan,
                None => false,
            };
            if entry.leaving_time.is_none() && !skipped {
                count += 1;
            }
            i += 1;
        }
        assert(self.membership@.subrange(0, self.membership@.len() as int) =~= self.membership@);
        count
    }

    /// The sum of the shares of the active entries.
    pub fn active_share_sum(&self) -> (total: u64)
        requires
            self.membership@.len() <= MAX_MEMBERSHIP,
        ensures
            total == active_share_total(self.membership@),
    {
        let mut total: u64 = 0;
        let mut i: usize = 0;
        while i < self.membership.len()
            invariant
                i <= self.membership@.len() <= MAX_MEMBERSHIP,
                total == active_share_total(self.membership@.subrange(0, i as int)),
                total <= 65535 * i,
            decreases self.membership@.len() - i,
        {
            proof {
                lemma_active_share_total_step(self.membership@, i as int);
            }
            let entry = self.membership[i];
            if entry.leaving_time.is_none() {
                total += entry.share_bp as u64;
            }
            i += 1;
        }
        assert(self.membership@.subrange(0, self.membership@.len() as int) =~= self.membership@);
        total
    }

    /// The position of the entry for `clan`, if the member has one.
    pub fn find_entry(&self, clan: Pubkey) -> (position: Option<usize>)
        ensures
            match position {
                Some(i) => {
                    &&& i < self.membership@.len()
                    &&& self.membership@[i as int].clan == clan
                    &&& forall|j: int| 0 <= j < i ==> (#[trigger] self.membership@[j]).clan != clan
                },
                None => forall|j: int|
                    0 <= j < self.membership@.len() ==> (#[trigger] self.membership@[j]).clan
                        != clan,
            },
    {
        let mut i: usize = 0;
        while i < self.membership.len()
            invariant
                i <= self.membership@.len(),
                forall|j: int| 0 <= j < i ==> (#[trigger] self.membership@[j]).clan != clan,
            decreases self.membership@.len() - i,
        {
            if self.membership[i].clan == clan {
                return Some(i);
            }
            i += 1;
        }
        None
    }

    /// Matches the supplied clans with the entries that are to be
    /// refreshed: the active entries, but for the entry of the clan
    /// `skip` if one is given. Each of those entries needs its clan
    /// among `chunks`, with the clan's own weight record, in any order
    /// and once; `chunks` may hold more after them. Hands back the
    /// entry of each clan, in the order of `chunks`.
    pub fn load_clan_chunks(&self, chunks: &Vec<ClanChunk>, skip: Option<Pubkey>) -> (result: Result<
        Vec<MembershipEntry>,
        Error,
    >)
        requires
            distinct_clans(self.membership@),
        ensures
            match load_error(self.membership@, skip, chunks@) {
                Some(error) => result == Err::<Vec<MembershipEntry>, Error>(error),
                None => {
                    &&& result matches Ok(entries)
                    &&& entries@.len() == wanted_count(self.membership@, skip)
                    &&& entries@.len() <= chunks@.len()
                    &&& forall|k: int|
                        0 <= k < entries@.len() ==> {
                            &&& #[trigger] entries@[k] == entry_for(
                                self.membership@,
                                chunks@[k].clan.key,
                            )
                            &&& is_wanted(entries@[k], skip)
                            &&& entries@[k].clan == chunks@[k].clan.key
                            &&& chunks@[k].clan.data.voter_weight_record == chunks@[k].vwr.key
                        }
                },
            },
    {
        let needed = self.wanted_len(skip);
        let ghost clans = chunk_clans(chunks@);
        let mut entries: Vec<MembershipEntry> = Vec::new();
        let mut k: usize = 0;
        while k < needed
            invariant
                k <= needed,
                needed == wanted_count(self.membership@, skip),
                clans == chunk_clans(chunks@),
                distinct_clans(self.membership@),
                k <= chunks@.len(),
                entries@.len() == k,
                load_error(self.membership@, skip, chunks@) == load_error_from(
                    self.membership@,
                    skip,
                    chunks@,
                    k as int,
                ),
                forall|j: int|
                    0 <= j < k ==> {
                        &&& #[trigger] entries@[j] == entry_for(
                            self.membership@,
                            chunks@[j].clan.key,
                        )
                        &&& is_wanted(entries@[j], skip)
                        &&& entries@[j].clan == chunks@[j].clan.key
                        &&& chunks@[j].clan.data.voter_weight_record == chunks@[j].vwr.key
                    },
            decreases needed - k,
        {
            if k >= chunks.len() {
                return Err(Error::NotEnoughAccountKeys);
            }
            if chunks[k].clan.data.voter_weight_record != chunks[k].vwr.key {
                return Err(Error::ConstraintSeeds);
            }
            let clan = chunks[k].clan.key;
            assert(clans[k as int] == clan);
            let entry = match self.find_entry(clan) {
                Some(i) => {
                    proof {
                        lemma_entry_for_unique(self.membership@, i as int);
                    }
                    self.membership[i]
                },
                None => {
                    assert(!is_expected(self.membership@, skip, clans, k as int));
                    return Err(Error::UnexpectedClan);
                },
            };
            let skipped = match skip {
                Some(other) => entry.clan == other,
                None => false,
            };
            if entry.leaving_time.is_some() || skipped {
                assert(!has_wanted(self.membership@, skip, clan)) by {
                    assert forall|i: int|
                        0 <= i < self.membership@.len() && self.membership@[i].clan
                            == clan implies !is_wanted(#[trigger] self.membership@[i], skip) by {
                        lemma_entry_for_unique(self.membership@, i);
                    }
                }
                assert(!is_expected(self.membership@, skip, clans, k as int));
                return Err(Error::UnexpectedClan);
            }
            let mut j: usize = 0;
            while j < k
                invariant
                    j <= k < chunks@.len(),
                    k < needed,
                    needed == wanted_count(self.membership@, skip),
                    clans == chunk_clans(chunks@),
                    chunks@[k as int].clan.data.voter_weight_record == chunks@[k as int].vwr.key,
                    load_error(self.membership@, skip, chunks@) == load_error_from(
                        self.membership@,
                        skip,
                        chunks@,
                        k as int,
                    ),
                    clans[k as int] == clan,
                    forall|i: int| 0 <= i < j ==> #[trigger] clans[i] != clan,
                decreases k - j,
            {
                if chunks[j].clan.key == clan {
                    assert(clans[j as int] == clans[k as int]);
                    assert(!is_expected(self.membership@, skip, clans, k as int));
                    return Err(Error::UnexpectedClan);
                }
                j += 1;
            }
            assert(has_wanted(self.membership@, skip, clan));
            assert(is_expected(self.membership@, skip, clans, k as int));
            entries.push(entry);
            k += 1;
        }
        Ok(entries)
    }

    /// The clan of a chunk after the member's weight has been
    /// refreshed in it: the clan is reset if that is due, and the
    /// member's contribution is posted again with the fresh weight.
    pub open spec fn refreshed_ledger(
        &self,
        root: &Root,
        entry: &MembershipEntry,
        chunk: &ClanChunk,
        new_member_vwr: &VoterWeightRecord,
    ) -> crate::state::ledger::Ledger {
        chunk.clan.data.after_reset(root).posted_ledger(
            &chunk.clan.data.record_after_reset(root, chunk.vwr.data),
            self,
            Some(entry.share_bp),
            Some(new_member_vwr),
            Some(entry.share_bp),
        )
    }

    /// Whether the member's weight can be refreshed in the clan of a
    /// chunk: after the reset, if one is due, the posting can be
    /// carried out.
    pub open spec fn can_refresh(
        &self,
        root: &Root,
        entry: &MembershipEntry,
        chunk: &ClanChunk,
        new_member_vwr: &VoterWeightRecord,
    ) -> bool {
        chunk.clan.data.after_reset(root).can_post(
            &chunk.clan.data.record_after_reset(root, chunk.vwr.data),
            self,
            Some(entry.share_bp),
            Some(new_member_vwr),
            Some(entry.share_bp),
        )
    }

    /// The chunk after the member's weight has been refreshed in it
    /// in slot `slot`.
    pub open spec fn refreshed_chunk(
        &self,
        root: &Root,
        entry: &MembershipEntry,
        chunk: ClanChunk,
        new_member_vwr: &VoterWeightRecord,
        slot: u64,
    ) -> ClanChunk {
        let ledger = self.refreshed_ledger(root, entry, &chunk, new_member_vwr);
        ClanChunk {
            clan: Account {
                key: chunk.clan.key,
                data: chunk.clan.data.after_reset(root).with_ledger(ledger),
            },
            vwr: Account {
                key: chunk.vwr.key,
                data: Clan::record_with_ledger(
                    chunk.clan.data.record_after_reset(root, chunk.vwr.data),
                    ledger,
                    slot,
                ),
            },
        }
    }

    /// What is reported when the member's weight has been refreshed
    /// in the clan of a chunk in slot `slot`.
    pub open spec fn refresh_event(
        &self,
        root: &Root,
        entry: &MembershipEntry,
        chunk: &ClanChunk,
        new_member_vwr: &VoterWeightRecord,
        slot: u64,
    ) -> ClanVoterWeightChanged {
        let before = chunk.clan.data.record_after_reset(root, chunk.vwr.data);
        let after = self.refreshed_chunk(root, entry, *chunk, new_member_vwr, slot);
        ClanVoterWeightChanged {
            clan: chunk.clan.key,
            root: chunk.clan.data.root,
            old_voter_weight: before.voter_weight,
            new_voter_weight: after.vwr.data.voter_weight,
            old_permament_voter_weight: chunk.clan.data.permanent_voter_weight,
            new_permament_voter_weight: after.clan.data.permanent_voter_weight,
            old_is_permanent: before.voter_weight_expiry is None,
            new_is_permanent: after.vwr.data.voter_weight_expiry is None,
        }
    }

    /// Whether one of the first `count` chunks has a clan that turns
    /// the weight record down.
    pub open spec fn some_clan_rejects(chunks: Seq<ClanChunk>, count: nat, record: &VoterWeightRecord) -> bool {
        exists|k: int| 0 <= k < count && (#[trigger] chunks[k]).clan.data.rejects(Some(record))
    }

    /// Whether the member's weight can be refreshed in the clan of
    /// each of the first `count` chunks.
    pub open spec fn can_refresh_all(
        &self,
        root: &Root,
        chunks: Seq<ClanChunk>,
        count: nat,
        record: &VoterWeightRecord,
    ) -> bool {
        forall|k: int|
            0 <= k < count ==> self.can_refresh(
                root,
                &entry_for(self.membership@, (#[trigger] chunks[k]).clan.key),
                &chunks[k],
                record,
            )
    }

    /// The chunks after the member's weight has been refreshed in the
    /// clans of the first `count` of them.
    pub open spec fn refreshed_chunks(
        &self,
        root: &Root,
        chunks: Seq<ClanChunk>,
        count: nat,
        record: &VoterWeightRecord,
        slot: u64,
    ) -> Seq<ClanChunk> {
        Seq::new(
            chunks.len(),
            |k: int|
                if k < count {
                    self.refreshed_chunk(
                        root,
                        &entry_for(self.membership@, chunks[k].clan.key),
                        chunks[k],
                        record,
                        slot,
                    )
                } else {
                    chunks[k]
                },
        )
    }

    /// What is reported when the member's weight has been refreshed
    /// in the clans of the first `count` chunks.
    pub open spec fn refresh_events(
        &self,
        root: &Root,
        chunks: Seq<ClanChunk>,
        count: nat,
        record: &VoterWeightRecord,
        slot: u64,
    ) -> Seq<ClanVoterWeightChanged> {
        Seq::new(
            count,
            |k: int|
                self.refresh_event(
                    root,
                    &entry_for(self.membership@, chunks[k].clan.key),
                    &chunks[k],
                    record,
                    slot,
                ),
        )
    }

    /// Whether none of the first `count` chunks has a clan that turns
    /// the weight record down.
    pub fn all_clans_accept(chunks: &Vec<ClanChunk>, count: usize, record: &VoterWeightRecord) -> (accepted: bool)
        requires
            count <= chunks@.len(),
        ensures
            accepted == !Member::some_clan_rejects(chunks@, count as nat, record),
    {
        if record.voter_weight_expiry.is_none() {
            return true;
        }
        let mut k: usize = 0;
        while k < count
            invariant
                k <= count <= chunks@.len(),
                record.voter_weight_expiry is Some,
                forall|j: int| 0 <= j < k ==> !(#[trigger] chunks@[j]).clan.data.rejects(Some(record)),
            decreases count - k,
        {
            if !chunks[k].clan.data.accept_temporary_members {
                return false;
            }
            k += 1;
        }
        true
    }

    /// Computes `can_refresh_all` for the first chunks, one for each
    /// of `entries`, which are the member's entries for those clans.
    pub fn can_refresh_memberships(
        &self,
        root: &Root,
        entries: &Vec<MembershipEntry>,
        chunks: &Vec<ClanChunk>,
        record: &VoterWeightRecord,
    ) -> (possible: bool)
        requires
            entries@.len() <= chunks@.len(),
            forall|k: int|
                0 <= k < entries@.len() ==> #[trigger] entries@[k] == entry_for(
                    self.membership@,
                    chunks@[k].clan.key,
                ),
        ensures
            possible == self.can_refresh_all(root, chunks@, entries@.len(), record),
    {
        let mut k: usize = 0;
        while k < entries.len()
            invariant
                k <= entries@.len() <= chunks@.len(),
                forall|j: int|
                    0 <= j < entries@.len() ==> #[trigger] entries@[j] == entry_for(
                        self.membership@,
                        chunks@[j].clan.key,
                    ),
                forall|j: int|
                    0 <= j < k ==> self.can_refresh(
                        root,
                        &entry_for(self.membership@, (#[trigger] chunks@[j]).clan.key),
                        &chunks@[j],
                        record,
                    ),
            decreases entries@.len() - k,
        {
            let share_bp = entries[k].share_bp;
            if !chunks[k].clan.data.can_post_after_reset(
                &chunks[k].vwr.data,
                root,
                self,
                Some(share_bp),
                Some(record),
                Some(share_bp),
            ) {
                assert(!self.can_refresh(
                    root,
                    &entry_for(self.membership@, chunks@[k as int].clan.key),
                    &chunks@[k as int],
                    record,
                ));
                return false;
            }
            k += 1;
        }
        true
    }

    /// Refreshes the member's weight in the clans of the first
    /// chunks, one for each of `entries`, which are the member's
    /// entries for those clans.
    pub fn refresh_memberships(
        &self,
        root: &Root,
        entries: &Vec<MembershipEntry>,
        chunks: &mut Vec<ClanChunk>,
        record: &VoterWeightRecord,
        clock: &Clock,
    ) -> (events: Vec<ClanVoterWeightChanged>)
        requires
            entries@.len() <= old(chunks)@.len(),
            forall|k: int|
                0 <= k < entries@.len() ==> {
                    &&& #[trigger] entries@[k] == entry_for(self.membership@, old(chunks)@[k].clan.key)
                    &&& entries@[k].is_active()
                    &&& entries@[k].clan == old(chunks)@[k].clan.key
                },
            !Member::some_clan_rejects(old(chunks)@, entries@.len(), record),
            self.can_refresh_all(root, old(chunks)@, entries@.len(), record),
        ensures
            final(chunks)@ == self.refreshed_chunks(
                root,
                old(chunks)@,
                entries@.len(),
                record,
                clock.slot,
            ),
            events@ == self.refresh_events(root, old(chunks)@, entries@.len(), record, clock.slot),
            forall|k: int|
                0 <= k < entries@.len() ==> (#[trigger] final(chunks)@[k]).clan.data.wf(
                    &final(chunks)@[k].vwr.data,
                ),
    {
        let mut events: Vec<ClanVoterWeightChanged> = Vec::new();
        let mut k: usize = 0;
        while k < entries.len()
            invariant
                k <= entries@.len() <= chunks@.len(),
                chunks@.len() == old(chunks)@.len(),
                forall|j: int|
                    0 <= j < entries@.len() ==> {
                        &&& #[trigger] entries@[j] == entry_for(
                            self.membership@,
                            old(chunks)@[j].clan.key,
                        )
                        &&& entries@[j].is_active()
                        &&& entries@[j].clan == old(chunks)@[j].clan.key
                    },
                !Member::some_clan_rejects(old(chunks)@, entries@.len(), record),
                self.can_refresh_all(root, old(chunks)@, entries@.len(), record),
                forall|j: int|
                    0 <= j < k ==> {
                        &&& #[trigger] chunks@[j] == self.refreshed_chunk(
                            root,
                            &entry_for(self.membership@, old(chunks)@[j].clan.key),
                            old(chunks)@[j],
                            record,
                            clock.slot,
                        )
                        &&& chunks@[j].clan.data.wf(&chunks@[j].vwr.data)
                    },
                forall|j: int| k <= j < chunks@.len() ==> #[trigger] chunks@[j] == old(chunks)@[j],
                events@.len() == k,
                forall|j: int|
                    0 <= j < k ==> #[trigger] events@[j] == self.refresh_event(
                        root,
                        &entry_for(self.membership@, old(chunks)@[j].clan.key),
                        &old(chunks)@[j],
                        record,
                        clock.slot,
                    ),
            decreases entries@.len() - k,
        {
            let entry = entries[k];
            match self.refresh_membership(root, &entry, &mut chunks[k], record, clock) {
                Ok(event) => {
                    events.push(event);
                },
                Err(_) => {},
            }
            k += 1;
        }
        assert(chunks@ =~= self.refreshed_chunks(
            root,
            old(chunks)@,
            entries@.len(),
            record,
            clock.slot,
        ));
        assert(events@ =~= self.refresh_events(
            root,
            old(chunks)@,
            entries@.len(),
            record,
            clock.slot,
        ));
        events
    }

    /// Refreshes the member's weight in one of its clans: resets the
    /// clan if `root`'s schedule has moved on, and posts the member's
    /// contribution again, under the share of `entry`, with the weight
    /// of `new_member_vwr`.
    pub fn refresh_membership(
        &self,
        root: &Root,
        entry: &MembershipEntry,
        chunk: &mut ClanChunk,
        new_member_vwr: &VoterWeightRecord,
        clock: &Clock,
    ) -> (result: Result<ClanVoterWeightChanged, Error>)
        requires
            entry.clan == old(chunk).clan.key,
            entry.is_active(),
            !old(chunk).clan.data.rejects(Some(new_member_vwr)) ==> self.can_refresh(
                root,
                entry,
                old(chunk),
                new_member_vwr,
            ),
        ensures
            old(chunk).clan.data.rejects(Some(new_member_vwr)) ==> result == Err::<
                ClanVoterWeightChanged,
                Error,
            >(Error::TemporaryMembersNotAllowed) && *final(chunk) == *old(chunk),
            !old(chunk).clan.data.rejects(Some(new_member_vwr)) ==> {
                &&& result matches Ok(event)
                &&& *final(chunk) == self.refreshed_chunk(
                    root,
                    entry,
                    *old(chunk),
                    new_member_vwr,
                    clock.slot,
                )
                &&& final(chunk).clan.data.wf(&final(chunk).vwr.data)
                &&& event == self.refresh_event(root, entry, old(chunk), new_member_vwr, clock.slot)
            },
    {
        if new_member_vwr.voter_weight_expiry.is_some() && !chunk.clan.data.accept_temporary_members {
            return Err(Error::TemporaryMembersNotAllowed);
        }
        chunk.clan.data.reset_voter_weight_if_needed(root, &mut chunk.vwr.data);
        Clan::update_member(
            &mut chunk.clan,
            self,
            Some(entry.share_bp),
            Some(new_member_vwr),
            Some(entry.share_bp),
            &mut chunk.vwr.data,
            clock,
        )
    }
}

} // verus!
