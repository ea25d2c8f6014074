//! The books of a clan as sums over its members, and the proofs that
//! postings and resets keep the books equal to those sums.

use vstd::prelude::*;
use crate::state::clan::{posted_expiry, posted_weight, Clan};
use crate::state::clan_vwr::VoterWeightRecord;
use crate::state::ledger::Ledger;
use crate::state::member::{lemma_share_of_bounds, share_of, Member};
use crate::state::root::Root;

verus! {

/// What one member that is in a clan, and not leaving it, brings to
/// the clan.
pub struct Contribution {
    /// The member's cached weight.
    pub weight: u64,
    /// The member's share for the clan.
    pub share_bp: u16,
    /// Whether the weight does not expire.
    pub permanent: bool,
    /// The reset time under which the weight was read.
    pub reset_time: Option<i64>,
}

impl Contribution {
    /// The part of the member's weight that goes to the clan.
    pub open spec fn amount(self) -> int {
        share_of(self.weight, self.share_bp)
    }

    /// Whether the contribution is temporary and was read under
    /// another reset time than `clan_reset_time`.
    pub open spec fn is_outdated(self, clan_reset_time: Option<i64>) -> bool {
        !self.permanent && self.reset_time != clan_reset_time
    }

    /// Whether the contribution is temporary and up to date.
    pub open spec fn is_fresh(self, clan_reset_time: Option<i64>) -> bool {
        !self.permanent && self.reset_time == clan_reset_time
    }

    /// What `member` brings to a clan under the share `share_bp`.
    pub open spec fn of(member: &Member, share_bp: u16) -> Contribution {
        Contribution {
            weight: member.voter_weight,
            share_bp,
            permanent: member.is_permanent(),
            reset_time: member.next_voter_weight_reset_time,
        }
    }
}

/// The sum of `f` over the contributions of `roster`.
pub open spec fn sum_over(roster: Seq<Contribution>, f: spec_fn(Contribution) -> int) -> int
    decreases roster.len(),
{
    if roster.len() == 0 {
        0
    } else {
        sum_over(roster.drop_last(), f) + f(roster.last())
    }
}

/// Taking one contribution out lowers a sum by its term.
pub proof fn lemma_sum_over_remove(roster: Seq<Contribution>, f: spec_fn(Contribution) -> int, i: int)
    requires
        0 <= i < roster.len(),
    ensures
        sum_over(roster.remove(i), f) == sum_over(roster, f) - f(roster[i]),
    decreases roster.len(),
{
    if i < roster.len() - 1 {
        assert(roster.remove(i).drop_last() =~= roster.drop_last().remove(i));
        lemma_sum_over_remove(roster.drop_last(), f, i);
    }
}

/// Two sums agree where their terms agree on every contribution of
/// the roster.
pub proof fn lemma_sum_over_same(
    roster: Seq<Contribution>,
    f: spec_fn(Contribution) -> int,
    g: spec_fn(Contribution) -> int,
)
    requires
        forall|i: int| 0 <= i < roster.len() ==> f(#[trigger] roster[i]) == g(roster[i]),
    ensures
        sum_over(roster, f) == sum_over(roster, g),
    decreases roster.len(),
{
    if roster.len() > 0 {
        lemma_sum_over_same(roster.drop_last(), f, g);
    }
}

/// The weight of the permanent contributions of `roster`.
pub open spec fn permanent_weight(roster: Seq<Contribution>) -> int {
    sum_over(
        roster,
        |c: Contribution|
            if c.permanent {
                c.amount()
            } else {
                0
            },
    )
}

/// The weight of the temporary contributions of `roster` that are
/// up to date under `clan_reset_time`.
pub open spec fn fresh_temporary_weight(roster: Seq<Contribution>, clan_reset_time: Option<i64>) -> int {
    sum_over(
        roster,
        |c: Contribution|
            if c.is_fresh(clan_reset_time) {
                c.amount()
            } else {
                0
            },
    )
}

/// The number of permanent contributions of `roster`.
pub open spec fn permanent_count(roster: Seq<Contribution>) -> int {
    sum_over(
        roster,
        |c: Contribution|
            if c.permanent {
                1int
            } else {
                0int
            },
    )
}

/// The number of temporary contributions of `roster`.
pub open spec fn temporary_count(roster: Seq<Contribution>) -> int {
    sum_over(
        roster,
        |c: Contribution|
            if c.permanent {
                0int
            } else {
                1int
            },
    )
}

/// The number of temporary contributions of `roster` that are up to
/// date under `clan_reset_time`.
pub open spec fn fresh_temporary_count(roster: Seq<Contribution>, clan_reset_time: Option<i64>) -> int {
    sum_over(
        roster,
        |c: Contribution|
            if c.is_fresh(clan_reset_time) {
                1int
            } else {
                0int
            },
    )
}

/// The books that a clan with the reset time `clan_reset_time`
/// keeps of the members of `roster`: its weight is the permanent
/// weight and the temporary weight that is up to date.
pub open spec fn roster_ledger(roster: Seq<Contribution>, clan_reset_time: Option<i64>) -> Ledger {
    Ledger {
        voter_weight: permanent_weight(roster) + fresh_temporary_weight(roster, clan_reset_time),
        permanent_voter_weight: permanent_weight(roster),
        permanent_members: permanent_count(roster),
        temporary_members: temporary_count(roster),
        updated_temporary_members: fresh_temporary_count(roster, clan_reset_time),
    }
}

/// The books of a roster are well formed.
pub proof fn lemma_roster_ledger_wf(roster: Seq<Contribution>, clan_reset_time: Option<i64>)
    ensures
        roster_ledger(roster, clan_reset_time).wf(),
    decreases roster.len(),
{
    if roster.len() > 0 {
        lemma_roster_ledger_wf(roster.drop_last(), clan_reset_time);
        lemma_share_of_bounds(roster.last().weight, roster.last().share_bp);
    }
}

/// The books of a roster hold each of its contributions, and taking
/// one out of the books gives the books of the roster without it.
pub proof fn lemma_roster_ledger_withdraw(roster: Seq<Contribution>, clan_reset_time: Option<i64>, i: int)
    requires
        0 <= i < roster.len(),
    ensures
        roster_ledger(roster, clan_reset_time).holds(
            roster[i].weight,
            roster[i].share_bp,
            roster[i].permanent,
            roster[i].is_outdated(clan_reset_time),
        ),
        roster_ledger(roster.remove(i), clan_reset_time) == roster_ledger(
            roster,
            clan_reset_time,
        ).withdraw(
            roster[i].weight,
            roster[i].share_bp,
            roster[i].permanent,
            roster[i].is_outdated(clan_reset_time),
        ),
{
    let c = roster[i];
    let rest = roster.remove(i);
    let permanent_amount = |c: Contribution|
        if c.permanent {
            c.amount()
        } else {
            0
        };
    let fresh_amount = |c: Contribution|
        if c.is_fresh(clan_reset_time) {
            c.amount()
        } else {
            0
        };
    let permanent_one = |c: Contribution|
        if c.permanent {
            1int
        } else {
            0int
        };
    let temporary_one = |c: Contribution|
        if c.permanent {
            0int
        } else {
            1int
        };
    let fresh_one = |c: Contribution|
        if c.is_fresh(clan_reset_time) {
            1int
        } else {
            0int
        };
    lemma_sum_over_remove(roster, permanent_amount, i);
    lemma_sum_over_remove(roster, fresh_amount, i);
    lemma_sum_over_remove(roster, permanent_one, i);
    lemma_sum_over_remove(roster, temporary_one, i);
    lemma_sum_over_remove(roster, fresh_one, i);
    lemma_roster_ledger_wf(rest, clan_reset_time);
    lemma_share_of_bounds(c.weight, c.share_bp);
}

/// Putting a contribution that is permanent or up to date into the
/// books gives the books of the roster with it.
pub proof fn lemma_roster_ledger_deposit(roster: Seq<Contribution>, clan_reset_time: Option<i64>, c: Contribution)
    requires
        !c.is_outdated(clan_reset_time),
    ensures
        roster_ledger(roster.push(c), clan_reset_time) == roster_ledger(
            roster,
            clan_reset_time,
        ).deposit(c.weight, c.share_bp, c.permanent),
{
    assert(roster.push(c).drop_last() =~= roster);
}

/// A reset to a time under which no temporary contribution was read
/// gives the books of the same roster under the new time.
pub proof fn lemma_roster_ledger_reset(
    roster: Seq<Contribution>,
    clan_reset_time: Option<i64>,
    new_reset_time: Option<i64>,
)
    requires
        forall|i: int| 0 <= i < roster.len() ==> !(#[trigger] roster[i]).is_fresh(new_reset_time),
    ensures
        roster_ledger(roster, new_reset_time) == roster_ledger(roster, clan_reset_time).reset(),
{
    let zero = |c: Contribution| 0int;
    lemma_sum_over_same(
        roster,
        |c: Contribution|
            if c.is_fresh(new_reset_time) {
                c.amount()
            } else {
                0
            },
        zero,
    );
    lemma_sum_over_same(
        roster,
        |c: Contribution|
            if c.is_fresh(new_reset_time) {
                1int
            } else {
                0int
            },
        zero,
    );
    lemma_sum_over_zero(roster);
}

/// A sum of zeros is zero.
pub proof fn lemma_sum_over_zero(roster: Seq<Contribution>)
    ensures
        sum_over(roster, |c: Contribution| 0int) == 0,
    decreases roster.len(),
{
    if roster.len() > 0 {
        lemma_sum_over_zero(roster.drop_last());
    }
}

/// The roster of a clan after a posting: the member's old
/// contribution, at position `i`, is taken out where it had one, and
/// its new contribution, read under the clan's reset time, is added
/// where it has one.
pub open spec fn posted_roster(
    roster: Seq<Contribution>,
    i: int,
    clan: &Clan,
    member: &Member,
    old_share_bp: Option<u16>,
    new_member_vwr: Option<&VoterWeightRecord>,
    new_share_bp: Option<u16>,
) -> Seq<Contribution> {
    let without = if old_share_bp is Some {
        roster.remove(i)
    } else {
        roster
    };
    match new_share_bp {
        Some(share_bp) => without.push(
            Contribution {
                weight: posted_weight(member, new_member_vwr),
                share_bp,
                permanent: posted_expiry(member, new_member_vwr) is None,
                reset_time: clan.next_voter_weight_reset_time,
            },
        ),
        None => without,
    }
}

/// Where the books of a clan are those of its roster, they hold the
/// contribution that a posting takes out, and the posting leads to
/// the books of the roster after it: the clan's weight stays the sum
/// of its permanent weight and of the temporary contributions that
/// are up to date.
pub proof fn posting_keeps_books(
    clan: Clan,
    clan_vwr: VoterWeightRecord,
    roster: Seq<Contribution>,
    i: int,
    member: Member,
    old_share_bp: Option<u16>,
    new_member_vwr: Option<&VoterWeightRecord>,
    new_share_bp: Option<u16>,
)
    requires
        clan.ledger(&clan_vwr) == roster_ledger(roster, clan.next_voter_weight_reset_time),
        old_share_bp matches Some(share_bp) ==> 0 <= i < roster.len() && roster[i]
            == Contribution::of(&member, share_bp),
    ensures
        clan.ledger(&clan_vwr).wf(),
        old_share_bp matches Some(share_bp) ==> clan.ledger(&clan_vwr).holds(
            member.voter_weight,
            share_bp,
            member.is_permanent(),
            clan.is_outdated(&member),
        ),
        clan.posted_ledger(&clan_vwr, &member, old_share_bp, new_member_vwr, new_share_bp)
            == roster_ledger(
            posted_roster(roster, i, &clan, &member, old_share_bp, new_member_vwr, new_share_bp),
            clan.next_voter_weight_reset_time,
        ),
{
    let time = clan.next_voter_weight_reset_time;
    lemma_roster_ledger_wf(roster, time);
    let without = if old_share_bp is Some {
        roster.remove(i)
    } else {
        roster
    };
    if let Some(share_bp) = old_share_bp {
        lemma_roster_ledger_withdraw(roster, time, i);
    }
    if let Some(share_bp) = new_share_bp {
        lemma_roster_ledger_deposit(
            without,
            time,
            Contribution {
                weight: posted_weight(&member, new_member_vwr),
                share_bp,
                permanent: posted_expiry(&member, new_member_vwr) is None,
                reset_time: time,
            },
        );
    }
}

/// Where the books of a clan are those of its roster, they still are
/// after the clan has taken the root's schedule into account. This
/// needs that no temporary contribution was read under the reset
/// time that the clan moves to: the root's next reset time where a
/// reset is due, and none where the root has no schedule and the
/// clan had a reset time.
pub proof fn reset_keeps_books(
    clan: Clan,
    clan_vwr: VoterWeightRecord,
    roster: Seq<Contribution>,
    root: Root,
)
    requires
        clan.ledger(&clan_vwr) == roster_ledger(roster, clan.next_voter_weight_reset_time),
        clan.reset_is_due(&root) ==> forall|i: int|
            0 <= i < roster.len() ==> !(#[trigger] roster[i]).is_fresh(
                root.spec_next_voter_weight_reset_time(),
            ),
        root.voter_weight_reset is None && clan.next_voter_weight_reset_time is Some ==> forall|
            i: int,
        |
            0 <= i < roster.len() ==> (#[trigger] roster[i]).permanent,
    ensures
        clan.after_reset(&root).ledger(&clan.record_after_reset(&root, clan_vwr)) == roster_ledger(
            roster,
            clan.after_reset(&root).next_voter_weight_reset_time,
        ),
{
    let time = clan.next_voter_weight_reset_time;
    let new_time = clan.after_reset(&root).next_voter_weight_reset_time;
    if clan.reset_is_due(&root) {
        lemma_roster_ledger_reset(roster, time, new_time);
    } else if root.voter_weight_reset is None && time is Some {
        lemma_sum_over_same(
            roster,
            |c: Contribution|
                if c.is_fresh(time) {
                    c.amount()
                } else {
                    0
                },
            |c: Contribution|
                if c.is_fresh(new_time) {
                    c.amount()
                } else {
                    0
                },
        );
        lemma_sum_over_same(
            roster,
            |c: Contribution|
                if c.is_fresh(time) {
                    1int
                } else {
                    0int
                },
            |c: Contribution|
                if c.is_fresh(new_time) {
                    1int
                } else {
                    0int
                },
        );
    }
}

/// Where the books of a clan are those of its roster, they still are
/// after a member's weight has been refreshed in the clan: after the
/// reset, if one is due, and the posting of the member's contribution
/// with its fresh weight, the clan's weight is the sum of its
/// permanent weight and of the temporary contributions that are up to
/// date. This needs of the reset what `reset_keeps_books` needs.
pub proof fn refresh_keeps_books(
    clan: Clan,
    clan_vwr: VoterWeightRecord,
    roster: Seq<Contribution>,
    i: int,
    member: Member,
    share_bp: u16,
    record: VoterWeightRecord,
    root: Root,
)
    requires
        clan.ledger(&clan_vwr) == roster_ledger(roster, clan.next_voter_weight_reset_time),
        0 <= i < roster.len(),
        roster[i] == Contribution::of(&member, share_bp),
        clan.reset_is_due(&root) ==> forall|j: int|
            0 <= j < roster.len() ==> !(#[trigger] roster[j]).is_fresh(
                root.spec_next_voter_weight_reset_time(),
            ),
        root.voter_weight_reset is None && clan.next_voter_weight_reset_time is Some ==> forall|
            j: int,
        |
            0 <= j < roster.len() ==> (#[trigger] roster[j]).permanent,
    ensures
        clan.after_reset(&root).posted_ledger(
            &clan.record_after_reset(&root, clan_vwr),
            &member,
            Some(share_bp),
            Some(&record),
            Some(share_bp),
        ) == roster_ledger(
            posted_roster(
                roster,
                i,
                &clan.after_reset(&root),
                &member,
                Some(share_bp),
                Some(&record),
                Some(share_bp),
            ),
            clan.after_reset(&root).next_voter_weight_reset_time,
        ),
{
    reset_keeps_books(clan, clan_vwr, roster, root);
    posting_keeps_books(
        clan.after_reset(&root),
        clan.record_after_reset(&root, clan_vwr),
        roster,
        i,
        member,
        Some(share_bp),
        Some(&record),
        Some(share_bp),
    );
}

} // verus!
