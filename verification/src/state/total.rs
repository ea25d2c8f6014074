//! The realm-wide maximum as the sum of the weights of all members.

use vstd::prelude::*;
use crate::pubkey::Pubkey;
use crate::state::clan_vwr::VoterWeightRecord;
use crate::state::max_voter_weight::MaxVoterWeightRecord;
use crate::state::member::Member;

verus! {

/// The sum of the cached weights of `members`.
pub open spec fn total_voter_weight(members: Seq<Member>) -> int
    decreases members.len(),
{
    if members.len() == 0 {
        0
    } else {
        total_voter_weight(members.drop_last()) + members.last().voter_weight
    }
}

/// Replacing one member changes the sum of the weights by the
/// difference of the two weights, and no weight exceeds the sum.
pub proof fn lemma_total_voter_weight_update(members: Seq<Member>, i: int, member: Member)
    requires
        0 <= i < members.len(),
    ensures
        0 <= members[i].voter_weight <= total_voter_weight(members),
        total_voter_weight(members.update(i, member)) == total_voter_weight(members)
            - members[i].voter_weight + member.voter_weight,
    decreases members.len(),
{
    let updated = members.update(i, member);
    lemma_total_voter_weight_bounds(members.drop_last());
    if i == members.len() - 1 {
        assert(updated.drop_last() =~= members.drop_last());
    } else {
        assert(updated.drop_last() =~= members.drop_last().update(i, member));
        lemma_total_voter_weight_update(members.drop_last(), i, member);
    }
}

/// The sum of the weights is not negative.
pub proof fn lemma_total_voter_weight_bounds(members: Seq<Member>)
    ensures
        0 <= total_voter_weight(members),
    decreases members.len(),
{
    if members.len() > 0 {
        lemma_total_voter_weight_bounds(members.drop_last());
    }
}

/// Where the realm-wide maximum is the sum of the weights of all
/// members, it covers the weight of each, and it still is the sum
/// after one member has taken its weight from a record and the
/// maximum has been moved along.
pub proof fn max_voter_weight_is_total(
    members: Seq<Member>,
    i: int,
    max_vwr: MaxVoterWeightRecord,
    record_key: Pubkey,
    record: VoterWeightRecord,
)
    requires
        0 <= i < members.len(),
        max_vwr.max_voter_weight == total_voter_weight(members),
    ensures
        members[i].voter_weight <= max_vwr.max_voter_weight,
        members[i].max_after(max_vwr.max_voter_weight, record.voter_weight) == total_voter_weight(
            members.update(i, members[i].with_weight(record_key, &record)),
        ),
{
    lemma_total_voter_weight_update(members, i, members[i].with_weight(record_key, &record));
}

/// A member without weight, as every member is when it is created,
/// leaves the sum of the weights as it is.
pub proof fn new_member_keeps_total(members: Seq<Member>, member: Member)
    requires
        member.voter_weight == 0,
    ensures
        total_voter_weight(members.push(member)) == total_voter_weight(members),
{
    assert(members.push(member).drop_last() =~= members);
}

} // verus!
