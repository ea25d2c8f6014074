//! Why an operation was rejected.

use vstd::prelude::*;

verus! {

/// The reasons for which an operation is rejected. A rejected
/// operation leaves every account as it was.
#[derive(Clone, Copy, Debug, PartialEq, Eq, Structural)]
pub enum Error {
    /// The realm has no authority.
    EmptyRealmAuthority,
    /// The signer is not the authority of the realm.
    WrongRealmAuthority,
    /// The signer is neither the owner nor the delegate of the member.
    WrongMemberAuthority,
    /// The signer is neither the owner nor the delegate of the clan.
    WrongClanAuthority,
    /// The member's share of its weight is below the clan's minimum.
    TooLowVotingPower,
    /// The delay before the member may leave has not passed.
    TooEarlyToLeaveClan,
    /// The member has not begun to leave the clan.
    UnexpectedLeavingClan,
    /// The vote on the proposal already carries the clan's weight.
    NoNeedToUpdateProposalVote,
    /// The source of community weights is not this program.
    WrongCommunityVoterWeightAddin,
    /// The realm has no source of community weights.
    EmptyCommunityVoterWeightAddin,
    /// The source of the maximum community weight is not this program.
    WrongMaxCommunityVoterWeightAddin,
    /// The realm has no source of the maximum community weight.
    EmptyMaxCommunityVoterWeightAddin,
    /// The source of council weights is not this program.
    WrongCouncilVoterWeightAddin,
    /// The realm has no source of council weights.
    MustUseCouncilVoterWeightAddin,
    /// The source of the maximum council weight is not this program.
    WrongCouncilMaxVoteWeightAddin,
    /// The realm has no source of the maximum council weight.
    MustUseCouncilMaxVoteWeightAddin,
    /// The clan has a voting delegate, which must be reset before its owner changes.
    ChangingVoteDelegatedClanOwner,
    /// No clan was supplied.
    ClanIsRequired,
    /// No weight record of the clan was supplied.
    ClanVoterWeightRecordIsRequired,
    /// No weight record was supplied.
    VotingWeightRecordIsRequired,
    /// No maximum weight record was supplied.
    MaxVoterWeightIsRequired,
    /// No authority of the clan was supplied.
    ClanAuthorityIsRequired,
    /// The member is already leaving the clan.
    RerequestingLeavingClan,
    /// The member is not leaving the clan.
    CancelingNonExistentLeavingClanRequest,
    /// The member is in a clan already.
    AlreadyJoinedClan,
    /// The mint is neither the community nor the council mint of the realm.
    UnknownGoverningTokenMint,
    /// The mint is not the council mint of the realm.
    InvalidCouncilMint,
    /// The realm has no council mint.
    CouncilMintRequired,
    /// The council token holdings of the realm were not supplied.
    CouncilTokenHoldingsRequired,
    /// The source of member weights would be this program itself.
    CircularPluginChain,
    /// The weight record expires.
    VoterWeightExpiryIsNotImplemented,
    /// The weight record is bound to a governance action.
    UnexpectedWeightAction,
    /// The weight record is bound to the target of a governance action.
    UnexpectedWeightActionTarget,
    /// The configuration of the realm must follow.
    NextInstructionMustBeSetRealmConfig,
    /// The weight record expired before the current slot.
    VoterWeightExpired,
    /// A clan was supplied that the member does not belong to, belongs
    /// to but is leaving, or that was supplied before.
    UnexpectedClan,
    /// The share is below the member's present share in the clan, or
    /// the member's shares would exceed the whole.
    InvalidShareBp,
    /// The member has no room for another clan.
    MaxMembershipExceeded,
    /// The weight expires and the clan accepts no such weight.
    TemporaryMembersNotAllowed,
    /// The member has votes on the host that it has not relinquished.
    MemberHasUnrelinquishedVotes,
    /// The member has proposals on the host that are still open.
    MemberHasOutstandingProposals,
    /// The root is paused.
    Paused,
    /// No weight record was supplied although the root is not paused.
    MemberVwrRequired,
    /// The next reset time of a schedule that is set cannot be changed.
    CanNotChangeNextResetTime,
    /// A new schedule needs a step greater than zero.
    InvalidResetStep,
    /// The first reset of a new schedule must lie in the future.
    InvalidNextResetTime,
    /// The source of member weights can change only while the
    /// realm-wide maximum weight is zero.
    ResetAllVoterWeightsFirst,
    /// Some temporary member of the clan has not refreshed its weight
    /// since the last reset.
    TemporaryMembersNotUpdated,
    /// The member is not leaving the clan.
    UnexpectedExitingClan,
    /// The exit delay has not passed and the clan still has votes or
    /// proposals on the host.
    TooEarlyToExitClan,
    /// Fewer accounts were supplied than the operation needs.
    NotEnoughAccountKeys,
    /// An account does not refer to the account it was supplied with.
    ConstraintHasOne,
    /// An account is not at the address that another account records.
    ConstraintAddress,
    /// An account is not at the address that is derived for it.
    ConstraintSeeds,
    /// Two addresses that must be equal differ.
    RequireKeysEqViolated,
    /// A value is below the value it must reach.
    RequireGteViolated,
    /// A value is not above the value it must exceed.
    RequireGtViolated,
}

} // verus!
