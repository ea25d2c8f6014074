//! Refreshing a member's weight from the record it was last read from.

use vstd::prelude::*;
use crate::clock::Clock;
use crate::error::Error;
use crate::processor::member::refresh::{
    is_refreshed, refresh_error, refresh_fits, refresh_member_weight, try_refresh_member_weight,
    RefreshOutcome,
};
use crate::state::account::Account;
use crate::state::clan_vwr::VoterWeightRecord;
use crate::state::max_voter_weight::MaxVoterWeightRecord;
use crate::state::member::{ClanChunk, Member};
use crate::state::root::Root;

verus! {

/// The accounts of a refresh.
#[derive(Clone, Debug, PartialEq, Eq)]
pub struct UpdateVoterWeight {
    /// The member whose weight is refreshed.
    pub member: Account<Member>,
    /// The member's weight record. Left out while the root is paused:
    /// the member's weight then counts as zero.
    pub member_vwr: Option<Account<VoterWeightRecord>>,
    /// The root of the member.
    pub root: Account<Root>,
    /// The realm-wide maximum weight.
    pub max_vwr: MaxVoterWeightRecord,
}

impl UpdateVoterWeight {
    /// The weight that the refresh gives the member: that of its
    /// record or, where none is supplied, a weight of zero that does
    /// not expire.
    pub open spec fn weight_record(&self) -> VoterWeightRecord {
        match self.member_vwr {
            Some(account) => account.data,
            None => VoterWeightRecord {
                realm: self.root.data.realm,
                governing_token_mint: self.root.data.governing_token_mint,
                governing_token_owner: self.member.data.owner,
                voter_weight: 0,
                voter_weight_expiry: None,
                weight_action: None,
                weight_action_target: None,
                reserved: vstd::array::spec_array_fill_for_copy_type::<u8, 8>(0u8),
            },
        }
    }

    /// Why the accounts do not belong together, if they do not.
    pub open spec fn account_error(&self) -> Option<Error> {
        if self.member.data.root != self.root.key {
            Some(Error::ConstraintHasOne)
        } else if self.member_vwr matches Some(account) && account.key
            != self.member.data.voter_weight_record {
            Some(Error::ConstraintAddress)
        } else {
            None
        }
    }

    /// Why the refresh is turned down whatever clans are supplied,
    /// if it is; the first reason that applies. A record must be
    /// supplied unless the root is paused, must not be supplied while
    /// it is, and must be that of the member in the root's realm.
    pub open spec fn prelude_error(&self) -> Option<Error> {
        if self.account_error() is Some {
            self.account_error()
        } else if self.member_vwr is Some && self.root.data.paused {
            Some(Error::Paused)
        } else if self.member_vwr is None && !self.root.data.paused {
            Some(Error::MemberVwrRequired)
        } else if self.weight_record().realm != self.root.data.realm
            || self.weight_record().governing_token_mint != self.root.data.governing_token_mint
            || self.weight_record().governing_token_owner != self.member.data.owner {
            Some(Error::RequireKeysEqViolated)
        } else {
            None
        }
    }

    /// Why the refresh is turned down, if it is; the first reason
    /// that applies: one that lies in the accounts, or one that lies
    /// in the supplied clans or in the record.
    pub open spec fn request_error(&self, chunks: Seq<ClanChunk>, clock: &Clock) -> Option<Error> {
        if self.prelude_error() is Some {
            self.prelude_error()
        } else {
            refresh_error(&self.member.data, &self.weight_record(), chunks, clock.slot)
        }
    }

    /// Whether the numbers that the refresh leads to can be computed
    /// and stored.
    pub open spec fn fits(&self, chunks: Seq<ClanChunk>, clock: &Clock) -> bool {
        refresh_fits(
            &self.member.data,
            &self.root.data,
            &self.max_vwr,
            &self.weight_record(),
            chunks,
            clock.unix_timestamp,
        )
    }

    /// Whether `result`, the accounts `after` and the chunks
    /// `chunks_after` are what the refresh gives: one that is turned
    /// down changes nothing; one that is not refreshes the member's
    /// weight in each of its clans and leaves the other accounts as
    /// they are.
    pub open spec fn is_result(
        &self,
        chunks: Vec<ClanChunk>,
        clock: &Clock,
        after: &UpdateVoterWeight,
        chunks_after: Vec<ClanChunk>,
        result: Result<RefreshOutcome, Error>,
    ) -> bool {
        match self.prelude_error() {
            Some(error) => {
                &&& result == Err::<RefreshOutcome, Error>(error)
                &&& *after == *self
                &&& chunks_after == chunks
            },
            None => {
                &&& *after == (UpdateVoterWeight {
                    member: after.member,
                    root: Account { key: self.root.key, data: after.root.data },
                    max_vwr: after.max_vwr,
                    ..*self
                })
                &&& is_refreshed(
                    &self.member,
                    &self.root.data,
                    &self.max_vwr,
                    self.member.data.voter_weight_record,
                    &self.weight_record(),
                    chunks,
                    clock,
                    &after.member,
                    &after.root.data,
                    &after.max_vwr,
                    chunks_after,
                    result,
                )
            },
        }
    }

    /// Looks for a reason to turn the refresh down that lies in the
    /// accounts, and hands back the weight that the member is given.
    fn check_accounts(&self) -> (result: Result<VoterWeightRecord, Error>)
        ensures
            result matches Err(error) ==> self.prelude_error() == Some(error),
            result matches Ok(record) ==> self.prelude_error() is None && record
                == self.weight_record(),
    {
        if self.member.data.root != self.root.key {
            return Err(Error::ConstraintHasOne);
        }
        match &self.member_vwr {
            Some(account) => {
                if account.key != self.member.data.voter_weight_record {
                    return Err(Error::ConstraintAddress);
                }
                if self.root.data.paused {
                    return Err(Error::Paused);
                }
                if account.data.realm != self.root.data.realm || account.data.governing_token_mint
                    != self.root.data.governing_token_mint || account.data.governing_token_owner
                    != self.member.data.owner {
                    return Err(Error::RequireKeysEqViolated);
                }
                Ok(account.data)
            },
            None => {
                if !self.root.data.paused {
                    return Err(Error::MemberVwrRequired);
                }
                Ok(
                    VoterWeightRecord::new(
                        self.root.data.realm,
                        self.root.data.governing_token_mint,
                        self.member.data.owner,
                        0,
                        None,
                        None,
                        None,
                    ),
                )
            },
        }
    }

    /// Refreshes the member's weight from its record in each of its
    /// clans, which come in `chunks`. A refresh that is turned down
    /// changes nothing.
    pub fn process(&mut self, chunks: &mut Vec<ClanChunk>, clock: &Clock) -> (result: Result<
        RefreshOutcome,
        Error,
    >)
        requires
            old(self).member.data.wf(),
            old(self).request_error(old(chunks)@, clock) is None ==> old(self).fits(
                old(chunks)@,
                clock,
            ),
        ensures
            old(self).request_error(old(chunks)@, clock) is None <==> result is Ok,
            result matches Err(error) ==> old(self).request_error(old(chunks)@, clock) == Some(
                error,
            ),
            old(self).is_result(*old(chunks), clock, final(self), *final(chunks), result),
    {
        let record = match self.check_accounts() {
            Err(error) => {
                return Err(error);
            },
            Ok(record) => record,
        };
        let record_key = self.member.data.voter_weight_record;
        refresh_member_weight(
            &mut self.member,
            &mut self.root.data,
            &mut self.max_vwr,
            record_key,
            &record,
            chunks,
            clock,
        )
    }

    /// Does what `process` does where the numbers that the refresh
    /// leads to can be computed and stored; where they cannot, changes
    /// nothing and hands back `None`.
    pub fn try_process(&mut self, chunks: &mut Vec<ClanChunk>, clock: &Clock) -> (result: Option<
        Result<RefreshOutcome, Error>,
    >)
        requires
            old(self).member.data.wf(),
        ensures
            match result {
                Some(result) => {
                    &&& old(self).request_error(old(chunks)@, clock) is None ==> old(self).fits(
                        old(chunks)@,
                        clock,
                    )
                    &&& old(self).request_error(old(chunks)@, clock) is None <==> result is Ok
                    &&& result matches Err(error) ==> old(self).request_error(old(chunks)@, clock)
                        == Some(error)
                    &&& old(self).is_result(*old(chunks), clock, final(self), *final(chunks), result)
                },
                None => {
                    &&& old(self).request_error(old(chunks)@, clock) is None
                    &&& !old(self).fits(old(chunks)@, clock)
                    &&& *final(self) == *old(self)
                    &&& *final(chunks) == *old(chunks)
                },
            },
    {
        let record = match self.check_accounts() {
            Err(error) => {
                return Some(Err(error));
            },
            Ok(record) => record,
        };
        let record_key = self.member.data.voter_weight_record;
        try_refresh_member_weight(
            &mut self.member,
            &mut self.root.data,
            &mut self.max_vwr,
            record_key,
            &record,
            chunks,
            clock,
        )
    }
}

} // verus!
