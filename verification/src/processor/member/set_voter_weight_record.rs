//! Giving a member a weight record and refreshing its weight from it.

use vstd::prelude::*;
use crate::clock::Clock;
use crate::error::Error;
use crate::processor::member::refresh::{
    is_refreshed, refresh_error, refresh_fits, refresh_member_weight, try_refresh_member_weight,
    RefreshOutcome,
};
use crate::pubkey::Pubkey;
use crate::state::account::Account;
use crate::state::clan_vwr::VoterWeightRecord;
use crate::state::max_voter_weight::MaxVoterWeightRecord;
use crate::state::member::{ClanChunk, Member};
use crate::state::root::Root;

verus! {

/// The accounts of a change of a member's weight record.
#[derive(Clone, Debug, PartialEq, Eq)]
pub struct SetVoterWeightRecord {
    /// The member whose record changes.
    pub member: Account<Member>,
    /// Who asks for the change.
    pub member_authority: Pubkey,
    /// The new weight record of the member.
    pub member_vwr: Account<VoterWeightRecord>,
    /// The root of the member.
    pub root: Account<Root>,
    /// The realm-wide maximum weight.
    pub max_vwr: MaxVoterWeightRecord,
}

impl SetVoterWeightRecord {
    /// Why the accounts do not belong together, if they do not.
    pub open spec fn account_error(&self) -> Option<Error> {
        if self.member.data.root != self.root.key {
            Some(Error::ConstraintHasOne)
        } else if self.member_authority != self.member.data.owner && self.member_authority
            != self.member.data.delegate {
            Some(Error::WrongMemberAuthority)
        } else {
            None
        }
    }

    /// Why the change is turned down whatever clans are supplied, if
    /// it is; the first reason that applies. The root must not be
    /// paused, and the record must be that of the member in the
    /// root's realm.
    pub open spec fn prelude_error(&self) -> Option<Error> {
        if self.account_error() is Some {
            self.account_error()
        } else if self.root.data.paused {
            Some(Error::Paused)
        } else if self.member_vwr.data.realm != self.root.data.realm
            || self.member_vwr.data.governing_token_mint != self.root.data.governing_token_mint
            || self.member_vwr.data.governing_token_owner != self.member.data.owner {
            Some(Error::RequireKeysEqViolated)
        } else {
            None
        }
    }

    /// Why the change is turned down, if it is; the first reason that
    /// applies: one that lies in the accounts, or one that lies in
    /// the supplied clans or in the record.
    pub open spec fn request_error(&self, chunks: Seq<ClanChunk>, clock: &Clock) -> Option<Error> {
        if self.prelude_error() is Some {
            self.prelude_error()
        } else {
            refresh_error(&self.member.data, &self.member_vwr.data, chunks, clock.slot)
        }
    }

    /// Whether the numbers that the change leads to can be computed
    /// and stored.
    pub open spec fn fits(&self, chunks: Seq<ClanChunk>, clock: &Clock) -> bool {
        refresh_fits(
            &self.member.data,
            &self.root.data,
            &self.max_vwr,
            &self.member_vwr.data,
            chunks,
            clock.unix_timestamp,
        )
    }

    /// Whether `result`, the accounts `after` and the chunks
    /// `chunks_after` are what the change gives: one that is turned
    /// down changes nothing; one that is not refreshes the member's
    /// weight in each of its clans and leaves the other accounts as
    /// they are.
    pub open spec fn is_result(
        &self,
        chunks: Vec<ClanChunk>,
        clock: &Clock,
        after: &SetVoterWeightRecord,
        chunks_after: Vec<ClanChunk>,
        result: Result<RefreshOutcome, Error>,
    ) -> bool {
        match self.prelude_error() {
            Some(error) => {
                &&& result == Err::<RefreshOutcome, Error>(error)
                &&& *after == *self
                &&& chunks_after == chunks
            },
            None => {
                &&& *after == (SetVoterWeightRecord {
                    member: after.member,
                    root: Account { key: self.root.key, data: after.root.data },
                    max_vwr: after.max_vwr,
                    ..*self
                })
                &&& is_refreshed(
                    &self.member,
                    &self.root.data,
                    &self.max_vwr,
                    self.member_vwr.key,
                    &self.member_vwr.data,
                    chunks,
                    clock,
                    &after.member,
                    &after.root.data,
                    &after.max_vwr,
                    chunks_after,
                    result,
                )
            },
        }
    }

    /// Looks for a reason to turn the change down that lies in the
    /// accounts, and hands back the weight that the member is given.
    fn check_accounts(&self) -> (result: Result<VoterWeightRecord, Error>)
        ensures
            result matches Err(error) ==> self.prelude_error() == Some(error),
            result matches Ok(record) ==> self.prelude_error() is None && record
                == self.member_vwr.data,
    {
        if self.member.data.root != self.root.key {
            return Err(Error::ConstraintHasOne);
        }
        if self.member_authority != self.member.data.owner && self.member_authority
            != self.member.data.delegate {
            return Err(Error::WrongMemberAuthority);
        }
        if self.root.data.paused {
            return Err(Error::Paused);
        }
        if self.member_vwr.data.realm != self.root.data.realm
            || self.member_vwr.data.governing_token_mint != self.root.data.governing_token_mint
            || self.member_vwr.data.governing_token_owner != self.member.data.owner {
            return Err(Error::RequireKeysEqViolated);
        }
        Ok(self.member_vwr.data)
    }

    /// Makes the supplied record the member's weight record and
    /// refreshes the member's weight from it in each of its clans,
    /// which come in `chunks`. A change that is turned down changes
    /// nothing.
    pub fn process(&mut self, chunks: &mut Vec<ClanChunk>, clock: &Clock) -> (result: Result<
        RefreshOutcome,
        Error,
    >)
        requires
            old(self).member.data.wf(),
            old(self).request_error(old(chunks)@, clock) is None ==> old(self).fits(
                old(chunks)@,
                clock,
            ),
        ensures
            old(self).request_error(old(chunks)@, clock) is None <==> result is Ok,
            result matches Err(error) ==> old(self).request_error(old(chunks)@, clock) == Some(
                error,
            ),
            old(self).is_result(*old(chunks), clock, final(self), *final(chunks), result),
    {
        let record = match self.check_accounts() {
            Err(error) => {
                return Err(error);
            },
            Ok(record) => record,
        };
        let record_key = self.member_vwr.key;
        refresh_member_weight(
            &mut self.member,
            &mut self.root.data,
            &mut self.max_vwr,
            record_key,
            &record,
            chunks,
            clock,
        )
    }

    /// Does what `process` does where the numbers that the change
    /// leads to can be computed and stored; where they cannot, changes
    /// nothing and hands back `None`.
    pub fn try_process(&mut self, chunks: &mut Vec<ClanChunk>, clock: &Clock) -> (result: Option<
        Result<RefreshOutcome, Error>,
    >)
        requires
            old(self).member.data.wf(),
        ensures
            match result {
                Some(result) => {
                    &&& old(self).request_error(old(chunks)@, clock) is None ==> old(self).fits(
                        old(chunks)@,
                        clock,
                    )
                    &&& old(self).request_error(old(chunks)@, clock) is None <==> result is Ok
                    &&& result matches Err(error) ==> old(self).request_error(old(chunks)@, clock)
                        == Some(error)
                    &&& old(self).is_result(*old(chunks), clock, final(self), *final(chunks), result)
                },
                None => {
                    &&& old(self).request_error(old(chunks)@, clock) is None
                    &&& !old(self).fits(old(chunks)@, clock)
                    &&& *final(self) == *old(self)
                    &&& *final(chunks) == *old(chunks)
                },
            },
    {
        let record = match self.check_accounts() {
            Err(error) => {
                return Some(Err(error));
            },
            Ok(record) => record,
        };
        let record_key = self.member_vwr.key;
        try_refresh_member_weight(
            &mut self.member,
            &mut self.root.data,
            &mut self.max_vwr,
            record_key,
            &record,
            chunks,
            clock,
        )
    }
}

} // verus!
