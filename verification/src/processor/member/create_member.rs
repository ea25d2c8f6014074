//! Creating a member.

use vstd::prelude::*;
use crate::error::Error;
use crate::events::member::MemberCreated;
use crate::host::TokenOwnerRecord;
use crate::pubkey::Pubkey;
use crate::state::account::Account;
use crate::state::member::{Member, MemberBumps};
use crate::state::root::Root;

verus! {

/// The accounts of the creation of a member.
#[derive(Clone, Debug, PartialEq, Eq)]
pub struct CreateMember {
    /// The address of the member that is created.
    pub member: Pubkey,
    /// The root that the member belongs to.
    pub root: Account<Root>,
    /// The token holder that becomes a member.
    pub owner: Pubkey,
    /// The host's record of the owner's tokens.
    pub member_tor: Account<TokenOwnerRecord>,
}

impl CreateMember {
    /// The member that is created: without weight, without clans,
    /// and with the root's next reset time.
    pub open spec fn created(&self, bumps: MemberBumps, membership: Vec<crate::state::member::MembershipEntry>) -> Member {
        Member {
            root: self.root.key,
            owner: self.owner,
            delegate: Pubkey::spec_default(),
            token_owner_record: self.member_tor.key,
            voter_weight_record: Pubkey::spec_default(),
            voter_weight: 0,
            voter_weight_expiry: None,
            next_voter_weight_reset_time: self.root.data.spec_next_voter_weight_reset_time(),
            membership,
            bumps,
        }
    }

    /// Whether `result` and the accounts `after` are what the
    /// creation gives: one that is turned down changes nothing; one
    /// that is not counts the member in the root and hands the member
    /// back.
    pub open spec fn is_result(
        &self,
        bumps: MemberBumps,
        after: &CreateMember,
        result: Result<(Account<Member>, MemberCreated), Error>,
    ) -> bool {
        &&& self.member_tor.data.governing_token_owner != self.owner ==> {
            &&& result == Err::<(Account<Member>, MemberCreated), Error>(
                Error::RequireKeysEqViolated,
            )
            &&& *after == *self
        }
        &&& self.member_tor.data.governing_token_owner == self.owner ==> {
            &&& result matches Ok((member, event))
            &&& member.key == self.member
            &&& member.data == self.created(bumps, member.data.membership)
            &&& member.data.membership@.len() == 0
            &&& member.data.wf()
            &&& *after == (CreateMember {
                root: Account {
                    key: self.root.key,
                    data: Root {
                        member_count: (self.root.data.member_count + 1) as u64,
                        ..self.root.data
                    },
                },
                ..*self
            })
            &&& event == (MemberCreated {
                member: self.member,
                root: self.root.key,
                member_index: self.root.data.member_count,
                owner: self.owner,
            })
        }
    }

    /// Creates the member of `owner` in the root, and counts it
    /// there. Turned down, with nothing changed, if the token record
    /// is not the owner's.
    pub fn process(&mut self, bumps: MemberBumps) -> (result: Result<
        (Account<Member>, MemberCreated),
        Error,
    >)
        requires
            old(self).member_tor.data.governing_token_owner == old(self).owner ==> old(self).root.data.member_count < u64::MAX,
        ensures
            old(self).is_result(bumps, final(self), result),
    {
        if self.member_tor.data.governing_token_owner != self.owner {
            return Err(Error::RequireKeysEqViolated);
        }
        let member = Member {
            root: self.root.key,
            owner: self.owner,
            delegate: Pubkey::default(),
            token_owner_record: self.member_tor.key,
            voter_weight_record: Pubkey::default(),
            voter_weight: 0,
            voter_weight_expiry: None,
            next_voter_weight_reset_time: self.root.data.next_voter_weight_reset_time(),
            membership: Vec::new(),
            bumps,
        };
        let event = MemberCreated {
            member: self.member,
            root: self.root.key,
            member_index: self.root.data.member_count,
            owner: self.owner,
        };
        self.root.data.member_count += 1;
        Ok((Account { key: self.member, data: member }, event))
    }

    /// Does what `process` does where the root can count one member
    /// more; where it cannot, changes nothing and hands back `None`.
    pub fn try_process(&mut self, bumps: MemberBumps) -> (result: Option<
        Result<(Account<Member>, MemberCreated), Error>,
    >)
        ensures
            match result {
                Some(result) => {
                    &&& old(self).member_tor.data.governing_token_owner == old(self).owner ==> old(self).root.data.member_count < u64::MAX
                    &&& old(self).is_result(bumps, final(self), result)
                },
                None => {
                    &&& old(self).member_tor.data.governing_token_owner == old(self).owner
                    &&& old(self).root.data.member_count == u64::MAX
                    &&& *final(self) == *old(self)
                },
            },
    {
        if self.member_tor.data.governing_token_owner == self.owner && self.root.data.member_count
            == u64::MAX {
            None
        } else {
            Some(self.process(bumps))
        }
    }
}

} // verus!
