//! Choosing who votes for a clan in the governance host.

use vstd::prelude::*;
use crate::error::Error;
use crate::events::clan::ClanVotingDelegateChanged;
use crate::host::TokenOwnerRecord;
use crate::pubkey::Pubkey;
use crate::state::account::Account;
use crate::state::clan::Clan;
use crate::state::root::Root;

verus! {

/// The accounts of a change of the voting delegate of a clan.
#[derive(Clone, Debug, PartialEq, Eq)]
pub struct SetVotingDelegate {
    /// The clan.
    pub clan: Account<Clan>,
    /// Who asks for the change.
    pub clan_authority: Pubkey,
    /// The root of the clan.
    pub root: Account<Root>,
    /// The host's record of the clan's tokens.
    pub token_owner_record: Account<TokenOwnerRecord>,
    /// The governance host.
    pub governance_program: Pubkey,
}

impl SetVotingDelegate {
    /// Why the change is turned down, if it is; the first reason that
    /// applies.
    pub open spec fn request_error(&self) -> Option<Error> {
        if self.clan.data.root != self.root.key {
            Some(Error::ConstraintHasOne)
        } else if self.clan.data.token_owner_record != self.token_owner_record.key {
            Some(Error::ConstraintHasOne)
        } else if self.clan_authority != self.clan.data.owner && self.clan_authority
            != self.clan.data.delegate {
            Some(Error::WrongClanAuthority)
        } else if self.root.data.governance_program != self.governance_program {
            Some(Error::ConstraintHasOne)
        } else {
            None
        }
    }

    /// The delegate that an address stands for: none for the
    /// all-zero address.
    pub open spec fn delegate_of(new_voting_delegate: Pubkey) -> Option<Pubkey> {
        if new_voting_delegate == Pubkey::spec_default() {
            None
        } else {
            Some(new_voting_delegate)
        }
    }

    /// Decides the change of the clan's voting delegate in the host
    /// to `new_voting_delegate`; the all-zero address stands for no
    /// delegate. Reports the delegate before and after; the change
    /// itself is the host's to make.
    pub fn process(&self, new_voting_delegate: Pubkey) -> (result: Result<
        ClanVotingDelegateChanged,
        Error,
    >)
        ensures
            result == match self.request_error() {
                Some(error) => Err::<ClanVotingDelegateChanged, Error>(error),
                None => Ok::<ClanVotingDelegateChanged, Error>(
                    ClanVotingDelegateChanged {
                        clan: self.clan.key,
                        new_voting_delegate: SetVotingDelegate::delegate_of(new_voting_delegate),
                        old_voting_delegate: self.token_owner_record.data.governance_delegate,
                    },
                ),
            },
    {
        if self.clan.data.root != self.root.key {
            return Err(Error::ConstraintHasOne);
        }
        if self.clan.data.token_owner_record != self.token_owner_record.key {
            return Err(Error::ConstraintHasOne);
        }
        if self.clan_authority != self.clan.data.owner && self.clan_authority
            != self.clan.data.delegate {
            return Err(Error::WrongClanAuthority);
        }
        if self.root.data.governance_program != self.governance_program {
            return Err(Error::ConstraintHasOne);
        }
        let old_voting_delegate = self.token_owner_record.data.governance_delegate;
        let new_voting_delegate = if new_voting_delegate == Pubkey::default() {
            None
        } else {
            Some(new_voting_delegate)
        };
        Ok(ClanVotingDelegateChanged { clan: self.clan.key, new_voting_delegate, old_voting_delegate })
    }
}

} // verus!
