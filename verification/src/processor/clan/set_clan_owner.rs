//! Handing a clan to a new owner.

use vstd::prelude::*;
use crate::error::Error;
use crate::events::clan::ClanOwnerChanged;
use crate::pubkey::Pubkey;
use crate::state::account::Account;
use crate::state::clan::Clan;

verus! {

/// The accounts of a change of the owner of a clan.
#[derive(Clone, Debug, PartialEq, Eq)]
pub struct SetClanOwner {
    /// The clan.
    pub clan: Account<Clan>,
    /// Who asks for the change: the present owner.
    pub owner: Pubkey,
}

impl SetClanOwner {
    /// Makes `owner` the owner of the clan. Turned down, with nothing
    /// changed, unless the present owner asks.
    pub fn process(&mut self, owner: Pubkey) -> (result: Result<ClanOwnerChanged, Error>)
        ensures
            old(self).clan.data.owner != old(self).owner ==> {
                &&& result == Err::<ClanOwnerChanged, Error>(Error::ConstraintHasOne)
                &&& *final(self) == *old(self)
            },
            old(self).clan.data.owner == old(self).owner ==> {
                &&& result == Ok::<ClanOwnerChanged, Error>(
                    ClanOwnerChanged {
                        clan: old(self).clan.key,
                        old_owner: old(self).clan.data.owner,
                        new_owner: owner,
                    },
                )
                &&& *final(self) == (SetClanOwner {
                    clan: Account {
                        key: old(self).clan.key,
                        data: Clan { owner, ..old(self).clan.data },
                    },
                    ..*old(self)
                })
            },
    {
        if self.clan.data.owner != self.owner {
            return Err(Error::ConstraintHasOne);
        }
        let old_owner = self.clan.data.owner;
        self.clan.data.owner = owner;
        Ok(ClanOwnerChanged { clan: self.clan.key, old_owner, new_owner: owner })
    }
}

} // verus!
