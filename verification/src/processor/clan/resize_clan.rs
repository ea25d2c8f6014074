//! Giving the account of a clan a new size.

use vstd::prelude::*;
use crate::error::Error;
use crate::events::clan::ClanResized;
use crate::pubkey::Pubkey;
use crate::state::account::Account;
use crate::state::clan::Clan;

verus! {

/// The accounts of a resize of a clan.
#[derive(Clone, Debug, PartialEq, Eq)]
pub struct ResizeClan {
    /// The clan.
    pub clan: Account<Clan>,
    /// Who asks for the resize.
    pub clan_authority: Pubkey,
}

impl ResizeClan {
    /// Whether the owner or the delegate of the clan asks.
    pub open spec fn is_authorized(&self) -> bool {
        self.clan_authority == self.clan.data.owner || self.clan_authority
            == self.clan.data.delegate
    }

    /// Agrees to a resize of the clan's account to `size` bytes if
    /// its owner or delegate asks for it. The clan itself stays as
    /// it is.
    pub fn process(&self, size: u32) -> (result: Result<ClanResized, Error>)
        ensures
            result == if self.is_authorized() {
                Ok::<ClanResized, Error>(ClanResized { clan: self.clan.key, new_size: size })
            } else {
                Err::<ClanResized, Error>(Error::WrongClanAuthority)
            },
    {
        if self.clan_authority == self.clan.data.owner || self.clan_authority
            == self.clan.data.delegate {
            Ok(ClanResized { clan: self.clan.key, new_size: size })
        } else {
            Err(Error::WrongClanAuthority)
        }
    }
}

} // verus!
