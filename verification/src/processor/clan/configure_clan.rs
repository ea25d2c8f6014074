//! Configuring a clan, by its owner or delegate.

use vstd::prelude::*;
use crate::error::Error;
use crate::events::clan::{
    ClanAcceptTemporaryMembersChanged, ClanDelegateChanged, ClanDescriptionChanged,
    ClanMinVotingWeightToJoinChanged, ClanNameChanged,
};
use crate::pubkey::Pubkey;
use crate::state::account::Account;
use crate::state::clan::Clan;

verus! {

/// The accounts of a configuration of a clan.
#[derive(Clone, Debug, PartialEq, Eq)]
pub struct ConfigureClan {
    /// The clan.
    pub clan: Account<Clan>,
    /// Who asks for the configuration.
    pub clan_authority: Pubkey,
}

impl ConfigureClan {
    /// Whether the owner or the delegate of the clan asks.
    pub open spec fn is_authorized(&self) -> bool {
        self.clan_authority == self.clan.data.owner || self.clan_authority
            == self.clan.data.delegate
    }

    /// Checks that the owner or the delegate of the clan asks.
    pub fn check_authority(&self) -> (result: Result<(), Error>)
        ensures
            self.is_authorized() ==> result is Ok,
            !self.is_authorized() ==> result == Err::<(), Error>(Error::WrongClanAuthority),
    {
        if self.clan_authority == self.clan.data.owner || self.clan_authority
            == self.clan.data.delegate {
            Ok(())
        } else {
            Err(Error::WrongClanAuthority)
        }
    }

    /// Sets the delegate of the clan. Reports the change, if it is one.
    pub fn set_delegate(&mut self, new_delegate: Pubkey) -> (result: Result<
        Option<ClanDelegateChanged>,
        Error,
    >)
        ensures
            !old(self).is_authorized() ==> {
                &&& result == Err::<Option<ClanDelegateChanged>, Error>(Error::WrongClanAuthority)
                &&& *final(self) == *old(self)
            },
            old(self).is_authorized() ==> {
                &&& result matches Ok(event)
                &&& *final(self) == (ConfigureClan {
                    clan: Account {
                        key: old(self).clan.key,
                        data: Clan { delegate: new_delegate, ..old(self).clan.data },
                    },
                    ..*old(self)
                })
                &&& event == if new_delegate != old(self).clan.data.delegate {
                    Some(
                        ClanDelegateChanged {
                            clan: old(self).clan.key,
                            old_delegate: old(self).clan.data.delegate,
                            new_delegate,
                        },
                    )
                } else {
                    None
                }
            },
    {
        match self.check_authority() {
            Err(error) => {
                return Err(error);
            },
            Ok(()) => {},
        }
        let old_delegate = self.clan.data.delegate;
        self.clan.data.delegate = new_delegate;
        if new_delegate != old_delegate {
            Ok(Some(ClanDelegateChanged { clan: self.clan.key, old_delegate, new_delegate }))
        } else {
            Ok(None)
        }
    }

    /// Sets the name of the clan. Reports the change, if it is one.
    pub fn set_name(&mut self, new_name: String) -> (result: Result<Option<ClanNameChanged>, Error>)
        ensures
            !old(self).is_authorized() ==> {
                &&& result == Err::<Option<ClanNameChanged>, Error>(Error::WrongClanAuthority)
                &&& *final(self) == *old(self)
            },
            old(self).is_authorized() ==> {
                &&& result matches Ok(event)
                &&& *final(self) == (ConfigureClan {
                    clan: Account {
                        key: old(self).clan.key,
                        data: Clan { name: new_name, ..old(self).clan.data },
                    },
                    ..*old(self)
                })
                &&& event == if new_name@ != old(self).clan.data.name@ {
                    Some(
                        ClanNameChanged {
                            clan: old(self).clan.key,
                            old_name: old(self).clan.data.name,
                            new_name,
                        },
                    )
                } else {
                    None
                }
            },
    {
        match self.check_authority() {
            Err(error) => {
                return Err(error);
            },
            Ok(()) => {},
        }
        let old_name = self.clan.data.name.clone();
        self.clan.data.name = new_name.clone();
        if new_name != old_name {
            Ok(Some(ClanNameChanged { clan: self.clan.key, old_name, new_name }))
        } else {
            Ok(None)
        }
    }

    /// Sets the description of the clan. Reports the change, if it
    /// is one.
    pub fn set_description(&mut self, new_description: String) -> (result: Result<
        Option<ClanDescriptionChanged>,
        Error,
    >)
        ensures
            !old(self).is_authorized() ==> {
                &&& result == Err::<Option<ClanDescriptionChanged>, Error>(
                    Error::WrongClanAuthority,
                )
                &&& *final(self) == *old(self)
            },
            old(self).is_authorized() ==> {
                &&& result matches Ok(event)
                &&& *final(self) == (ConfigureClan {
                    clan: Account {
                        key: old(self).clan.key,
                        data: Clan { description: new_description, ..old(self).clan.data },
                    },
                    ..*old(self)
                })
                &&& event == if new_description@ != old(self).clan.data.description@ {
                    Some(
                        ClanDescriptionChanged {
                            clan: old(self).clan.key,
                            old_description: old(self).clan.data.description,
                            new_description,
                        },
                    )
                } else {
                    None
                }
            },
    {
        match self.check_authority() {
            Err(error) => {
                return Err(error);
            },
            Ok(()) => {},
        }
        let old_description = self.clan.data.description.clone();
        self.clan.data.description = new_description.clone();
        if new_description != old_description {
            Ok(
                Some(
                    ClanDescriptionChanged {
                        clan: self.clan.key,
                        old_description,
                        new_description,
                    },
                ),
            )
        } else {
            Ok(None)
        }
    }

    /// Sets the weight that a member's share must reach to join the
    /// clan. Reports the change, if it is one.
    pub fn set_min_voting_weight_to_join(&mut self, new_min_voting_weight_to_join: u64) -> (result:
        Result<Option<ClanMinVotingWeightToJoinChanged>, Error>)
        ensures
            !old(self).is_authorized() ==> {
                &&& result == Err::<Option<ClanMinVotingWeightToJoinChanged>, Error>(
                    Error::WrongClanAuthority,
                )
                &&& *final(self) == *old(self)
            },
            old(self).is_authorized() ==> {
                &&& result matches Ok(event)
                &&& *final(self) == (ConfigureClan {
                    clan: Account {
                        key: old(self).clan.key,
                        data: Clan {
                            min_voting_weight_to_join: new_min_voting_weight_to_join,
                            ..old(self).clan.data
                        },
                    },
                    ..*old(self)
                })
                &&& event == if new_min_voting_weight_to_join != old(self).clan.data.min_voting_weight_to_join {
                    Some(
                        ClanMinVotingWeightToJoinChanged {
                            clan: old(self).clan.key,
                            old_min_voting_weight_to_join: old(self).clan.data.min_voting_weight_to_join,
                            new_min_voting_weight_to_join,
                        },
                    )
                } else {
                    None
                }
            },
    {
        match self.check_authority() {
            Err(error) => {
                return Err(error);
            },
            Ok(()) => {},
        }
        let old_min_voting_weight_to_join = self.clan.data.min_voting_weight_to_join;
        self.clan.data.min_voting_weight_to_join = new_min_voting_weight_to_join;
        if new_min_voting_weight_to_join != old_min_voting_weight_to_join {
            Ok(
                Some(
                    ClanMinVotingWeightToJoinChanged {
                        clan: self.clan.key,
                        old_min_voting_weight_to_join,
                        new_min_voting_weight_to_join,
                    },
                ),
            )
        } else {
            Ok(None)
        }
    }

    /// Sets whether members whose weight expires may join the clan.
    /// Reports the change, if it is one.
    pub fn set_accept_temporary_members(&mut self, new_accept_temporary_members: bool) -> (result:
        Result<Option<ClanAcceptTemporaryMembersChanged>, Error>)
        ensures
            !old(self).is_authorized() ==> {
                &&& result == Err::<Option<ClanAcceptTemporaryMembersChanged>, Error>(
                    Error::WrongClanAuthority,
                )
                &&& *final(self) == *old(self)
            },
            old(self).is_authorized() ==> {
                &&& result matches Ok(event)
                &&& *final(self) == (ConfigureClan {
                    clan: Account {
                        key: old(self).clan.key,
                        data: Clan {
                            accept_temporary_members: new_accept_temporary_members,
                            ..old(self).clan.data
                        },
                    },
                    ..*old(self)
                })
                &&& event == if new_accept_temporary_members != old(self).clan.data.accept_temporary_members {
                    Some(
                        ClanAcceptTemporaryMembersChanged {
                            clan: old(self).clan.key,
                            old_accept_temporary_members: old(self).clan.data.accept_temporary_members,
                            new_accept_temporary_members,
                        },
                    )
                } else {
                    None
                }
            },
    {
        match self.check_authority() {
            Err(error) => {
                return Err(error);
            },
            Ok(()) => {},
        }
        let old_accept_temporary_members = self.clan.data.accept_temporary_members;
        self.clan.data.accept_temporary_members = new_accept_temporary_members;
        if new_accept_temporary_members != old_accept_temporary_members {
            Ok(
                Some(
                    ClanAcceptTemporaryMembersChanged {
                        clan: self.clan.key,
                        old_accept_temporary_members,
                        new_accept_temporary_members,
                    },
                ),
            )
        } else {
            Ok(None)
        }
    }
}

} // verus!
