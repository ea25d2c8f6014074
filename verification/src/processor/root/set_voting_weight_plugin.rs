//! Changing the source of member weights.

use vstd::prelude::*;
use crate::error::Error;
use crate::events::root::VoterWeightPluginChanged;
use crate::processor::root::configure_root::ConfigureRoot;
use crate::program::{id, spec_id};
use crate::pubkey::Pubkey;
use crate::state::account::Account;
use crate::state::max_voter_weight::MaxVoterWeightRecord;
use crate::state::root::Root;

verus! {

/// The accounts of a change of the source of member weights.
#[derive(Clone, Copy, Debug, PartialEq, Eq)]
pub struct SetVotingWeightPlugin {
    /// The root, its realm, and who asks.
    pub configure_root: ConfigureRoot,
    /// The realm-wide maximum weight.
    pub max_vwr: MaxVoterWeightRecord,
}

impl SetVotingWeightPlugin {
    /// Why the change to `new_voting_weight_plugin` is turned down,
    /// if it is; the first reason that applies. The source can change
    /// only while no member has weight, by the authority of the realm,
    /// and not to this program itself.
    pub open spec fn request_error(&self, new_voting_weight_plugin: Pubkey) -> Option<Error> {
        if self.configure_root.root.data.realm != self.configure_root.realm.key {
            Some(Error::ConstraintHasOne)
        } else if self.max_vwr.max_voter_weight != 0 {
            Some(Error::ResetAllVoterWeightsFirst)
        } else if self.configure_root.authority_error() is Some {
            self.configure_root.authority_error()
        } else if new_voting_weight_plugin == spec_id() {
            Some(Error::CircularPluginChain)
        } else {
            None
        }
    }

    /// Makes `new_voting_weight_plugin` the source of member weights.
    /// Reports the change, if it is one.
    pub fn process(&mut self, new_voting_weight_plugin: Pubkey) -> (result: Result<
        Option<VoterWeightPluginChanged>,
        Error,
    >)
        ensures
            match old(self).request_error(new_voting_weight_plugin) {
                Some(error) => {
                    &&& result == Err::<Option<VoterWeightPluginChanged>, Error>(error)
                    &&& *final(self) == *old(self)
                },
                None => {
                    &&& result matches Ok(event)
                    &&& *final(self) == (SetVotingWeightPlugin {
                        configure_root: ConfigureRoot {
                            root: Account {
                                key: old(self).configure_root.root.key,
                                data: Root {
                                    voting_weight_plugin: new_voting_weight_plugin,
                                    ..old(self).configure_root.root.data
                                },
                            },
                            ..old(self).configure_root
                        },
                        ..*old(self)
                    })
                    &&& event == if new_voting_weight_plugin != old(self).configure_root.root.data.voting_weight_plugin {
                        Some(
                            VoterWeightPluginChanged {
                                root: old(self).configure_root.root.key,
                                old_voting_weight_plugin: old(self).configure_root.root.data.voting_weight_plugin,
                                new_voting_weight_plugin,
                            },
                        )
                    } else {
                        None
                    }
                },
            },
    {
        if self.configure_root.root.data.realm != self.configure_root.realm.key {
            return Err(Error::ConstraintHasOne);
        }
        if self.max_vwr.max_voter_weight != 0 {
            return Err(Error::ResetAllVoterWeightsFirst);
        }
        match self.configure_root.check_authority() {
            Err(error) => {
                return Err(error);
            },
            Ok(()) => {},
        }
        if new_voting_weight_plugin == id() {
            return Err(Error::CircularPluginChain);
        }
        let old_voting_weight_plugin = self.configure_root.root.data.voting_weight_plugin;
        self.configure_root.root.data.voting_weight_plugin = new_voting_weight_plugin;
        if new_voting_weight_plugin != old_voting_weight_plugin {
            Ok(
                Some(
                    VoterWeightPluginChanged {
                        root: self.configure_root.root.key,
                        old_voting_weight_plugin,
                        new_voting_weight_plugin,
                    },
                ),
            )
        } else {
            Ok(None)
        }
    }
}

} // verus!
