//! Creating the root of a realm and governing token mint.

use vstd::prelude::*;
use crate::error::Error;
use crate::events::root::RootCreated;
use crate::host::{Realm, RealmConfig};
use crate::program::{id, spec_id};
use crate::pubkey::Pubkey;
use crate::state::account::Account;
use crate::state::max_voter_weight::MaxVoterWeightRecord;
use crate::state::root::{Root, RootBumps};

verus! {

/// The accounts of the creation of a root.
#[derive(Clone, Copy, Debug, PartialEq, Eq)]
pub struct CreateRoot {
    /// The address of the root that is created.
    pub root: Pubkey,
    /// The realm, as the host records it.
    pub realm: Account<Realm>,
    /// The host's configuration of the realm.
    pub realm_config: RealmConfig,
    /// The community or the council mint of the realm.
    pub governing_token_mint: Pubkey,
    /// Who asks for the creation.
    pub realm_authority: Pubkey,
    /// The governance host.
    pub governance_program: Pubkey,
}

/// What the creation of a root hands back: the root, its realm-wide
/// maximum weight record, and the notification for observers.
#[derive(Clone, Copy, Debug, PartialEq, Eq)]
pub struct CreatedRoot {
    pub root: Account<Root>,
    pub max_vwr: MaxVoterWeightRecord,
    pub root_created: RootCreated,
}

impl CreateRoot {
    /// The source from which the host has read the weights of the
    /// holders of the governing token so far, if it is not the host
    /// itself.
    pub open spec fn voting_weight_plugin(&self) -> Option<Pubkey> {
        if self.governing_token_mint == self.realm.data.community_mint {
            self.realm_config.community_voter_weight_addin
        } else {
            self.realm_config.council_voter_weight_addin
        }
    }

    /// Why the creation is turned down, if it is; the first reason
    /// that applies. The authority of the realm must ask, the mint
    /// must be one of the realm's, and the present source of weights
    /// must not be this program.
    pub open spec fn request_error(&self) -> Option<Error> {
        if self.realm.data.authority is None {
            Some(Error::EmptyRealmAuthority)
        } else if self.realm.data.authority != Some(self.realm_authority) {
            Some(Error::WrongRealmAuthority)
        } else if self.governing_token_mint != self.realm.data.community_mint
            && self.realm.data.council_mint != Some(self.governing_token_mint) {
            Some(Error::UnknownGoverningTokenMint)
        } else if self.voting_weight_plugin() == Some(spec_id()) {
            Some(Error::CircularPluginChain)
        } else {
            None
        }
    }

    /// The root that is created: without schedule, clans or members,
    /// and not paused.
    pub open spec fn created(&self, max_proposal_lifetime: u64, bumps: RootBumps) -> Root {
        Root {
            governance_program: self.governance_program,
            realm: self.realm.key,
            governing_token_mint: self.governing_token_mint,
            voting_weight_plugin: match self.voting_weight_plugin() {
                Some(plugin) => plugin,
                None => Pubkey::spec_default(),
            },
            max_proposal_lifetime,
            voter_weight_reset: None,
            clan_count: 0,
            member_count: 0,
            bumps,
            paused: false,
        }
    }

    /// Creates the root of the realm and mint, with a realm-wide
    /// maximum weight of zero.
    pub fn process(&self, max_proposal_lifetime: u64, bumps: RootBumps) -> (result: Result<
        CreatedRoot,
        Error,
    >)
        ensures
            match self.request_error() {
                Some(error) => result == Err::<CreatedRoot, Error>(error),
                None => {
                    &&& result matches Ok(created)
                    &&& created.root.key == self.root
                    &&& created.root.data == self.created(max_proposal_lifetime, bumps)
                    &&& created.max_vwr == MaxVoterWeightRecord::spec_new(
                        self.realm.key,
                        self.governing_token_mint,
                    )
                    &&& created.root_created == (RootCreated {
                        root: self.root,
                        governance_program: self.governance_program,
                        realm: self.realm.key,
                        governing_token_mint: self.governing_token_mint,
                        voting_weight_plugin: self.voting_weight_plugin(),
                    })
                },
            },
    {
        match self.realm.data.authority {
            None => {
                return Err(Error::EmptyRealmAuthority);
            },
            Some(authority) => {
                if authority != self.realm_authority {
                    return Err(Error::WrongRealmAuthority);
                }
            },
        }
        let voting_weight_plugin = if self.governing_token_mint == self.realm.data.community_mint {
            self.realm_config.community_voter_weight_addin
        } else {
            match self.realm.data.council_mint {
                Some(mint) => {
                    if mint != self.governing_token_mint {
                        return Err(Error::UnknownGoverningTokenMint);
                    }
                },
                None => {
                    return Err(Error::UnknownGoverningTokenMint);
                },
            }
            self.realm_config.council_voter_weight_addin
        };
        let plugin = match voting_weight_plugin {
            Some(plugin) => {
                if plugin == id() {
                    return Err(Error::CircularPluginChain);
                }
                plugin
            },
            None => Pubkey::default(),
        };
        let root = Root {
            governance_program: self.governance_program,
            realm: self.realm.key,
            governing_token_mint: self.governing_token_mint,
            voting_weight_plugin: plugin,
            max_proposal_lifetime,
            voter_weight_reset: None,
            clan_count: 0,
            member_count: 0,
            bumps,
            paused: false,
        };
        Ok(
            CreatedRoot {
                root: Account { key: self.root, data: root },
                max_vwr: MaxVoterWeightRecord::new(self.realm.key, self.governing_token_mint),
                root_created: RootCreated {
                    root: self.root,
                    governance_program: self.governance_program,
                    realm: self.realm.key,
                    governing_token_mint: self.governing_token_mint,
                    voting_weight_plugin,
                },
            },
        )
    }
}

} // verus!
