use vote_aggregator::clock::Clock;
use vote_aggregator::error::Error;
use vote_aggregator::events::clan::{
    ClanAcceptTemporaryMembersChanged, ClanCreated, ClanDelegateChanged, ClanDescriptionChanged,
    ClanMinVotingWeightToJoinChanged, ClanNameChanged, ClanOwnerChanged, ClanResized,
    ClanVotingDelegateChanged,
};
use vote_aggregator::host::TokenOwnerRecord;
use vote_aggregator::processor::clan::{
    ConfigureClan, CreateClan, ResizeClan, SetClanOwner, SetVotingDelegate,
};
use vote_aggregator::pubkey::Pubkey;
use vote_aggregator::state::{
    Account, Clan, ClanBumps, Root, RootBumps, VoterWeightRecord, VoterWeightReset,
};

fn key(n: u8) -> Pubkey {
    Pubkey([n; 32])
}

fn clock() -> Clock {
    Clock { slot: 77, unix_timestamp: 1_000 }
}

fn root(reset: Option<VoterWeightReset>) -> Account<Root> {
    Account {
        key: key(10),
        data: Root {
            governance_program: key(1),
            realm: key(2),
            governing_token_mint: key(3),
            voting_weight_plugin: key(4),
            max_proposal_lifetime: 50,
            voter_weight_reset: reset,
            clan_count: 3,
            member_count: 1,
            bumps: RootBumps { root: 255, max_voter_weight: 254, lock_authority: 253 },
            paused: false,
        },
    }
}

fn bumps() -> ClanBumps {
    ClanBumps { voter_authority: 1, token_owner_record: 2, voter_weight_record: 3 }
}

fn clan() -> Account<Clan> {
    Account {
        key: key(20),
        data: Clan {
            root: key(10),
            owner: key(21),
            delegate: key(25),
            voter_authority: key(22),
            token_owner_record: key(23),
            voter_weight_record: key(24),
            min_voting_weight_to_join: 0,
            permanent_members: 0,
            temporary_members: 0,
            updated_temporary_members: 0,
            leaving_members: 0,
            accept_temporary_members: true,
            permanent_voter_weight: 0,
            next_voter_weight_reset_time: None,
            name: String::new(),
            description: String::new(),
            bumps: bumps(),
        },
    }
}

fn create() -> CreateClan {
    CreateClan {
        root: root(Some(VoterWeightReset { next_reset_time: 900, step: 200 })),
        realm: key(2),
        governing_token_mint: key(3),
        clan: key(20),
        voter_authority: key(22),
        clan_tor: key(23),
        clan_vwr: key(24),
        governance_program: key(1),
    }
}

#[test]
fn clan_is_created_empty() {
    let mut accounts = create();
    let created = accounts.process(key(21), bumps(), &clock()).unwrap();
    assert_eq!(
        created.clan,
        Account {
            key: key(20),
            data: Clan {
                delegate: Pubkey::default(),
                next_voter_weight_reset_time: Some(1_100),
                ..clan().data
            },
        }
    );
    assert_eq!(
        created.clan_vwr,
        Account {
            key: key(24),
            data: VoterWeightRecord::new(key(2), key(3), key(22), 0, None, None, None),
        }
    );
    assert_eq!(
        created.clan_created,
        ClanCreated { clan: key(20), root: key(10), clan_index: 3, owner: key(21) }
    );
    assert_eq!(accounts.root.data.clan_count, 4);
    assert_eq!(accounts.root.data.next_voter_weight_reset_time(), Some(1_100));
}

#[test]
fn clan_is_created_only_under_its_root() {
    for change in 0..3 {
        let mut accounts = create();
        match change {
            0 => accounts.realm = key(99),
            1 => accounts.governing_token_mint = key(99),
            _ => accounts.governance_program = key(99),
        }
        let before = accounts;
        assert_eq!(accounts.process(key(21), bumps(), &clock()).err(), Some(Error::ConstraintHasOne));
        assert_eq!(accounts, before);
    }
}

#[test]
fn clan_is_configured_by_owner_or_delegate() {
    for authority in [key(21), key(25)] {
        let accounts = ConfigureClan { clan: clan(), clan_authority: authority };
        assert_eq!(accounts.check_authority(), Ok(()));
    }
    let mut accounts = ConfigureClan { clan: clan(), clan_authority: key(99) };
    let before = accounts.clone();
    assert_eq!(accounts.check_authority(), Err(Error::WrongClanAuthority));
    assert_eq!(accounts.set_delegate(key(1)), Err(Error::WrongClanAuthority));
    assert_eq!(accounts.set_name("a".to_string()), Err(Error::WrongClanAuthority));
    assert_eq!(accounts.set_description("a".to_string()), Err(Error::WrongClanAuthority));
    assert_eq!(accounts.set_min_voting_weight_to_join(1), Err(Error::WrongClanAuthority));
    assert_eq!(accounts.set_accept_temporary_members(false), Err(Error::WrongClanAuthority));
    assert_eq!(accounts, before);
}

#[test]
fn clan_delegate_is_set() {
    let mut accounts = ConfigureClan { clan: clan(), clan_authority: key(21) };
    assert_eq!(
        accounts.set_delegate(key(26)),
        Ok(Some(ClanDelegateChanged { clan: key(20), old_delegate: key(25), new_delegate: key(26) }))
    );
    assert_eq!(accounts.clan.data.delegate, key(26));
    assert_eq!(accounts.set_delegate(key(26)), Ok(None));
}

#[test]
fn clan_name_and_description_are_set() {
    let mut accounts = ConfigureClan { clan: clan(), clan_authority: key(25) };
    assert_eq!(
        accounts.set_name("Owls".to_string()),
        Ok(Some(ClanNameChanged {
            clan: key(20),
            old_name: String::new(),
            new_name: "Owls".to_string(),
        }))
    );
    assert_eq!(accounts.clan.data.name, "Owls");
    assert_eq!(accounts.set_name("Owls".to_string()), Ok(None));
    assert_eq!(
        accounts.set_description("Night shift".to_string()),
        Ok(Some(ClanDescriptionChanged {
            clan: key(20),
            old_description: String::new(),
            new_description: "Night shift".to_string(),
        }))
    );
    assert_eq!(accounts.clan.data.description, "Night shift");
    assert_eq!(accounts.set_description("Night shift".to_string()), Ok(None));
    assert_eq!(accounts.clan.data.name, "Owls");
}

#[test]
fn clan_admission_rules_are_set() {
    let mut accounts = ConfigureClan { clan: clan(), clan_authority: key(21) };
    assert_eq!(
        accounts.set_min_voting_weight_to_join(500),
        Ok(Some(ClanMinVotingWeightToJoinChanged {
            clan: key(20),
            old_min_voting_weight_to_join: 0,
            new_min_voting_weight_to_join: 500,
        }))
    );
    assert_eq!(accounts.set_min_voting_weight_to_join(500), Ok(None));
    assert_eq!(accounts.clan.data.min_voting_weight_to_join, 500);
    assert_eq!(
        accounts.set_accept_temporary_members(false),
        Ok(Some(ClanAcceptTemporaryMembersChanged {
            clan: key(20),
            old_accept_temporary_members: true,
            new_accept_temporary_members: false,
        }))
    );
    assert_eq!(accounts.set_accept_temporary_members(false), Ok(None));
    assert!(!accounts.clan.data.accept_temporary_members);
}

#[test]
fn clan_owner_is_changed_by_the_owner() {
    let mut accounts = SetClanOwner { clan: clan(), owner: key(25) };
    let before = accounts.clone();
    assert_eq!(accounts.process(key(27)), Err(Error::ConstraintHasOne));
    assert_eq!(accounts, before);
    accounts.owner = key(21);
    assert_eq!(
        accounts.process(key(27)),
        Ok(ClanOwnerChanged { clan: key(20), old_owner: key(21), new_owner: key(27) })
    );
    assert_eq!(accounts.clan.data.owner, key(27));
    assert_eq!(accounts.clan.data.delegate, key(25));
}

#[test]
fn clan_is_resized_by_owner_or_delegate() {
    let accounts = ResizeClan { clan: clan(), clan_authority: key(25) };
    assert_eq!(accounts.process(4_096), Ok(ClanResized { clan: key(20), new_size: 4_096 }));
    let accounts = ResizeClan { clan: clan(), clan_authority: key(99) };
    assert_eq!(accounts.process(4_096), Err(Error::WrongClanAuthority));
}

fn delegate() -> SetVotingDelegate {
    SetVotingDelegate {
        clan: clan(),
        clan_authority: key(21),
        root: root(None),
        token_owner_record: Account {
            key: key(23),
            data: TokenOwnerRecord {
                governing_token_owner: key(22),
                unrelinquished_votes_count: 0,
                outstanding_proposal_count: 0,
                governance_delegate: Some(key(50)),
                locks: Vec::new(),
            },
        },
        governance_program: key(1),
    }
}

#[test]
fn voting_delegate_is_chosen() {
    assert_eq!(
        delegate().process(key(51)),
        Ok(ClanVotingDelegateChanged {
            clan: key(20),
            new_voting_delegate: Some(key(51)),
            old_voting_delegate: Some(key(50)),
        })
    );
}

#[test]
fn zero_address_stands_for_no_voting_delegate() {
    assert_eq!(
        delegate().process(Pubkey::default()),
        Ok(ClanVotingDelegateChanged {
            clan: key(20),
            new_voting_delegate: None,
            old_voting_delegate: Some(key(50)),
        })
    );
}

#[test]
fn voting_delegate_is_turned_down() {
    let mut accounts = delegate();
    accounts.clan_authority = key(99);
    assert_eq!(accounts.process(key(51)), Err(Error::WrongClanAuthority));
    let mut accounts = delegate();
    accounts.token_owner_record.key = key(99);
    assert_eq!(accounts.process(key(51)), Err(Error::ConstraintHasOne));
    let mut accounts = delegate();
    accounts.governance_program = key(99);
    assert_eq!(accounts.process(key(51)), Err(Error::ConstraintHasOne));
    let mut accounts = delegate();
    accounts.clan.data.root = key(99);
    assert_eq!(accounts.process(key(51)), Err(Error::ConstraintHasOne));
}
