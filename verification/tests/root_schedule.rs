use vote_aggregator::clock::Clock;
use vote_aggregator::error::Error;
use vote_aggregator::events::root::{
    MaxProposalLifetimeChanged, Paused, Resumed, RootCreated, VoterWeightPluginChanged,
    VoterWeightResetChanged,
};
use vote_aggregator::host::{Realm, RealmConfig};
use vote_aggregator::processor::root::{ConfigureRoot, CreateRoot, SetVotingWeightPlugin, UpdateRoot};
use vote_aggregator::program::id;
use vote_aggregator::pubkey::Pubkey;
use vote_aggregator::state::{Account, MaxVoterWeightRecord, Root, RootBumps, VoterWeightReset};

fn key(n: u8) -> Pubkey {
    Pubkey([n; 32])
}

fn at(unix_timestamp: i64) -> Clock {
    Clock { slot: 7, unix_timestamp }
}

fn root_with(reset: Option<VoterWeightReset>) -> Root {
    Root {
        governance_program: key(1),
        realm: key(2),
        governing_token_mint: key(3),
        voting_weight_plugin: key(4),
        max_proposal_lifetime: 50,
        voter_weight_reset: reset,
        clan_count: 0,
        member_count: 0,
        bumps: RootBumps { root: 255, max_voter_weight: 254, lock_authority: 253 },
        paused: false,
    }
}

fn configure(reset: Option<VoterWeightReset>) -> ConfigureRoot {
    ConfigureRoot {
        root: Account { key: key(10), data: root_with(reset) },
        realm: Account {
            key: key(2),
            data: Realm { authority: Some(key(9)), community_mint: key(3), council_mint: None },
        },
        realm_authority: key(9),
    }
}

#[test]
fn rollover_without_schedule_changes_nothing() {
    let mut root = root_with(None);
    root.update_next_voter_weight_reset_time(&at(1_000));
    assert_eq!(root, root_with(None));
    assert_eq!(root.next_voter_weight_reset_time(), None);
}

#[test]
fn rollover_before_the_reset_time_changes_nothing() {
    let reset = VoterWeightReset { next_reset_time: 100, step: 30 };
    let mut root = root_with(Some(reset));
    root.update_next_voter_weight_reset_time(&at(99));
    assert_eq!(root.voter_weight_reset, Some(reset));
    assert_eq!(root.next_voter_weight_reset_time(), Some(100));
}

#[test]
fn rollover_at_the_reset_time_moves_one_step() {
    let mut root = root_with(Some(VoterWeightReset { next_reset_time: 100, step: 30 }));
    root.update_next_voter_weight_reset_time(&at(100));
    assert_eq!(root.voter_weight_reset, Some(VoterWeightReset { next_reset_time: 130, step: 30 }));
}

#[test]
fn rollover_lands_on_the_first_boundary_after_now() {
    let mut root = root_with(Some(VoterWeightReset { next_reset_time: 100, step: 30 }));
    root.update_next_voter_weight_reset_time(&at(129));
    assert_eq!(root.next_voter_weight_reset_time(), Some(130));
    root.update_next_voter_weight_reset_time(&at(130));
    assert_eq!(root.next_voter_weight_reset_time(), Some(160));
}

#[test]
fn rollover_skips_the_epochs_that_have_passed() {
    let mut root = root_with(Some(VoterWeightReset { next_reset_time: 100, step: 30 }));
    root.update_next_voter_weight_reset_time(&at(1_000));
    assert_eq!(root.voter_weight_reset, Some(VoterWeightReset { next_reset_time: 1_030, step: 30 }));
}

#[test]
fn rollover_with_a_step_of_zero_ends_the_schedule() {
    let mut root = root_with(Some(VoterWeightReset { next_reset_time: 100, step: 0 }));
    root.update_next_voter_weight_reset_time(&at(99));
    assert_eq!(root.voter_weight_reset, Some(VoterWeightReset { next_reset_time: 100, step: 0 }));
    root.update_next_voter_weight_reset_time(&at(100));
    assert_eq!(root.voter_weight_reset, None);
}

#[test]
fn rollover_keeps_the_other_fields() {
    let mut root = root_with(Some(VoterWeightReset { next_reset_time: 100, step: 30 }));
    root.clan_count = 3;
    root.member_count = 4;
    root.paused = true;
    let before = root;
    root.update_next_voter_weight_reset_time(&at(500));
    assert_eq!(
        root,
        Root {
            voter_weight_reset: Some(VoterWeightReset { next_reset_time: 520, step: 30 }),
            ..before
        }
    );
}

#[test]
fn rollover_twice_with_the_same_time_is_the_same_as_once() {
    let times = [-5i64, 99, 100, 101, 129, 130, 999, 1_000_000];
    let resets = [
        None,
        Some(VoterWeightReset { next_reset_time: 100, step: 30 }),
        Some(VoterWeightReset { next_reset_time: 100, step: 1 }),
        Some(VoterWeightReset { next_reset_time: 100, step: 0 }),
        Some(VoterWeightReset { next_reset_time: -50, step: 7 }),
    ];
    for reset in resets {
        for now in times {
            let mut root = root_with(reset);
            root.update_next_voter_weight_reset_time(&at(now));
            let once = root;
            root.update_next_voter_weight_reset_time(&at(now));
            assert_eq!(root, once);
        }
    }
}

#[test]
fn rollover_of_a_negative_reset_time() {
    let mut root = root_with(Some(VoterWeightReset { next_reset_time: -50, step: 7 }));
    root.update_next_voter_weight_reset_time(&at(0));
    assert_eq!(root.next_voter_weight_reset_time(), Some(6));
}

#[test]
fn update_root_brings_the_schedule_up_to_date() {
    let mut accounts = UpdateRoot {
        root: Account {
            key: key(10),
            data: root_with(Some(VoterWeightReset { next_reset_time: 100, step: 30 })),
        },
    };
    accounts.process(&at(145));
    assert_eq!(accounts.root.key, key(10));
    assert_eq!(accounts.root.data.next_voter_weight_reset_time(), Some(160));
}

#[test]
fn configuration_needs_the_realm_of_the_root() {
    let mut accounts = configure(None);
    accounts.realm.key = key(77);
    assert_eq!(accounts.check_authority(), Err(Error::ConstraintHasOne));
}

#[test]
fn configuration_needs_a_realm_with_an_authority() {
    let mut accounts = configure(None);
    accounts.realm.data.authority = None;
    assert_eq!(accounts.check_authority(), Err(Error::EmptyRealmAuthority));
    assert_eq!(accounts.pause(), Err(Error::EmptyRealmAuthority));
}

#[test]
fn configuration_needs_the_authority_of_the_realm() {
    let mut accounts = configure(None);
    accounts.realm_authority = key(8);
    let before = accounts;
    assert_eq!(accounts.check_authority(), Err(Error::WrongRealmAuthority));
    assert_eq!(accounts.set_max_proposal_lifetime(5), Err(Error::WrongRealmAuthority));
    assert_eq!(accounts.set_voter_weight_reset(5, None, &at(0)), Err(Error::WrongRealmAuthority));
    assert_eq!(accounts.pause(), Err(Error::WrongRealmAuthority));
    assert_eq!(accounts.resume(), Err(Error::WrongRealmAuthority));
    assert_eq!(accounts, before);
}

#[test]
fn max_proposal_lifetime_is_set_and_reported() {
    let mut accounts = configure(None);
    assert_eq!(
        accounts.set_max_proposal_lifetime(60),
        Ok(Some(MaxProposalLifetimeChanged {
            root: key(10),
            old_max_proposal_lifetime: 50,
            new_max_proposal_lifetime: 60,
        }))
    );
    assert_eq!(accounts.root.data.max_proposal_lifetime, 60);
    assert_eq!(accounts.set_max_proposal_lifetime(60), Ok(None));
}

#[test]
fn pause_and_resume_report_only_changes() {
    let mut accounts = configure(None);
    assert_eq!(accounts.resume(), Ok(None));
    assert_eq!(accounts.pause(), Ok(Some(Paused { root: key(10) })));
    assert!(accounts.root.data.paused);
    assert_eq!(accounts.pause(), Ok(None));
    assert_eq!(accounts.resume(), Ok(Some(Resumed { root: key(10) })));
    assert!(!accounts.root.data.paused);
}

#[test]
fn new_schedule_starts_one_step_from_now_by_default() {
    let mut accounts = configure(None);
    let reset = VoterWeightReset { next_reset_time: 1_030, step: 30 };
    assert_eq!(
        accounts.set_voter_weight_reset(30, None, &at(1_000)),
        Ok(VoterWeightResetChanged {
            root: key(10),
            old_voter_weight_reset: None,
            new_voter_weight_reset: Some(reset),
        })
    );
    assert_eq!(accounts.root.data.voter_weight_reset, Some(reset));
}

#[test]
fn new_schedule_takes_the_reset_time_asked_for() {
    let mut accounts = configure(None);
    assert!(accounts.set_voter_weight_reset(30, Some(5_000), &at(1_000)).is_ok());
    assert_eq!(
        accounts.root.data.voter_weight_reset,
        Some(VoterWeightReset { next_reset_time: 5_000, step: 30 })
    );
}

#[test]
fn new_schedule_needs_a_step() {
    let mut accounts = configure(None);
    let before = accounts;
    assert_eq!(
        accounts.set_voter_weight_reset(0, Some(5_000), &at(1_000)),
        Err(Error::InvalidResetStep)
    );
    assert_eq!(accounts, before);
}

#[test]
fn new_schedule_needs_a_reset_in_the_future() {
    let mut accounts = configure(None);
    assert_eq!(
        accounts.set_voter_weight_reset(30, Some(1_000), &at(1_000)),
        Err(Error::InvalidNextResetTime)
    );
    assert_eq!(
        accounts.set_voter_weight_reset(30, Some(999), &at(1_000)),
        Err(Error::InvalidNextResetTime)
    );
    assert!(accounts.set_voter_weight_reset(30, Some(1_001), &at(1_000)).is_ok());
}

#[test]
fn step_of_a_set_schedule_can_change() {
    let old = VoterWeightReset { next_reset_time: 100, step: 30 };
    let mut accounts = configure(Some(old));
    assert_eq!(
        accounts.set_voter_weight_reset(0, None, &at(1_000)),
        Ok(VoterWeightResetChanged {
            root: key(10),
            old_voter_weight_reset: Some(old),
            new_voter_weight_reset: Some(VoterWeightReset { next_reset_time: 100, step: 0 }),
        })
    );
}

#[test]
fn reset_time_of_a_set_schedule_cannot_change() {
    let mut accounts = configure(Some(VoterWeightReset { next_reset_time: 100, step: 30 }));
    let before = accounts;
    assert_eq!(
        accounts.set_voter_weight_reset(30, Some(200), &at(10)),
        Err(Error::CanNotChangeNextResetTime)
    );
    assert_eq!(accounts, before);
}

#[test]
fn plugin_changes_only_while_no_member_has_weight() {
    let max_vwr = MaxVoterWeightRecord::new(key(2), key(3));
    let mut accounts = SetVotingWeightPlugin {
        configure_root: configure(None),
        max_vwr: MaxVoterWeightRecord { max_voter_weight: 1, ..max_vwr },
    };
    assert_eq!(accounts.process(key(40)), Err(Error::ResetAllVoterWeightsFirst));
    accounts.max_vwr.max_voter_weight = 0;
    assert_eq!(
        accounts.process(key(40)),
        Ok(Some(VoterWeightPluginChanged {
            root: key(10),
            old_voting_weight_plugin: key(4),
            new_voting_weight_plugin: key(40),
        }))
    );
    assert_eq!(accounts.configure_root.root.data.voting_weight_plugin, key(40));
    assert_eq!(accounts.process(key(40)), Ok(None));
}

#[test]
fn plugin_cannot_be_this_program() {
    let mut accounts = SetVotingWeightPlugin {
        configure_root: configure(None),
        max_vwr: MaxVoterWeightRecord::new(key(2), key(3)),
    };
    let before = accounts;
    assert_eq!(accounts.process(id()), Err(Error::CircularPluginChain));
    assert_eq!(accounts, before);
}

#[test]
fn plugin_change_needs_the_authority_of_the_realm() {
    let mut accounts = SetVotingWeightPlugin {
        configure_root: configure(None),
        max_vwr: MaxVoterWeightRecord::new(key(2), key(3)),
    };
    accounts.configure_root.realm_authority = key(8);
    assert_eq!(accounts.process(key(40)), Err(Error::WrongRealmAuthority));
}

fn create_root() -> CreateRoot {
    CreateRoot {
        root: key(10),
        realm: Account {
            key: key(2),
            data: Realm { authority: Some(key(9)), community_mint: key(3), council_mint: Some(key(5)) },
        },
        realm_config: RealmConfig {
            community_voter_weight_addin: Some(key(4)),
            council_voter_weight_addin: None,
        },
        governing_token_mint: key(3),
        realm_authority: key(9),
        governance_program: key(1),
    }
}

#[test]
fn root_is_created_for_the_community_mint() {
    let bumps = RootBumps { root: 255, max_voter_weight: 254, lock_authority: 253 };
    let created = create_root().process(50, bumps).unwrap();
    assert_eq!(created.root.key, key(10));
    assert_eq!(created.root.data, root_with(None));
    assert_eq!(created.max_vwr, MaxVoterWeightRecord::new(key(2), key(3)));
    assert_eq!(created.max_vwr.max_voter_weight, 0);
    assert_eq!(
        created.root_created,
        RootCreated {
            root: key(10),
            governance_program: key(1),
            realm: key(2),
            governing_token_mint: key(3),
            voting_weight_plugin: Some(key(4)),
        }
    );
}

#[test]
fn root_is_created_for_the_council_mint() {
    let mut accounts = create_root();
    accounts.governing_token_mint = key(5);
    let bumps = RootBumps { root: 1, max_voter_weight: 2, lock_authority: 3 };
    let created = accounts.process(0, bumps).unwrap();
    assert_eq!(created.root.data.voting_weight_plugin, Pubkey::default());
    assert_eq!(created.root.data.voting_weight_plugin, Pubkey([0; 32]));
    assert_eq!(created.root_created.voting_weight_plugin, None);
    assert_eq!(created.root.data.bumps, bumps);
}

#[test]
fn root_creation_is_turned_down() {
    let bumps = RootBumps { root: 1, max_voter_weight: 2, lock_authority: 3 };
    let mut accounts = create_root();
    accounts.realm.data.authority = None;
    assert_eq!(accounts.process(0, bumps), Err(Error::EmptyRealmAuthority));
    let mut accounts = create_root();
    accounts.realm_authority = key(8);
    assert_eq!(accounts.process(0, bumps), Err(Error::WrongRealmAuthority));
    let mut accounts = create_root();
    accounts.governing_token_mint = key(6);
    assert_eq!(accounts.process(0, bumps), Err(Error::UnknownGoverningTokenMint));
    let mut accounts = create_root();
    accounts.realm_config.community_voter_weight_addin = Some(id());
    assert_eq!(accounts.process(0, bumps), Err(Error::CircularPluginChain));
}

#[test]
fn program_address_has_its_bytes() {
    assert_eq!(id().to_bytes()[0], 7);
    assert_eq!(id().to_bytes()[31], 142);
    assert_eq!(Pubkey::new_from_array(id().to_bytes()), id());
    assert!(id() != Pubkey::default());
}
