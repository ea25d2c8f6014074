use vote_aggregator::clock::Clock;
use vote_aggregator::error::Error;
use vote_aggregator::host::TokenOwnerRecord;
use vote_aggregator::processor::clan::{CreateClan, UpdateClan};
use vote_aggregator::processor::member::refresh::try_refresh_member_weight;
use vote_aggregator::processor::member::{
    CreateMember, ExitClan, JoinClan, SetVoterWeightRecord, StartLeavingClan, UpdateVoterWeight,
};
use vote_aggregator::processor::root::{ConfigureRoot, UpdateRoot};
use vote_aggregator::host::Realm;
use vote_aggregator::pubkey::Pubkey;
use vote_aggregator::state::{
    Account, Clan, ClanBumps, ClanChunk, MaxVoterWeightRecord, Member, MemberBumps,
    MembershipEntry, Root, RootBumps, VoterWeightRecord, VoterWeightReset,
};

fn key(n: u8) -> Pubkey {
    Pubkey([n; 32])
}

fn clock() -> Clock {
    Clock { slot: 77, unix_timestamp: 1_000 }
}

fn root(reset: Option<VoterWeightReset>) -> Account<Root> {
    Account {
        key: key(10),
        data: Root {
            governance_program: key(1),
            realm: key(2),
            governing_token_mint: key(3),
            voting_weight_plugin: key(4),
            max_proposal_lifetime: 50,
            voter_weight_reset: reset,
            clan_count: 3,
            member_count: 1,
            bumps: RootBumps { root: 255, max_voter_weight: 254, lock_authority: 253 },
            paused: false,
        },
    }
}

fn clan(n: u8, permanent: u64) -> ClanChunk {
    ClanChunk {
        clan: Account {
            key: key(n),
            data: Clan {
                root: key(10),
                owner: key(n + 1),
                delegate: Pubkey::default(),
                voter_authority: key(n + 2),
                token_owner_record: key(n + 3),
                voter_weight_record: key(n + 4),
                min_voting_weight_to_join: 0,
                permanent_members: if permanent == 0 { 0 } else { 1 },
                temporary_members: 0,
                updated_temporary_members: 0,
                leaving_members: 0,
                accept_temporary_members: true,
                permanent_voter_weight: permanent,
                next_voter_weight_reset_time: None,
                name: String::new(),
                description: String::new(),
                bumps: ClanBumps { voter_authority: 1, token_owner_record: 2, voter_weight_record: 3 },
            },
        },
        vwr: Account {
            key: key(n + 4),
            data: VoterWeightRecord::new(key(2), key(3), key(n + 2), permanent, None, None, None),
        },
    }
}

fn member(voter_weight: u64, membership: Vec<MembershipEntry>) -> Account<Member> {
    Account {
        key: key(30),
        data: Member {
            root: key(10),
            owner: key(31),
            delegate: key(35),
            token_owner_record: key(32),
            voter_weight_record: key(33),
            voter_weight,
            voter_weight_expiry: None,
            next_voter_weight_reset_time: None,
            membership,
            bumps: MemberBumps { address: 1, token_owner_record: 2 },
        },
    }
}

fn entry(n: u8, share_bp: u16, leaving_time: Option<i64>) -> MembershipEntry {
    MembershipEntry { clan: key(n), share_bp, leaving_time }
}

fn weight(voter_weight: u64) -> Account<VoterWeightRecord> {
    Account {
        key: key(33),
        data: VoterWeightRecord::new(key(2), key(3), key(31), voter_weight, None, None, None),
    }
}

fn max(max_voter_weight: u64) -> MaxVoterWeightRecord {
    MaxVoterWeightRecord { max_voter_weight, ..MaxVoterWeightRecord::new(key(2), key(3)) }
}

fn join(member: Account<Member>, target: ClanChunk, record: Account<VoterWeightRecord>) -> JoinClan {
    JoinClan {
        member,
        member_authority: key(31),
        clan: target.clan,
        root: root(None),
        lock_authority: key(11),
        realm: key(2),
        clan_vwr: target.vwr,
        member_tor: Account {
            key: key(32),
            data: TokenOwnerRecord {
                governing_token_owner: key(31),
                unrelinquished_votes_count: 0,
                outstanding_proposal_count: 0,
                governance_delegate: None,
                locks: Vec::new(),
            },
        },
        member_vwr: record,
        max_vwr: max(0),
        governance_program: key(1),
    }
}

#[test]
fn well_formed_members_are_recognised() {
    assert!(member(0, Vec::new()).data.is_wf());
    assert!(member(0, vec![entry(20, 6_000, None), entry(40, 4_000, None)]).data.is_wf());
    assert!(member(0, vec![entry(20, 6_000, None), entry(40, 10_000, Some(5))]).data.is_wf());
    assert!(!member(0, vec![entry(20, 6_000, None), entry(40, 4_001, None)]).data.is_wf());
    assert!(!member(0, vec![entry(20, 6_000, None), entry(20, 1, None)]).data.is_wf());
    assert!(!member(0, vec![entry(20, 10_001, Some(5))]).data.is_wf());
    let many = (0..17u8).map(|n| entry(100 + n, 1, None)).collect();
    assert!(!member(0, many).data.is_wf());
    let full = (0..16u8).map(|n| entry(100 + n, 625, None)).collect();
    assert!(member(0, full).data.is_wf());
}

#[test]
fn rollover_that_cannot_be_stored_is_recognised() {
    let late = Clock { slot: 1, unix_timestamp: i64::MAX - 5 };
    let wide = root(Some(VoterWeightReset { next_reset_time: i64::MAX - 10, step: 12 })).data;
    assert!(!wide.rollover_is_storable(&late));
    let fine = root(Some(VoterWeightReset { next_reset_time: i64::MAX - 10, step: 5 })).data;
    assert!(fine.rollover_is_storable(&late));
    assert!(!fine.rollover_is_storable(&Clock { slot: 1, unix_timestamp: i64::MAX }));
    assert!(root(Some(VoterWeightReset { next_reset_time: i64::MAX, step: u64::MAX })).data
        .rollover_is_storable(&late));
    assert!(root(Some(VoterWeightReset { next_reset_time: i64::MIN, step: 0 })).data
        .rollover_is_storable(&late));
    assert!(root(None).data.rollover_is_storable(&late));
    assert!(root(Some(VoterWeightReset { next_reset_time: i64::MIN, step: u64::MAX })).data
        .rollover_is_storable(&late));
    assert!(!root(Some(VoterWeightReset { next_reset_time: i64::MIN + 1, step: u64::MAX })).data
        .rollover_is_storable(&late));
    assert!(root(Some(VoterWeightReset { next_reset_time: i64::MIN, step: u64::MAX })).data
        .rollover_is_storable(&Clock { slot: 1, unix_timestamp: -2 }));

    let mut accounts =
        UpdateRoot { root: root(Some(VoterWeightReset { next_reset_time: i64::MAX - 10, step: 12 })) };
    let before = accounts;
    assert!(!accounts.try_process(&late));
    assert_eq!(accounts, before);
    assert!(accounts.try_process(&clock()));
    assert_eq!(accounts, before);
    accounts.root.data.voter_weight_reset =
        Some(VoterWeightReset { next_reset_time: i64::MAX - 10, step: 5 });
    assert!(accounts.try_process(&late));
    assert_eq!(accounts.root.data.next_voter_weight_reset_time(), Some(i64::MAX));
}

#[test]
fn schedule_without_room_for_a_step_is_not_set() {
    let mut accounts = ConfigureRoot {
        root: root(None),
        realm: Account {
            key: key(2),
            data: Realm { authority: Some(key(9)), community_mint: key(3), council_mint: None },
        },
        realm_authority: key(9),
    };
    let before = accounts;
    assert_eq!(accounts.try_set_voter_weight_reset(10, Some(i64::MAX - 9), &clock()), None);
    assert_eq!(accounts.try_set_voter_weight_reset(u64::MAX, None, &clock()), None);
    assert_eq!(accounts, before);
    assert_eq!(
        accounts.try_set_voter_weight_reset(0, Some(i64::MAX), &clock()),
        Some(Err(Error::InvalidResetStep))
    );
    assert_eq!(
        accounts.try_set_voter_weight_reset(u64::MAX, Some(5), &clock()),
        Some(Err(Error::InvalidNextResetTime))
    );
    assert!(matches!(
        accounts.try_set_voter_weight_reset(10, Some(i64::MAX - 10), &clock()),
        Some(Ok(_))
    ));
    assert_eq!(
        accounts.root.data.voter_weight_reset,
        Some(VoterWeightReset { next_reset_time: i64::MAX - 10, step: 10 })
    );
    let before = accounts;
    assert_eq!(accounts.try_set_voter_weight_reset(11, None, &clock()), None);
    assert_eq!(accounts, before);
    assert_eq!(
        accounts.try_set_voter_weight_reset(11, Some(7), &clock()),
        Some(Err(Error::CanNotChangeNextResetTime))
    );
    assert!(matches!(accounts.try_set_voter_weight_reset(3, None, &clock()), Some(Ok(_))));
    accounts.realm_authority = key(8);
    assert_eq!(
        accounts.try_set_voter_weight_reset(u64::MAX, None, &clock()),
        Some(Err(Error::WrongRealmAuthority))
    );
}

#[test]
fn posting_that_the_books_cannot_hold_is_recognised() {
    let chunk = clan(20, 500);
    let root = root(None).data;
    let m = member(1_000, vec![entry(20, 6_000, None)]).data;
    let fresh = weight(2_000).data;
    assert!(!chunk.clan.data.can_post_after_reset(
        &chunk.vwr.data,
        &root,
        &m,
        Some(6_000),
        Some(&fresh),
        Some(6_000)
    ));
    let chunk = clan(20, 600);
    assert!(chunk.clan.data.can_post_after_reset(
        &chunk.vwr.data,
        &root,
        &m,
        Some(6_000),
        Some(&fresh),
        Some(6_000)
    ));
    assert!(!chunk.clan.data.can_post_after_reset(
        &chunk.vwr.data,
        &root,
        &m,
        Some(6_000),
        Some(&fresh),
        Some(10_001)
    ));
    assert!(!chunk.clan.data.can_post_after_reset(
        &chunk.vwr.data,
        &root,
        &m,
        None,
        Some(&weight(u64::MAX).data),
        Some(10_000)
    ));
    let mut crowded = clan(20, 600);
    crowded.clan.data.permanent_members = u64::MAX;
    assert!(!crowded.clan.data.can_post_after_reset(&crowded.vwr.data, &root, &m, None, None, Some(1)));
    assert!(crowded.clan.data.can_post_after_reset(
        &crowded.vwr.data,
        &root,
        &m,
        Some(6_000),
        None,
        Some(6_000)
    ));
    let mut broken = clan(20, 600);
    broken.vwr.data.voter_weight = 599;
    assert!(!broken.clan.data.can_post_after_reset(&broken.vwr.data, &root, &m, None, None, None));
}

#[test]
fn maximum_that_cannot_follow_is_recognised() {
    let m = member(1_000, Vec::new()).data;
    assert!(m.max_is_storable(&max(1_000), u64::MAX));
    assert!(!m.max_is_storable(&max(1_001), u64::MAX));
    assert!(!m.max_is_storable(&max(999), 0));
    assert!(m.max_is_storable(&max(u64::MAX), 1_000));
    assert!(!m.max_is_storable(&max(u64::MAX), 1_001));
}

#[test]
fn join_that_cannot_be_stored_changes_nothing() {
    let mut accounts = join(member(0, Vec::new()), clan(20, 0), weight(1_000));
    accounts.max_vwr = max(u64::MAX);
    let before = accounts.clone();
    assert!(accounts.try_process(6_000, &mut Vec::new(), &clock()).is_none());
    assert_eq!(accounts, before);

    let mut accounts = join(member(0, Vec::new()), clan(20, 0), weight(1_000));
    accounts.clan_vwr.data.voter_weight = u64::MAX;
    accounts.clan.data.permanent_voter_weight = u64::MAX;
    assert!(accounts.try_process(6_000, &mut Vec::new(), &clock()).is_none());

    let mut accounts = join(
        member(1_000, vec![entry(40, 4_000, None)]),
        clan(20, 0),
        weight(1_000),
    );
    accounts.max_vwr = max(1_000);
    let mut chunks = vec![clan(40, 399)];
    let before = (accounts.clone(), chunks.clone());
    assert!(accounts.try_process(6_000, &mut chunks, &clock()).is_none());
    assert_eq!((accounts.clone(), chunks), before);
    let mut chunks = vec![clan(40, 400)];
    let outcome = accounts.try_process(6_000, &mut chunks, &clock()).unwrap().unwrap();
    assert_eq!(outcome.refreshed.len(), 1);
    assert_eq!(accounts.clan_vwr.data.voter_weight, 600);
    assert_eq!(chunks[0].vwr.data.voter_weight, 400);
    assert_eq!(accounts.max_vwr.max_voter_weight, 1_000);
}

#[test]
fn join_that_is_turned_down_is_turned_down_whatever_the_numbers() {
    let mut accounts = join(member(0, Vec::new()), clan(20, 0), weight(1_000));
    accounts.max_vwr = max(u64::MAX);
    accounts.member_authority = key(99);
    assert_eq!(
        accounts.try_process(6_000, &mut Vec::new(), &clock()).map(|r| r.err()),
        Some(Some(Error::WrongMemberAuthority))
    );
}

#[test]
fn refresh_that_cannot_be_stored_changes_nothing() {
    let mut m = member(1_000, vec![entry(20, 5_000, None)]);
    let mut r = root(Some(VoterWeightReset { next_reset_time: 900, step: 200 })).data;
    let mut max_vwr = max(900);
    let mut chunks = vec![clan(20, 500)];
    let before = (m.clone(), r, max_vwr, chunks.clone());
    let result =
        try_refresh_member_weight(&mut m, &mut r, &mut max_vwr, key(33), &weight(5).data, &mut chunks, &clock());
    assert!(result.is_none());
    assert_eq!((m.clone(), r, max_vwr, chunks.clone()), before);
    max_vwr = max(1_000);
    let result =
        try_refresh_member_weight(&mut m, &mut r, &mut max_vwr, key(33), &weight(5).data, &mut chunks, &clock());
    assert!(matches!(result, Some(Ok(_))));
    assert_eq!(max_vwr.max_voter_weight, 5);
    assert_eq!(chunks[0].vwr.data.voter_weight, 2);
    assert_eq!(r.next_voter_weight_reset_time(), Some(1_100));
    assert_eq!(m.data.next_voter_weight_reset_time, Some(1_100));
}

#[test]
fn refresh_operations_hand_back_none_where_the_numbers_do_not_fit() {
    let mut accounts = UpdateVoterWeight {
        member: member(1_000, Vec::new()),
        member_vwr: Some(weight(2_000)),
        root: root(None),
        max_vwr: max(999),
    };
    let before = accounts.clone();
    assert!(accounts.try_process(&mut Vec::new(), &clock()).is_none());
    assert_eq!(accounts, before);
    accounts.max_vwr = max(1_000);
    assert!(matches!(accounts.try_process(&mut Vec::new(), &clock()), Some(Ok(_))));
    assert_eq!(accounts.max_vwr.max_voter_weight, 2_000);
    accounts.member.data.root = key(99);
    assert_eq!(
        accounts.try_process(&mut Vec::new(), &clock()).map(|r| r.err()),
        Some(Some(Error::ConstraintHasOne))
    );

    let mut accounts = SetVoterWeightRecord {
        member: member(1_000, Vec::new()),
        member_authority: key(31),
        member_vwr: weight(2_000),
        root: root(None),
        max_vwr: max(u64::MAX),
    };
    let before = accounts.clone();
    assert!(accounts.try_process(&mut Vec::new(), &clock()).is_none());
    assert_eq!(accounts, before);
    accounts.member_vwr = weight(1_000);
    assert!(matches!(accounts.try_process(&mut Vec::new(), &clock()), Some(Ok(_))));
    assert_eq!(accounts.max_vwr.max_voter_weight, u64::MAX);
}

#[test]
fn leave_that_cannot_be_stored_changes_nothing() {
    let chunk = clan(20, 600);
    let mut accounts = StartLeavingClan {
        member: member(1_000, vec![entry(20, 6_000, None)]),
        root: root(None),
        clan: chunk.clan,
        clan_vwr: chunk.vwr,
        member_authority: key(31),
    };
    accounts.root.data.max_proposal_lifetime = u64::MAX;
    let before = accounts.clone();
    assert!(accounts.try_process(&clock()).is_none());
    assert_eq!(accounts, before);
    accounts.root.data.max_proposal_lifetime = (i64::MAX - 1_000) as u64;
    accounts.clan.data.permanent_voter_weight = 599;
    accounts.clan_vwr.data.voter_weight = 599;
    assert!(accounts.try_process(&clock()).is_none());
    accounts.clan.data.permanent_voter_weight = 600;
    accounts.clan_vwr.data.voter_weight = 600;
    accounts.clan.data.leaving_members = u64::MAX;
    assert!(accounts.try_process(&clock()).is_none());
    accounts.clan.data.leaving_members = 0;
    assert!(matches!(accounts.try_process(&clock()), Some(Ok(_))));
    assert_eq!(accounts.member.data.membership, vec![entry(20, 6_000, Some(i64::MAX))]);
    assert_eq!(accounts.clan.data.leaving_members, 1);
    assert_eq!(accounts.try_process(&clock()).map(|r| r.err()), Some(Some(Error::RerequestingLeavingClan)));
}

#[test]
fn exit_from_a_clan_that_counts_no_leaving_member_changes_nothing() {
    let mut accounts = ExitClan {
        member: member(1_000, vec![entry(20, 6_000, Some(5))]),
        clan: clan(20, 0).clan,
        member_authority: key(31),
        member_tor: key(32),
        root: root(None),
        realm: key(2),
        lock_authority: key(11),
        governance_program: key(1),
        clan_tor: None,
    };
    let before = accounts.clone();
    assert!(accounts.try_process(&clock()).is_none());
    assert_eq!(accounts, before);
    accounts.clan.data.leaving_members = 1;
    assert!(matches!(accounts.try_process(&clock()), Some(Ok(_))));
    assert!(accounts.member.data.membership.is_empty());
    assert_eq!(accounts.try_process(&clock()).map(|r| r.err()), Some(Some(Error::UnexpectedExitingClan)));
}

#[test]
fn creations_hand_back_none_where_the_root_cannot_count_them() {
    let mut accounts = CreateMember {
        member: key(30),
        root: root(None),
        owner: key(31),
        member_tor: Account {
            key: key(32),
            data: TokenOwnerRecord {
                governing_token_owner: key(31),
                unrelinquished_votes_count: 0,
                outstanding_proposal_count: 0,
                governance_delegate: None,
                locks: Vec::new(),
            },
        },
    };
    accounts.root.data.member_count = u64::MAX;
    let bumps = MemberBumps { address: 1, token_owner_record: 2 };
    let before = accounts.clone();
    assert!(accounts.try_process(bumps).is_none());
    assert_eq!(accounts, before);
    accounts.root.data.member_count = u64::MAX - 1;
    assert!(matches!(accounts.try_process(bumps), Some(Ok(_))));
    assert_eq!(accounts.root.data.member_count, u64::MAX);
    accounts.owner = key(99);
    assert_eq!(accounts.try_process(bumps).map(|r| r.err()), Some(Some(Error::RequireKeysEqViolated)));

    let mut accounts = CreateClan {
        root: root(None),
        realm: key(2),
        governing_token_mint: key(3),
        clan: key(20),
        voter_authority: key(22),
        clan_tor: key(23),
        clan_vwr: key(24),
        governance_program: key(1),
    };
    accounts.root.data.clan_count = u64::MAX;
    let bumps = ClanBumps { voter_authority: 1, token_owner_record: 2, voter_weight_record: 3 };
    let before = accounts;
    assert!(accounts.try_process(key(21), bumps, &clock()).is_none());
    assert_eq!(accounts, before);
    accounts.realm = key(99);
    assert_eq!(
        accounts.try_process(key(21), bumps, &clock()).map(|r| r.err()),
        Some(Some(Error::ConstraintHasOne))
    );
    accounts.realm = key(2);
    accounts.root.data.clan_count = 0;
    assert!(matches!(accounts.try_process(key(21), bumps, &clock()), Some(Ok(_))));
    assert_eq!(accounts.root.data.clan_count, 1);
}

#[test]
fn clan_update_hands_back_none_where_the_rollover_cannot_be_stored() {
    let chunk = clan(20, 600);
    let mut accounts = UpdateClan {
        root: root(Some(VoterWeightReset { next_reset_time: i64::MAX - 10, step: 12 })),
        clan: chunk.clan,
        clan_vwr: chunk.vwr,
    };
    let late = Clock { slot: 1, unix_timestamp: i64::MAX - 5 };
    let before = accounts.clone();
    assert_eq!(accounts.try_process(&late), None);
    assert_eq!(accounts, before);
    assert_eq!(accounts.try_process(&clock()), Some(Ok(())));
    assert_eq!(accounts.clan.data.next_voter_weight_reset_time, Some(i64::MAX - 10));
    accounts.clan.data.root = key(99);
    assert_eq!(accounts.try_process(&late), Some(Err(Error::ConstraintHasOne)));
    assert_eq!(accounts.check_accounts(), Err(Error::ConstraintHasOne));
}
