use vote_aggregator::clock::Clock;
use vote_aggregator::error::Error;
use vote_aggregator::events::clan::{ProposalCanceled, ProposalVoteUpdated};
use vote_aggregator::host::{GovernanceConfig, Proposal, Realm, VoteRecord};
use vote_aggregator::processor::clan::{ForcedCancelProposal, UpdateClan, UpdateProposalVote};
use vote_aggregator::processor::member::{SetVoterWeightRecord, UpdateVoterWeight};
use vote_aggregator::pubkey::Pubkey;
use vote_aggregator::state::{
    Account, Clan, ClanBumps, ClanChunk, MaxVoterWeightRecord, Member, MemberBumps,
    MembershipEntry, Root, RootBumps, VoterWeightRecord, VoterWeightReset,
};

fn key(n: u8) -> Pubkey {
    Pubkey([n; 32])
}

fn clock() -> Clock {
    Clock { slot: 77, unix_timestamp: 1_000 }
}

fn root(reset: Option<VoterWeightReset>) -> Account<Root> {
    Account {
        key: key(10),
        data: Root {
            governance_program: key(1),
            realm: key(2),
            governing_token_mint: key(3),
            voting_weight_plugin: key(4),
            max_proposal_lifetime: 50,
            voter_weight_reset: reset,
            clan_count: 3,
            member_count: 1,
            bumps: RootBumps { root: 255, max_voter_weight: 254, lock_authority: 253 },
            paused: false,
        },
    }
}

/// A clan at the address `n` with the given permanent weight and
/// temporary weight, one permanent and one temporary member, under
/// the reset time `time`.
fn clan(n: u8, permanent: u64, temporary: u64, time: Option<i64>) -> ClanChunk {
    ClanChunk {
        clan: Account {
            key: key(n),
            data: Clan {
                root: key(10),
                owner: key(n + 1),
                delegate: Pubkey::default(),
                voter_authority: key(n + 2),
                token_owner_record: key(n + 3),
                voter_weight_record: key(n + 4),
                min_voting_weight_to_join: 0,
                permanent_members: 1,
                temporary_members: 1,
                updated_temporary_members: 1,
                leaving_members: 0,
                accept_temporary_members: true,
                permanent_voter_weight: permanent,
                next_voter_weight_reset_time: time,
                name: String::new(),
                description: String::new(),
                bumps: ClanBumps { voter_authority: 1, token_owner_record: 2, voter_weight_record: 3 },
            },
        },
        vwr: Account {
            key: key(n + 4),
            data: VoterWeightRecord::new(
                key(2),
                key(3),
                key(n + 2),
                permanent + temporary,
                if temporary == 0 { None } else { Some(60) },
                None,
                None,
            ),
        },
    }
}

fn member(
    voter_weight: u64,
    voter_weight_expiry: Option<u64>,
    time: Option<i64>,
    membership: Vec<MembershipEntry>,
) -> Account<Member> {
    Account {
        key: key(30),
        data: Member {
            root: key(10),
            owner: key(31),
            delegate: key(35),
            token_owner_record: key(32),
            voter_weight_record: key(33),
            voter_weight,
            voter_weight_expiry,
            next_voter_weight_reset_time: time,
            membership,
            bumps: MemberBumps { address: 1, token_owner_record: 2 },
        },
    }
}

fn entry(n: u8, share_bp: u16, leaving_time: Option<i64>) -> MembershipEntry {
    MembershipEntry { clan: key(n), share_bp, leaving_time }
}

fn weight(n: u8, voter_weight: u64, voter_weight_expiry: Option<u64>) -> Account<VoterWeightRecord> {
    Account {
        key: key(n),
        data: VoterWeightRecord::new(
            key(2),
            key(3),
            key(31),
            voter_weight,
            voter_weight_expiry,
            None,
            None,
        ),
    }
}

fn max(max_voter_weight: u64) -> MaxVoterWeightRecord {
    MaxVoterWeightRecord { max_voter_weight, ..MaxVoterWeightRecord::new(key(2), key(3)) }
}

#[test]
fn chunks_are_matched_with_the_active_entries() {
    let m = member(
        0,
        None,
        None,
        vec![entry(20, 1_000, None), entry(40, 2_000, Some(5)), entry(60, 3_000, None)],
    )
    .data;
    let a = clan(20, 0, 0, None);
    let b = clan(40, 0, 0, None);
    let c = clan(60, 0, 0, None);
    assert_eq!(m.wanted_len(None), 2);
    assert_eq!(m.wanted_len(Some(key(20))), 1);
    assert_eq!(m.wanted_len(Some(key(40))), 2);
    assert_eq!(
        m.load_clan_chunks(&vec![c.clone(), a.clone()], None),
        Ok(vec![entry(60, 3_000, None), entry(20, 1_000, None)])
    );
    assert_eq!(
        m.load_clan_chunks(&vec![a.clone(), c.clone(), b.clone()], None),
        Ok(vec![entry(20, 1_000, None), entry(60, 3_000, None)])
    );
    assert_eq!(
        m.load_clan_chunks(&vec![c.clone(), a.clone()], Some(key(20))),
        Ok(vec![entry(60, 3_000, None)])
    );
    assert_eq!(m.load_clan_chunks(&Vec::new(), Some(key(99))), Err(Error::NotEnoughAccountKeys));
    assert_eq!(m.load_clan_chunks(&vec![a.clone()], None), Err(Error::NotEnoughAccountKeys));
    assert_eq!(m.load_clan_chunks(&vec![b.clone(), a.clone()], None), Err(Error::UnexpectedClan));
    assert_eq!(m.load_clan_chunks(&vec![a.clone(), b.clone()], None), Err(Error::UnexpectedClan));
    assert_eq!(m.load_clan_chunks(&vec![a.clone(), a.clone()], None), Err(Error::UnexpectedClan));
    assert_eq!(
        m.load_clan_chunks(&vec![a.clone(), c.clone()], Some(key(20))),
        Err(Error::UnexpectedClan)
    );
    assert_eq!(m.load_clan_chunks(&vec![clan(80, 0, 0, None)], None), Err(Error::UnexpectedClan));
}

#[test]
fn chunks_need_the_records_of_their_clans() {
    let m = member(0, None, None, vec![entry(20, 1_000, None), entry(60, 3_000, None)]).data;
    let a = clan(20, 0, 0, None);
    let c = clan(60, 0, 0, None);
    let mut mixed = clan(60, 0, 0, None);
    mixed.vwr = a.vwr;
    assert_eq!(m.load_clan_chunks(&vec![a.clone(), mixed.clone()], None), Err(Error::ConstraintSeeds));
    assert_eq!(m.load_clan_chunks(&vec![mixed.clone(), a.clone()], None), Err(Error::ConstraintSeeds));
    assert_eq!(
        m.load_clan_chunks(&vec![clan(80, 0, 0, None), mixed.clone()], None),
        Err(Error::UnexpectedClan)
    );
    assert_eq!(m.load_clan_chunks(&vec![a.clone()], None), Err(Error::NotEnoughAccountKeys));
    assert!(m.load_clan_chunks(&vec![a.clone(), c.clone(), mixed.clone()], None).is_ok());
    let mut foreign = clan(80, 0, 0, None);
    foreign.vwr.key = key(99);
    assert_eq!(m.load_clan_chunks(&vec![foreign], None), Err(Error::ConstraintSeeds));

    let mut accounts = UpdateVoterWeight {
        member: member(0, None, None, vec![entry(60, 3_000, None)]),
        member_vwr: Some(weight(33, 2_000, None)),
        root: root(None),
        max_vwr: max(0),
    };
    let mut chunks = vec![mixed];
    let before = (accounts.clone(), chunks.clone());
    assert_eq!(accounts.process(&mut chunks, &clock()).err(), Some(Error::ConstraintSeeds));
    assert_eq!((accounts, chunks), before);
}

#[test]
fn member_without_clans_needs_no_chunks() {
    let m = member(0, None, None, Vec::new()).data;
    assert_eq!(m.load_clan_chunks(&Vec::new(), None), Ok(Vec::new()));
    assert_eq!(m.load_clan_chunks(&vec![clan(20, 0, 0, None)], None), Ok(Vec::new()));
    assert_eq!(m.active_share_sum(), 0);
    assert_eq!(m.find_entry(key(20)), None);
}

#[test]
fn active_shares_are_summed() {
    let m = member(
        0,
        None,
        None,
        vec![entry(20, 1_000, None), entry(40, 2_000, Some(5)), entry(60, 3_000, None)],
    )
    .data;
    assert_eq!(m.active_share_sum(), 4_000);
    assert_eq!(m.find_entry(key(40)), Some(1));
    assert_eq!(m.find_entry(key(60)), Some(2));
    assert_eq!(m.find_entry(key(61)), None);
}

#[test]
fn refresh_carries_the_new_weight_to_every_clan() {
    let mut accounts = UpdateVoterWeight {
        member: member(1_000, None, None, vec![entry(20, 6_000, None), entry(40, 4_000, None)]),
        member_vwr: Some(weight(33, 2_000, None)),
        root: root(None),
        max_vwr: max(5_000),
    };
    let mut chunks = vec![clan(40, 400, 0, None), clan(20, 700, 0, None)];
    chunks[0].clan.data.temporary_members = 0;
    chunks[0].clan.data.updated_temporary_members = 0;
    chunks[1].clan.data.temporary_members = 0;
    chunks[1].clan.data.updated_temporary_members = 0;
    let outcome = accounts.process(&mut chunks, &clock()).unwrap();
    assert_eq!(chunks[0].clan.data.permanent_voter_weight, 800);
    assert_eq!(chunks[0].vwr.data.voter_weight, 800);
    assert_eq!(chunks[1].clan.data.permanent_voter_weight, 1_300);
    assert_eq!(chunks[1].vwr.data.voter_weight, 1_300);
    assert_eq!(accounts.member.data.voter_weight, 2_000);
    assert_eq!(accounts.member.data.voter_weight_record, key(33));
    assert_eq!(accounts.max_vwr.max_voter_weight, 6_000);
    assert_eq!(outcome.refreshed.len(), 2);
    assert_eq!(outcome.refreshed[0].clan, key(40));
    assert_eq!(outcome.refreshed[0].old_voter_weight, 400);
    assert_eq!(outcome.refreshed[0].new_voter_weight, 800);
    assert_eq!(outcome.refreshed[1].clan, key(20));
    assert_eq!(outcome.refreshed[1].new_permament_voter_weight, 1_300);
    assert_eq!(outcome.member_voter_weight_changed.old_voter_weight, 1_000);
    assert_eq!(outcome.member_voter_weight_changed.new_voter_weight, 2_000);
    assert_eq!(outcome.max_voter_weight_changed.old_max_voter_weight, 5_000);
    assert_eq!(outcome.max_voter_weight_changed.new_max_voter_weight, 6_000);
}

#[test]
fn refresh_needs_the_record_that_the_member_was_read_from() {
    let mut accounts = UpdateVoterWeight {
        member: member(1_000, None, None, Vec::new()),
        member_vwr: Some(weight(34, 2_000, None)),
        root: root(None),
        max_vwr: max(5_000),
    };
    let before = accounts.clone();
    assert_eq!(accounts.process(&mut Vec::new(), &clock()).err(), Some(Error::ConstraintAddress));
    assert_eq!(accounts, before);
    accounts.member.data.root = key(99);
    assert_eq!(accounts.process(&mut Vec::new(), &clock()).err(), Some(Error::ConstraintHasOne));
}

#[test]
fn refresh_needs_a_record_of_the_member() {
    let fresh = || UpdateVoterWeight {
        member: member(1_000, None, None, Vec::new()),
        member_vwr: Some(weight(33, 2_000, None)),
        root: root(None),
        max_vwr: max(5_000),
    };
    let mut accounts = fresh();
    accounts.member_vwr = Some(Account {
        key: key(33),
        data: VoterWeightRecord::new(key(9), key(3), key(31), 1, None, None, None),
    });
    assert_eq!(accounts.process(&mut Vec::new(), &clock()).err(), Some(Error::RequireKeysEqViolated));
    let mut accounts = fresh();
    accounts.member_vwr = Some(Account {
        key: key(33),
        data: VoterWeightRecord::new(key(2), key(9), key(31), 1, None, None, None),
    });
    assert_eq!(accounts.process(&mut Vec::new(), &clock()).err(), Some(Error::RequireKeysEqViolated));
    let mut accounts = fresh();
    accounts.member_vwr = Some(Account {
        key: key(33),
        data: VoterWeightRecord::new(key(2), key(3), key(9), 1, None, None, None),
    });
    assert_eq!(accounts.process(&mut Vec::new(), &clock()).err(), Some(Error::RequireKeysEqViolated));
}

#[test]
fn paused_root_counts_every_weight_as_zero() {
    let mut accounts = UpdateVoterWeight {
        member: member(1_000, Some(90), None, vec![entry(20, 5_000, None)]),
        member_vwr: Some(weight(33, 2_000, None)),
        root: root(None),
        max_vwr: max(5_000),
    };
    accounts.root.data.paused = true;
    let mut chunks = vec![clan(20, 200, 500, None)];
    let before = (accounts.clone(), chunks.clone());
    assert_eq!(accounts.process(&mut chunks, &clock()).err(), Some(Error::Paused));
    assert_eq!((accounts.clone(), chunks.clone()), before);
    accounts.member_vwr = None;
    accounts.process(&mut chunks, &clock()).unwrap();
    assert_eq!(accounts.member.data.voter_weight, 0);
    assert_eq!(accounts.member.data.voter_weight_expiry, None);
    assert_eq!(accounts.member.data.voter_weight_record, key(33));
    assert_eq!(accounts.max_vwr.max_voter_weight, 4_000);
    assert_eq!(chunks[0].vwr.data.voter_weight, 200);
    assert_eq!(chunks[0].vwr.data.voter_weight_expiry, None);
    assert_eq!(chunks[0].clan.data.permanent_voter_weight, 200);
    assert_eq!(chunks[0].clan.data.permanent_members, 2);
    assert_eq!(chunks[0].clan.data.temporary_members, 0);
    assert_eq!(chunks[0].clan.data.updated_temporary_members, 0);
}

#[test]
fn record_is_required_while_the_root_is_not_paused() {
    let mut accounts = UpdateVoterWeight {
        member: member(1_000, None, None, Vec::new()),
        member_vwr: None,
        root: root(None),
        max_vwr: max(5_000),
    };
    assert_eq!(accounts.process(&mut Vec::new(), &clock()).err(), Some(Error::MemberVwrRequired));
}

#[test]
fn refresh_after_a_reset_earns_the_temporary_weight_again() {
    let reset = VoterWeightReset { next_reset_time: 900, step: 200 };
    let mut accounts = UpdateVoterWeight {
        member: member(1_000, Some(50), Some(900), vec![entry(20, 5_000, None)]),
        member_vwr: Some(weight(33, 800, Some(90))),
        root: root(Some(reset)),
        max_vwr: max(1_000),
    };
    let mut chunks = vec![clan(20, 200, 500, Some(900))];
    accounts.process(&mut chunks, &clock()).unwrap();
    assert_eq!(accounts.root.data.next_voter_weight_reset_time(), Some(1_100));
    assert_eq!(chunks[0].clan.data.next_voter_weight_reset_time, Some(1_100));
    assert_eq!(chunks[0].clan.data.permanent_voter_weight, 200);
    assert_eq!(chunks[0].vwr.data.voter_weight, 600);
    assert_eq!(chunks[0].vwr.data.voter_weight_expiry, Some(77));
    assert_eq!(chunks[0].clan.data.temporary_members, 1);
    assert_eq!(chunks[0].clan.data.updated_temporary_members, 1);
    assert_eq!(accounts.member.data.next_voter_weight_reset_time, Some(1_100));
    assert_eq!(accounts.member.data.voter_weight, 800);
    assert_eq!(accounts.max_vwr.max_voter_weight, 800);
}

#[test]
fn refresh_with_a_clan_that_is_not_the_members_changes_nothing() {
    let mut accounts = UpdateVoterWeight {
        member: member(1_000, None, None, vec![entry(20, 5_000, None)]),
        member_vwr: Some(weight(33, 800, None)),
        root: root(Some(VoterWeightReset { next_reset_time: 900, step: 200 })),
        max_vwr: max(1_000),
    };
    let mut chunks = vec![clan(40, 500, 0, None)];
    let before = (accounts.clone(), chunks.clone());
    assert_eq!(accounts.process(&mut chunks, &clock()).err(), Some(Error::UnexpectedClan));
    assert_eq!((accounts, chunks), before);
}

#[test]
fn new_record_is_set_by_the_member() {
    let mut accounts = SetVoterWeightRecord {
        member: member(1_000, None, None, vec![entry(20, 5_000, None)]),
        member_authority: key(35),
        member_vwr: weight(34, 600, Some(90)),
        root: root(None),
        max_vwr: max(3_000),
    };
    let mut chunks = vec![clan(20, 500, 0, None)];
    chunks[0].clan.data.temporary_members = 0;
    chunks[0].clan.data.updated_temporary_members = 0;
    let outcome = accounts.process(&mut chunks, &clock()).unwrap();
    assert_eq!(accounts.member.data.voter_weight_record, key(34));
    assert_eq!(accounts.member.data.voter_weight, 600);
    assert_eq!(accounts.member.data.voter_weight_expiry, Some(90));
    assert_eq!(accounts.max_vwr.max_voter_weight, 2_600);
    assert_eq!(chunks[0].clan.data.permanent_voter_weight, 0);
    assert_eq!(chunks[0].clan.data.permanent_members, 0);
    assert_eq!(chunks[0].clan.data.temporary_members, 1);
    assert_eq!(chunks[0].clan.data.updated_temporary_members, 1);
    assert_eq!(chunks[0].vwr.data.voter_weight, 300);
    assert_eq!(chunks[0].vwr.data.voter_weight_expiry, Some(77));
    assert_eq!(outcome.member_voter_weight_changed.old_voter_weight_record, key(33));
    assert_eq!(outcome.member_voter_weight_changed.new_voter_weight_record, key(34));
}

#[test]
fn new_record_is_turned_down() {
    let fresh = || SetVoterWeightRecord {
        member: member(1_000, None, None, vec![entry(20, 5_000, None)]),
        member_authority: key(31),
        member_vwr: weight(34, 600, Some(90)),
        root: root(None),
        max_vwr: max(3_000),
    };
    let chunk = || {
        let mut c = clan(20, 500, 0, None);
        c.clan.data.temporary_members = 0;
        c.clan.data.updated_temporary_members = 0;
        c
    };
    let mut accounts = fresh();
    accounts.member_authority = key(99);
    assert_eq!(accounts.process(&mut vec![chunk()], &clock()).err(), Some(Error::WrongMemberAuthority));
    let mut accounts = fresh();
    accounts.root.data.paused = true;
    assert_eq!(accounts.process(&mut vec![chunk()], &clock()).err(), Some(Error::Paused));
    let mut accounts = fresh();
    accounts.member_vwr.data.governing_token_owner = key(99);
    assert_eq!(accounts.process(&mut vec![chunk()], &clock()).err(), Some(Error::RequireKeysEqViolated));
    let mut accounts = fresh();
    assert_eq!(accounts.process(&mut Vec::new(), &clock()).err(), Some(Error::NotEnoughAccountKeys));
    let mut accounts = fresh();
    let mut closed = chunk();
    closed.clan.data.accept_temporary_members = false;
    let before = (accounts.clone(), closed.clone());
    let mut chunks = vec![closed];
    assert_eq!(
        accounts.process(&mut chunks, &clock()).err(),
        Some(Error::TemporaryMembersNotAllowed)
    );
    assert_eq!((accounts, chunks.pop().unwrap()), before);
    let mut accounts = fresh();
    accounts.member_vwr = weight(34, 600, Some(76));
    assert_eq!(accounts.process(&mut vec![chunk()], &clock()).err(), Some(Error::VoterWeightExpired));
}

#[test]
fn update_clan_resets_a_clan_under_a_new_epoch() {
    let chunk = clan(20, 200, 300, Some(900));
    let mut accounts = UpdateClan {
        root: root(Some(VoterWeightReset { next_reset_time: 900, step: 200 })),
        clan: chunk.clan,
        clan_vwr: chunk.vwr,
    };
    accounts.clan.data.temporary_members = 2;
    accounts.clan.data.updated_temporary_members = 2;
    assert_eq!(accounts.process(&clock()), Ok(()));
    assert_eq!(accounts.root.data.next_voter_weight_reset_time(), Some(1_100));
    assert_eq!(accounts.clan_vwr.data.voter_weight, 200);
    assert_eq!(accounts.clan_vwr.data.voter_weight_expiry, None);
    assert_eq!(accounts.clan.data.updated_temporary_members, 0);
    assert_eq!(accounts.clan.data.temporary_members, 2);
    assert_eq!(accounts.clan.data.next_voter_weight_reset_time, Some(1_100));
    let after = accounts.clone();
    assert_eq!(accounts.process(&clock()), Ok(()));
    assert_eq!(accounts, after);
}

#[test]
fn update_clan_needs_the_accounts_of_the_clan() {
    let chunk = clan(20, 200, 300, Some(900));
    let mut accounts = UpdateClan { root: root(None), clan: chunk.clan, clan_vwr: chunk.vwr };
    accounts.clan_vwr.key = key(99);
    let before = accounts.clone();
    assert_eq!(accounts.process(&clock()), Err(Error::ConstraintAddress));
    assert_eq!(accounts, before);
    accounts.clan.data.root = key(98);
    assert_eq!(accounts.process(&clock()), Err(Error::ConstraintHasOne));
}

fn cancel(chunk: ClanChunk, reset: Option<VoterWeightReset>) -> ForcedCancelProposal {
    ForcedCancelProposal {
        clan_tor: chunk.clan.data.token_owner_record,
        clan: chunk.clan,
        root: root(reset),
        realm: Account {
            key: key(2),
            data: Realm { authority: Some(key(9)), community_mint: key(3), council_mint: Some(key(5)) },
        },
        governing_token_mint: key(3),
        governance: GovernanceConfig {
            min_community_weight_to_create_proposal: 501,
            min_council_weight_to_create_proposal: 1,
        },
        proposal: Account { key: key(70), data: Proposal { token_owner_record: key(23) } },
        clan_vwr: chunk.vwr,
        governance_program: key(1),
    }
}

fn vote(chunk: ClanChunk, reset: Option<VoterWeightReset>, voter_weight: u64) -> UpdateProposalVote {
    UpdateProposalVote {
        clan_tor: chunk.clan.data.token_owner_record,
        clan: chunk.clan,
        root: root(reset),
        realm: key(2),
        governing_token_mint: key(3),
        proposal: key(70),
        clan_vwr: chunk.vwr,
        vote_record: VoteRecord { voter_weight },
        governance_program: key(1),
    }
}

#[test]
fn stale_clan_blocks_host_operation() {
    let reset = Some(VoterWeightReset { next_reset_time: 1_100, step: 200 });
    let mut stale = clan(20, 200, 0, Some(1_100));
    stale.clan.data.updated_temporary_members = 0;
    assert!(!stale.clan.data.is_updated(&root(reset).data, &clock()));
    assert_eq!(
        cancel(stale.clone(), reset).process(&clock()),
        Err(Error::TemporaryMembersNotUpdated)
    );
    assert_eq!(
        vote(stale.clone(), reset, 0).process(&clock()),
        Err(Error::TemporaryMembersNotUpdated)
    );

    let mut refresh = UpdateVoterWeight {
        member: member(1_000, Some(50), Some(900), vec![entry(20, 3_000, None)]),
        member_vwr: Some(weight(33, 1_000, Some(90))),
        root: root(reset),
        max_vwr: max(1_000),
    };
    let mut chunks = vec![stale];
    refresh.process(&mut chunks, &clock()).unwrap();
    let updated = chunks.pop().unwrap();
    assert_eq!(updated.clan.data.updated_temporary_members, 1);
    assert_eq!(updated.vwr.data.voter_weight, 500);
    assert!(updated.clan.data.is_updated(&refresh.root.data, &clock()));
    assert_eq!(
        cancel(updated.clone(), reset).process(&clock()),
        Ok(ProposalCanceled { clan: key(20), proposal: key(70) })
    );
    assert_eq!(
        vote(updated, reset, 200).process(&clock()),
        Ok(Some(ProposalVoteUpdated {
            clan: key(20),
            proposal: key(70),
            old_voting_weight: 200,
            new_voting_weight: 500,
        }))
    );
}

#[test]
fn vote_with_the_present_weight_is_left_alone() {
    assert_eq!(vote(clan(20, 200, 300, None), None, 500).process(&clock()), Ok(None));
}

#[test]
fn vote_update_needs_the_accounts_of_the_clan() {
    let mut accounts = vote(clan(20, 200, 300, None), None, 0);
    accounts.clan_tor = key(99);
    assert_eq!(accounts.process(&clock()), Err(Error::ConstraintAddress));
    let mut accounts = vote(clan(20, 200, 300, None), None, 0);
    accounts.clan_vwr.key = key(99);
    assert_eq!(accounts.process(&clock()), Err(Error::ConstraintAddress));
    let mut accounts = vote(clan(20, 200, 300, None), None, 0);
    accounts.governing_token_mint = key(99);
    assert_eq!(accounts.process(&clock()), Err(Error::ConstraintHasOne));
    let mut accounts = vote(clan(20, 200, 300, None), None, 0);
    accounts.clan.data.root = key(99);
    assert_eq!(accounts.process(&clock()), Err(Error::ConstraintHasOne));
}

#[test]
fn proposal_is_cancelled_only_below_the_weight_to_propose() {
    let mut accounts = cancel(clan(20, 200, 300, None), None);
    assert!(accounts.process(&clock()).is_ok());
    accounts.governance.min_community_weight_to_create_proposal = 500;
    assert_eq!(accounts.process(&clock()), Err(Error::RequireGtViolated));
    accounts.governing_token_mint = key(5);
    accounts.root.data.governing_token_mint = key(5);
    assert_eq!(accounts.process(&clock()), Err(Error::RequireGtViolated));
    accounts.governance.min_council_weight_to_create_proposal = 501;
    assert!(accounts.process(&clock()).is_ok());
}

#[test]
fn proposal_is_cancelled_only_for_its_clan() {
    let mut accounts = cancel(clan(20, 200, 300, None), None);
    accounts.proposal.data.token_owner_record = key(99);
    assert_eq!(accounts.process(&clock()), Err(Error::RequireKeysEqViolated));
    let mut accounts = cancel(clan(20, 200, 300, None), None);
    accounts.governing_token_mint = key(6);
    accounts.root.data.governing_token_mint = key(6);
    assert_eq!(accounts.process(&clock()), Err(Error::UnknownGoverningTokenMint));
    let mut accounts = cancel(clan(20, 200, 300, None), None);
    accounts.clan_tor = key(99);
    assert_eq!(accounts.process(&clock()), Err(Error::ConstraintAddress));
    let mut accounts = cancel(clan(20, 200, 300, None), None);
    accounts.clan_vwr.key = key(99);
    assert_eq!(accounts.process(&clock()), Err(Error::ConstraintSeeds));
    let mut accounts = cancel(clan(20, 200, 300, None), None);
    accounts.realm.key = key(99);
    assert_eq!(accounts.process(&clock()), Err(Error::ConstraintHasOne));
}

/// The weight that the members bring to a clan under the reset time
/// `time`: each with its weight, share and expiry, and the reset
/// time under which its weight was read.
fn expected_weights(members: &[(u64, u16, Option<u64>, Option<i64>)], time: Option<i64>) -> (u64, u64) {
    let mut permanent = 0;
    let mut temporary = 0;
    for (weight, share_bp, expiry, read_under) in members {
        let amount = (*weight as u128 * *share_bp as u128 / 10_000) as u64;
        if expiry.is_none() {
            permanent += amount;
        } else if *read_under == time {
            temporary += amount;
        }
    }
    (permanent, temporary)
}

#[test]
fn clan_weight_is_the_permanent_weight_and_the_temporary_weight_that_is_up_to_date() {
    let mut chunk = clan(20, 0, 0, None);
    chunk.clan.data.permanent_members = 0;
    chunk.clan.data.temporary_members = 0;
    chunk.clan.data.updated_temporary_members = 0;
    let mut chunks = vec![chunk];
    let mut r = root(Some(VoterWeightReset { next_reset_time: 1_100, step: 200 }));
    let mut max_vwr = max(0);
    let mut members: Vec<Account<Member>> = (0..3u8)
        .map(|n| {
            let mut m = member(0, None, None, vec![entry(20, 2_500 * (n as u16 + 1), None)]);
            m.key = key(30 + n);
            m
        })
        .collect();
    // The members enter the books of the clan with no weight.
    chunks[0].clan.data.permanent_members = 3;

    let steps: [(usize, u64, Option<u64>, i64); 9] = [
        (0, 1_000, None, 1_000),
        (1, 500, Some(5_000), 1_000),
        (2, 333, Some(5_000), 1_050),
        (1, 700, Some(5_000), 1_099),
        (0, 2_000, Some(5_000), 1_100),
        (2, 900, None, 1_200),
        (1, 100, Some(5_000), 1_299),
        (0, 50, None, 1_300),
        (2, 1, Some(5_000), 1_700),
    ];
    for (i, weight, expiry, now) in steps {
        let record = VoterWeightRecord::new(key(2), key(3), key(31), weight, expiry, None, None);
        let mut accounts = UpdateVoterWeight {
            member: members[i].clone(),
            member_vwr: Some(Account { key: key(33), data: record }),
            root: r,
            max_vwr,
        };
        accounts.process(&mut chunks, &Clock { slot: 77, unix_timestamp: now }).unwrap();
        members[i] = accounts.member;
        r = accounts.root;
        max_vwr = accounts.max_vwr;

        let clan = &chunks[0].clan.data;
        let vwr = &chunks[0].vwr.data;
        let brought: Vec<(u64, u16, Option<u64>, Option<i64>)> = members
            .iter()
            .map(|m| {
                (
                    m.data.voter_weight,
                    m.data.membership[0].share_bp,
                    m.data.voter_weight_expiry,
                    m.data.next_voter_weight_reset_time,
                )
            })
            .collect();
        let (permanent, temporary) = expected_weights(&brought, clan.next_voter_weight_reset_time);
        assert_eq!(clan.permanent_voter_weight, permanent);
        assert_eq!(vwr.voter_weight, permanent + temporary);
        assert_eq!(vwr.voter_weight_expiry.is_none(), vwr.voter_weight == clan.permanent_voter_weight);
        assert_eq!(clan.permanent_members + clan.temporary_members, 3);
        assert!(clan.updated_temporary_members <= clan.temporary_members);
        let sum: u64 = members.iter().map(|m| m.data.voter_weight).sum();
        assert_eq!(max_vwr.max_voter_weight, sum);
    }
    assert_eq!(chunks[0].clan.data.next_voter_weight_reset_time, Some(1_900));
    assert_eq!(chunks[0].clan.data.permanent_voter_weight, 12);
    assert_eq!(chunks[0].vwr.data.voter_weight, 12);
    assert_eq!(chunks[0].vwr.data.voter_weight_expiry, None);
    assert_eq!(chunks[0].clan.data.temporary_members, 2);
    assert_eq!(chunks[0].clan.data.updated_temporary_members, 1);
}
