use chain_spec::config::{
    ActorsConfig, CouncilElectionConfig, DataObjectStorageRegistryConfig,
    DataObjectTypeRegistryConfig, DownloadSessionsConfig, Forcing, InputValidationLengthConstraint,
    Perbill, ProposalsConfig, SessionKeys, StakerStatus, SudoConfig,
};
use chain_spec::economics::{
    CENTS, DAYS, DOLLARS, ENDOWMENT, HOURS, MINUTES, SECS_PER_BLOCK, STASH,
};
use chain_spec::genesis::{
    balances_config, new_validation, session_config, session_keys, staking_config, testnet_genesis,
};
use chain_spec::keys::{AccountId, AuthorityKeys, BabeId, GrandpaId, ImOnlineId};

fn account(n: u8) -> AccountId {
    AccountId([n; 32])
}

fn authority(n: u8) -> AuthorityKeys {
    (
        AccountId([n; 32]),
        AccountId([n + 1; 32]),
        GrandpaId([n + 2; 32]),
        BabeId([n + 3; 32]),
        ImOnlineId([n + 4; 32]),
    )
}

fn credited(balances: &[(AccountId, u128)], who: &AccountId) -> u128 {
    let mut sum = 0u128;
    for (a, amount) in balances.iter() {
        if a == who {
            sum += *amount;
        }
    }
    sum
}

#[test]
fn units_have_their_exact_values() {
    assert_eq!(CENTS, 1);
    assert_eq!(DOLLARS, 100);
    assert_eq!(SECS_PER_BLOCK, 6);
    assert_eq!(MINUTES, 10);
    assert_eq!(HOURS, 600);
    assert_eq!(DAYS, 14_400);
    assert_eq!(STASH, 5_000);
    assert_eq!(ENDOWMENT, 10_000_000_000);
    assert_eq!(DAYS * SECS_PER_BLOCK, 86_400);
}

#[test]
fn perbill_of_millionths() {
    assert_eq!(Perbill::from_millionths(10_000), Perbill(10_000_000));
    assert_eq!(Perbill::from_millionths(0), Perbill(0));
    assert_eq!(Perbill::from_millionths(1), Perbill(1_000));
    assert_eq!(Perbill::from_millionths(1_000_000), Perbill(1_000_000_000));
    assert_eq!(Perbill::from_millionths(1_000_001), Perbill(1_000_000_000));
    assert_eq!(Perbill::from_millionths(u32::MAX), Perbill(1_000_000_000));
}

#[test]
fn validation_bounds_keep_their_arguments() {
    assert_eq!(
        new_validation(10, 90),
        InputValidationLengthConstraint { min: 10, max_min_diff: 90 }
    );
    assert_eq!(new_validation(0, 0), InputValidationLengthConstraint { min: 0, max_min_diff: 0 });
    assert_eq!(
        new_validation(u16::MAX, 7),
        InputValidationLengthConstraint { min: u16::MAX, max_min_diff: 7 }
    );
}

#[test]
fn session_keys_keep_their_arguments() {
    let keys = session_keys(GrandpaId([1; 32]), BabeId([2; 32]), ImOnlineId([3; 32]));
    assert_eq!(
        keys,
        SessionKeys {
            grandpa: GrandpaId([1; 32]),
            babe: BabeId([2; 32]),
            im_online: ImOnlineId([3; 32])
        }
    );
}

#[test]
fn balances_list_endowments_then_stashes() {
    let config = balances_config(&vec![account(1), account(2)], &vec![authority(10), authority(20)]);
    assert_eq!(
        config.balances,
        vec![
            (account(1), ENDOWMENT),
            (account(2), ENDOWMENT),
            (account(10), STASH),
            (account(20), STASH)
        ]
    );
    assert!(config.vesting.is_empty());
}

#[test]
fn balances_name_the_endowed_and_the_stashes_and_no_one_else() {
    let endowed = vec![account(1), account(2), account(10)];
    let authorities = vec![authority(10), authority(20)];
    let config = balances_config(&endowed, &authorities);
    let mut named: Vec<AccountId> = config.balances.iter().map(|c| c.0).collect();
    named.sort_by_key(|a| a.0);
    named.dedup();
    assert_eq!(named, vec![account(1), account(2), account(10), account(20)]);
}

#[test]
fn account_in_both_lists_is_credited_with_the_sum() {
    let endowed = vec![account(1), account(10)];
    let authorities = vec![authority(10), authority(20)];
    let config = balances_config(&endowed, &authorities);
    assert_eq!(config.balances.len(), 4);
    assert_eq!(credited(&config.balances, &account(10)), ENDOWMENT + STASH);
    assert_eq!(credited(&config.balances, &account(10)), 10_000_005_000);
    assert_eq!(credited(&config.balances, &account(1)), ENDOWMENT);
    assert_eq!(credited(&config.balances, &account(20)), STASH);
    assert_eq!(credited(&config.balances, &account(11)), 0);
}

#[test]
fn account_endowed_twice_is_credited_twice() {
    let endowed = vec![account(1), account(1)];
    let authorities = vec![authority(1)];
    let config = balances_config(&endowed, &authorities);
    assert_eq!(credited(&config.balances, &account(1)), 2 * ENDOWMENT + STASH);
}

#[test]
fn balances_of_nothing_are_empty() {
    let config = balances_config(&vec![], &vec![]);
    assert!(config.balances.is_empty());
    assert!(config.vesting.is_empty());
}

#[test]
fn staking_makes_every_authority_a_validator() {
    let config = staking_config(&vec![authority(10), authority(20)]);
    assert_eq!(
        config.stakers,
        vec![
            (account(10), account(11), STASH, StakerStatus::Validator),
            (account(20), account(21), STASH, StakerStatus::Validator)
        ]
    );
    assert_eq!(config.invulnerables, vec![account(11), account(21)]);
    assert_eq!(config.current_era, 0);
    assert_eq!(config.validator_count, 20);
    assert_eq!(config.minimum_validator_count, 1);
    assert_eq!(config.force_era, Forcing::NotForcing);
    assert_eq!(config.slash_reward_fraction, Perbill(10_000_000));
}

#[test]
fn session_holds_one_entry_per_authority_in_order() {
    let authorities = vec![authority(30), authority(10), authority(20)];
    let config = session_config(&authorities);
    assert_eq!(config.keys.len(), authorities.len());
    for (entry, a) in config.keys.iter().zip(authorities.iter()) {
        assert_eq!(entry.0, a.0);
        assert_eq!(entry.1.grandpa, a.2);
        assert_eq!(entry.1.babe, a.3);
        assert_eq!(entry.1.im_online, a.4);
    }
}

#[test]
fn no_authorities_give_empty_staking_and_session() {
    let genesis = testnet_genesis(vec![], account(1), vec![account(1)], vec![], vec![]);
    let staking = genesis.staking.unwrap();
    assert!(staking.stakers.is_empty());
    assert!(staking.invulnerables.is_empty());
    assert_eq!(staking.validator_count, 20);
    assert_eq!(staking.minimum_validator_count, 1);
    assert!(genesis.session.unwrap().keys.is_empty());
    assert_eq!(genesis.balances.unwrap().balances, vec![(account(1), ENDOWMENT)]);
}

#[test]
fn genesis_follows_its_inputs() {
    let authorities = vec![authority(10), authority(20)];
    let endowed = vec![account(1), account(10)];
    let genesis =
        testnet_genesis(authorities.clone(), account(7), endowed.clone(), vec![1, 2], vec![3, 4, 5]);
    let system = genesis.system.unwrap();
    assert_eq!(system.code, vec![1, 2]);
    assert_eq!(system.changes_trie_config, None);
    assert_eq!(genesis.indices.unwrap().ids, endowed);
    assert_eq!(genesis.balances.unwrap(), balances_config(&endowed, &authorities));
    assert_eq!(genesis.sudo, Some(SudoConfig { key: account(7) }));
    assert_eq!(genesis.session.unwrap(), session_config(&authorities));
    assert_eq!(genesis.staking.unwrap(), staking_config(&authorities));
    assert_eq!(genesis.query.unwrap().runtime, vec![3, 4, 5]);
    assert_eq!(genesis.forum.unwrap().forum_sudo, account(7));
}

#[test]
fn genesis_holds_the_fixed_parameters() {
    let genesis = testnet_genesis(vec![authority(10)], account(7), vec![], vec![], vec![]);
    assert!(genesis.babe.unwrap().authorities.is_empty());
    assert!(genesis.grandpa.unwrap().authorities.is_empty());
    assert!(genesis.im_online.unwrap().keys.is_empty());
    assert!(genesis.authority_discovery.unwrap().keys.is_empty());
    assert_eq!(
        genesis.actors,
        Some(ActorsConfig { enable_storage_role: true, request_life_time: 300 })
    );
    let council = genesis.council.unwrap();
    assert!(council.active_council.is_empty());
    assert_eq!(council.term_ends_at, 1);
    assert_eq!(
        genesis.data_object_type_registry,
        Some(DataObjectTypeRegistryConfig { first_data_object_type_id: 1 })
    );
    assert_eq!(
        genesis.data_object_storage_registry,
        Some(DataObjectStorageRegistryConfig { first_relationship_id: 1 })
    );
    assert_eq!(genesis.downloads, Some(DownloadSessionsConfig { first_download_session_id: 1 }));
    assert_eq!(
        genesis.election,
        Some(CouncilElectionConfig {
            auto_start: true,
            announcing_period: 43_200,
            voting_period: 14_400,
            revealing_period: 14_400,
            council_size: 12,
            candidacy_limit: 25,
            min_council_stake: 1_000,
            new_term_duration: 201_600,
            min_voting_stake: 100,
        })
    );
    let members = genesis.members.unwrap();
    assert_eq!(members.default_paid_membership_fee, 100);
    assert_eq!(members.first_member_id, 1);
    assert!(members.members.is_empty());
    assert_eq!(
        genesis.proposals,
        Some(ProposalsConfig {
            approval_quorum: 66,
            min_stake: 200,
            cancellation_fee: 10,
            rejection_fee: 100,
            voting_period: 28_800,
            name_max_len: 512,
            description_max_len: 10_000,
            wasm_code_max_len: 2_000_000,
        })
    );
}

#[test]
fn genesis_forum_is_empty_with_its_text_bounds() {
    let genesis = testnet_genesis(vec![], account(7), vec![], vec![], vec![]);
    let forum = genesis.forum.unwrap();
    assert!(forum.category_by_id.is_empty());
    assert!(forum.thread_by_id.is_empty());
    assert!(forum.post_by_id.is_empty());
    assert_eq!(forum.next_category_id, 1);
    assert_eq!(forum.next_thread_id, 1);
    assert_eq!(forum.next_post_id, 1);
    assert_eq!(forum.forum_sudo, account(7));
    assert_eq!(forum.category_title_constraint, new_validation(10, 90));
    assert_eq!(forum.category_description_constraint, new_validation(10, 490));
    assert_eq!(forum.thread_title_constraint, new_validation(10, 90));
    assert_eq!(forum.post_text_constraint, new_validation(10, 990));
    assert_eq!(forum.thread_moderation_rationale_constraint, new_validation(10, 290));
    assert_eq!(forum.post_moderation_rationale_constraint, new_validation(10, 290));
}
