use chain_spec::economics::{ENDOWMENT, STASH};
use chain_spec::error::ChainSpecError;
use chain_spec::keys::{get_authority_keys_from_seed, get_from_seed, AccountId};
use chain_spec::preset::{
    accounts_from_seeds, authorities_from_seeds, blob_or_empty, load_spec, Alternative,
};

fn credited_to(balances: &[(AccountId, u128)], who: &AccountId) -> u128 {
    let mut sum = 0u128;
    for (account, amount) in balances.iter() {
        if account == who {
            sum += *amount;
        }
    }
    sum
}

#[test]
fn dev_is_the_development_chain() {
    assert_eq!(Alternative::from("dev"), Some(Alternative::Development));
}

#[test]
fn empty_and_local_are_the_local_testnet() {
    assert_eq!(Alternative::from(""), Some(Alternative::LocalTestnet));
    assert_eq!(Alternative::from("local"), Some(Alternative::LocalTestnet));
}

#[test]
fn other_names_are_no_topology() {
    for name in ["mainnet", "Dev", "DEV", "dev ", " dev", "local_testnet", "development", "loca", "locals", " "] {
        assert_eq!(Alternative::from(name), None);
    }
}

#[test]
fn unknown_topology_is_an_error() {
    assert_eq!(load_spec("mainnet"), Err(ChainSpecError::UnknownTopology));
    assert_eq!(load_spec("staging"), Err(ChainSpecError::UnknownTopology));
}

#[test]
fn known_topologies_load() {
    let dev = load_spec("dev").unwrap();
    assert_eq!(dev.preset, Alternative::Development);
    assert_eq!(dev.name, "Development");
    assert_eq!(dev.id, "dev");
    let local = load_spec("local").unwrap();
    assert_eq!(local.preset, Alternative::LocalTestnet);
    assert_eq!(local.name, "Local Testnet");
    assert_eq!(local.id, "local_testnet");
    assert_eq!(load_spec("").unwrap(), local);
}

#[test]
fn loaded_spec_sets_nothing_else() {
    for preset in [Alternative::Development, Alternative::LocalTestnet] {
        let spec = preset.load().unwrap();
        assert_eq!(spec.preset, preset);
        assert!(spec.boot_nodes.is_empty());
        assert_eq!(spec.telemetry_endpoints, None);
        assert_eq!(spec.protocol_id, None);
        assert_eq!(spec.consensus_engine, None);
        assert_eq!(spec.properties, None);
    }
}

#[test]
fn seeds_of_the_development_chain() {
    let dev = Alternative::Development;
    assert_eq!(dev.authority_seeds(), vec!["Alice"]);
    assert_eq!(dev.root_seed(), "Alice");
    assert_eq!(dev.endowed_seeds(), vec!["Alice", "Bob", "Alice//stash", "Bob//stash"]);
}

#[test]
fn seeds_of_the_local_testnet() {
    let local = Alternative::LocalTestnet;
    assert_eq!(local.authority_seeds(), vec!["Alice", "Bob"]);
    assert_eq!(local.root_seed(), "Alice");
    assert_eq!(
        local.endowed_seeds(),
        vec![
            "Alice",
            "Bob",
            "Charlie",
            "Dave",
            "Eve",
            "Ferdie",
            "Alice//stash",
            "Bob//stash",
            "Charlie//stash",
            "Dave//stash",
            "Eve//stash",
            "Ferdie//stash"
        ]
    );
}

#[test]
fn accounts_from_seeds_keeps_the_order() {
    let accounts = accounts_from_seeds(&vec!["Bob", "Alice", "Bob"]).unwrap();
    assert_eq!(
        accounts,
        vec![
            get_from_seed::<AccountId>("Bob").unwrap(),
            get_from_seed::<AccountId>("Alice").unwrap(),
            get_from_seed::<AccountId>("Bob").unwrap()
        ]
    );
    assert_eq!(accounts_from_seeds(&vec![]), Ok(vec![]));
}

#[test]
fn accounts_from_seeds_fails_on_a_bad_seed() {
    assert_eq!(
        accounts_from_seeds(&vec!["Alice", "", "Bob"]),
        Err(ChainSpecError::KeyDerivationFailure)
    );
}

#[test]
fn authorities_from_seeds_keeps_the_order() {
    let authorities = authorities_from_seeds(&vec!["Alice", "Bob"]).unwrap();
    assert_eq!(
        authorities,
        vec![
            get_authority_keys_from_seed("Alice").unwrap(),
            get_authority_keys_from_seed("Bob").unwrap()
        ]
    );
    assert_eq!(authorities_from_seeds(&vec![]), Ok(vec![]));
}

#[test]
fn authorities_from_seeds_fails_on_a_bad_seed() {
    assert_eq!(
        authorities_from_seeds(&vec!["Alice", "Bob/soft"]),
        Err(ChainSpecError::KeyDerivationFailure)
    );
}

#[test]
fn development_has_alice_as_its_one_authority() {
    let genesis = Alternative::Development.genesis(vec![1, 2, 3], vec![]).unwrap();
    let alice = get_authority_keys_from_seed("Alice").unwrap();
    let staking = genesis.staking.unwrap();
    assert_eq!(staking.stakers.len(), 1);
    assert_eq!(staking.stakers[0].0, alice.0);
    assert_eq!(staking.stakers[0].1, alice.1);
    assert_eq!(staking.invulnerables, vec![alice.1]);
    let session = genesis.session.unwrap();
    assert_eq!(session.keys.len(), 1);
    assert_eq!(session.keys[0].0, alice.0);
    assert_eq!(session.keys[0].1.grandpa, alice.2);
    assert_eq!(session.keys[0].1.babe, alice.3);
    assert_eq!(session.keys[0].1.im_online, alice.4);
    assert_eq!(genesis.system.unwrap().code, vec![1, 2, 3]);
    assert_eq!(genesis.sudo.unwrap().key, get_from_seed::<AccountId>("Alice").unwrap());
}

#[test]
fn local_testnet_has_alice_and_bob_as_authorities() {
    let genesis = Alternative::LocalTestnet.genesis(vec![], vec![9]).unwrap();
    let alice = get_authority_keys_from_seed("Alice").unwrap();
    let bob = get_authority_keys_from_seed("Bob").unwrap();
    let staking = genesis.staking.unwrap();
    assert_eq!(staking.stakers.len(), 2);
    assert_eq!(staking.stakers[0].0, alice.0);
    assert_eq!(staking.stakers[1].0, bob.0);
    assert_eq!(staking.invulnerables, vec![alice.1, bob.1]);
    let session = genesis.session.unwrap();
    assert_eq!(session.keys.len(), 2);
    assert_eq!(session.keys[0].1.grandpa, alice.2);
    assert_eq!(session.keys[1].1.grandpa, bob.2);
    assert_eq!(genesis.query.unwrap().runtime, vec![9]);
    assert_eq!(genesis.sudo.unwrap().key, get_from_seed::<AccountId>("Alice").unwrap());
}

#[test]
fn local_testnet_endows_twelve_distinct_accounts() {
    let genesis = Alternative::LocalTestnet.genesis(vec![], vec![]).unwrap();
    let ids = genesis.indices.unwrap().ids;
    assert_eq!(ids.len(), 12);
    for i in 0..ids.len() {
        for j in 0..i {
            assert_ne!(ids[i], ids[j]);
        }
    }
    let names = ["Alice", "Bob", "Charlie", "Dave", "Eve", "Ferdie"];
    for (i, name) in names.iter().enumerate() {
        assert_eq!(ids[i], get_from_seed::<AccountId>(name).unwrap());
        assert_eq!(ids[6 + i], get_authority_keys_from_seed(name).unwrap().0);
    }
}

#[test]
fn development_endows_four_distinct_accounts() {
    let genesis = Alternative::Development.genesis(vec![], vec![]).unwrap();
    let ids = genesis.indices.unwrap().ids;
    assert_eq!(
        ids,
        vec![
            get_from_seed::<AccountId>("Alice").unwrap(),
            get_from_seed::<AccountId>("Bob").unwrap(),
            get_from_seed::<AccountId>("Alice//stash").unwrap(),
            get_from_seed::<AccountId>("Bob//stash").unwrap()
        ]
    );
    for i in 0..ids.len() {
        for j in 0..i {
            assert_ne!(ids[i], ids[j]);
        }
    }
}

#[test]
fn development_credits_the_stash_of_alice_with_both_amounts() {
    let genesis = Alternative::Development.genesis(vec![], vec![]).unwrap();
    let balances = genesis.balances.unwrap().balances;
    assert_eq!(balances.len(), 5);
    let alice = get_from_seed::<AccountId>("Alice").unwrap();
    let alice_stash = get_from_seed::<AccountId>("Alice//stash").unwrap();
    let bob_stash = get_from_seed::<AccountId>("Bob//stash").unwrap();
    assert_eq!(credited_to(&balances, &alice_stash), ENDOWMENT + STASH);
    assert_eq!(credited_to(&balances, &alice_stash), 10_000_005_000);
    assert_eq!(credited_to(&balances, &alice), ENDOWMENT);
    assert_eq!(credited_to(&balances, &bob_stash), ENDOWMENT);
}

#[test]
fn local_testnet_credits_both_authority_stashes_with_both_amounts() {
    let genesis = Alternative::LocalTestnet.genesis(vec![], vec![]).unwrap();
    let balances = genesis.balances.unwrap().balances;
    assert_eq!(balances.len(), 14);
    for name in ["Alice", "Bob"] {
        let stash = get_authority_keys_from_seed(name).unwrap().0;
        assert_eq!(credited_to(&balances, &stash), ENDOWMENT + STASH);
    }
    for name in ["Charlie", "Dave", "Eve", "Ferdie"] {
        let stash = get_authority_keys_from_seed(name).unwrap().0;
        assert_eq!(credited_to(&balances, &stash), ENDOWMENT);
    }
}

#[test]
fn genesis_of_a_preset_is_repeatable() {
    let first = Alternative::LocalTestnet.genesis(vec![1], vec![2]).unwrap();
    let second = Alternative::LocalTestnet.genesis(vec![1], vec![2]).unwrap();
    assert_eq!(first, second);
    let dev = Alternative::Development.genesis(vec![1], vec![2]).unwrap();
    assert_ne!(first, dev);
}

#[test]
fn missing_blob_is_empty() {
    assert_eq!(blob_or_empty(None), Vec::<u8>::new());
    assert_eq!(blob_or_empty(None).len(), 0);
}

#[test]
fn present_blob_is_kept_as_read() {
    assert_eq!(blob_or_empty(Some(vec![0, 97, 115, 109])), vec![0, 97, 115, 109]);
    assert_eq!(blob_or_empty(Some(vec![])), Vec::<u8>::new());
}
