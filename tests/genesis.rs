use polkadot_test_service::accounts::testnet_accounts;
use polkadot_test_service::authorities::{get_authority_keys_from_seed, get_authority_set_from_seeds, AuthorityKeys};
use polkadot_test_service::chainspec::{
    polkadot_local_testnet_config, polkadot_local_testnet_genesis, testnet_genesis_from_seeds, ChainType,
    GenesisSource,
};
use polkadot_test_service::config::{ENDOWMENT, STASH};
use polkadot_test_service::genesis::{
    assemble_genesis, check_authorities, polkadot_testnet_genesis, Forcing, GenesisError, Perbill, StakerStatus,
};
use polkadot_test_service::keys::{
    get_account_id_from_seed, get_babe_key_from_seed, get_grandpa_key_from_seed, get_validator_key_from_seed,
    same_account, AccountId,
};

fn hex32(s: &str) -> [u8; 32] {
    let b = s.as_bytes();
    let mut out = [0u8; 32];
    for i in 0..32 {
        let d = |c: u8| (c as char).to_digit(16).unwrap() as u8;
        out[i] = d(b[2 * i]) * 16 + d(b[2 * i + 1]);
    }
    out
}

fn seeds(names: &[&str]) -> Vec<String> {
    names.iter().map(|s| s.to_string()).collect()
}

fn account(seed: &str) -> AccountId {
    get_account_id_from_seed(seed).unwrap()
}

#[test]
fn alice_keys_are_the_well_known_ones() {
    let alice = account("Alice");
    assert_eq!(alice.bytes, hex32("d43593c715fdd31c61141abd04a99fd6822c8558854ccde39a5684e7a56da27d"));
    let grandpa = get_grandpa_key_from_seed("Alice").unwrap();
    assert_eq!(grandpa.bytes, hex32("88dc3417d5058ec4b4503e0c12ea1a0a89be200fe98922423d4334014fa6b0ee"));
    let stash = account("Alice//stash");
    assert_eq!(stash.bytes, hex32("be5ddb1579b72e84524fc29e78609e3caf42e85aa118ebfe0b0ad404b5bdd25f"));
    let bob = account("Bob");
    assert_eq!(bob.bytes, hex32("8eaf04151687736326c9fea17e25fc5287613693c912909cb226aa4794f26a48"));
}

#[test]
fn derivation_is_deterministic() {
    assert_eq!(get_authority_keys_from_seed("Charlie"), get_authority_keys_from_seed("Charlie"));
    assert_eq!(account("Dave"), account("Dave"));
    assert_eq!(get_grandpa_key_from_seed("Eve"), get_grandpa_key_from_seed("Eve"));
}

#[test]
fn authority_keys_combine_stash_and_bare_seed() {
    let k = get_authority_keys_from_seed("Alice").unwrap();
    assert_eq!(k.stash, account("Alice//stash"));
    assert_eq!(k.controller, account("Alice"));
    assert_eq!(k.babe, get_babe_key_from_seed("Alice").unwrap());
    assert_eq!(k.grandpa, get_grandpa_key_from_seed("Alice").unwrap());
    assert_eq!(k.parachain_validator, get_validator_key_from_seed("Alice").unwrap());
    assert_eq!(k.babe.bytes, k.controller.bytes);
    assert_ne!(k.grandpa.bytes, k.controller.bytes);
    assert_ne!(k.stash, k.controller);
}

#[test]
fn soft_junction_is_not_an_ed25519_seed() {
    assert!(get_account_id_from_seed("Alice/soft").is_some());
    assert!(get_grandpa_key_from_seed("Alice/soft").is_none());
    assert!(get_authority_keys_from_seed("Alice/soft").is_none());
    assert_eq!(get_authority_set_from_seeds(&seeds(&["Alice", "Alice/soft"])), None);
}

#[test]
fn two_authorities_are_distinct() {
    let set = get_authority_set_from_seeds(&seeds(&["Alice", "Bob"])).unwrap();
    assert_eq!(set.len(), 2);
    assert_ne!(set[0].stash, set[1].stash);
    assert_ne!(set[0].controller, set[1].controller);
    assert_eq!(set[0], get_authority_keys_from_seed("Alice").unwrap());
    assert_eq!(set[1], get_authority_keys_from_seed("Bob").unwrap());
}

#[test]
fn registry_has_twelve_accounts_in_order() {
    let accounts = testnet_accounts().unwrap();
    let names = [
        "Alice", "Bob", "Charlie", "Dave", "Eve", "Ferdie", "Alice//stash", "Bob//stash", "Charlie//stash",
        "Dave//stash", "Eve//stash", "Ferdie//stash",
    ];
    assert_eq!(accounts.len(), 12);
    for (a, n) in accounts.iter().zip(names.iter()) {
        assert_eq!(*a, account(n));
    }
    for i in 0..12 {
        for j in 0..12 {
            assert_eq!(accounts[i] == accounts[j], i == j);
        }
    }
}

fn authorities(names: &[&str]) -> Vec<AuthorityKeys> {
    get_authority_set_from_seeds(&seeds(names)).unwrap()
}

#[test]
fn invulnerables_are_the_stashes() {
    for names in [&[][..], &["Alice"][..], &["Alice", "Bob", "Charlie"][..]] {
        let auths = authorities(names);
        let g = assemble_genesis(&auths, &vec![], vec![]);
        let stashes: Vec<AccountId> = auths.iter().map(|a| a.stash).collect();
        assert_eq!(g.staking.invulnerables, stashes);
    }
}

#[test]
fn endowment_covers_every_stash_deposit() {
    let g = polkadot_local_testnet_genesis(vec![1, 2, 3]).unwrap();
    assert!(ENDOWMENT >= STASH);
    for s in &g.staking.stakers {
        let entries: Vec<_> = g.balances.balances.iter().filter(|b| b.account == s.stash).collect();
        assert_eq!(entries.len(), 1);
        assert!(entries[0].balance >= s.amount);
        assert_eq!(s.amount, 100_000_000_000_000);
    }
}

#[test]
fn building_twice_gives_the_same_descriptor() {
    let a = polkadot_local_testnet_config(vec![7, 7]);
    let b = polkadot_local_testnet_config(vec![7, 7]);
    let ga = a.build_genesis().unwrap();
    let gb = b.build_genesis().unwrap();
    assert_eq!(ga, gb);
    assert_eq!(ga, a.build_genesis().unwrap());
}

#[test]
fn local_testnet_default_path() {
    let spec = polkadot_local_testnet_config(vec![0xde, 0xad]);
    assert_eq!(spec.name, "Local Testnet");
    assert_eq!(spec.id, "local_testnet");
    assert_eq!(spec.chain_type, ChainType::Local);
    assert_eq!(spec.protocol_id.as_deref(), Some("dot"));
    assert!(spec.boot_nodes.is_empty());
    assert!(spec.telemetry_endpoints.is_none());
    assert!(spec.properties.is_none());
    assert_eq!(spec.genesis.authority_seeds, vec!["Alice".to_string(), "Bob".to_string()]);
    let g = spec.build_genesis().unwrap();
    let auths = authorities(&["Alice", "Bob"]);
    assert_eq!(g.system.code, vec![0xde, 0xad]);
    assert_eq!(g.staking.stakers.len(), 2);
    assert_eq!(g.staking.stakers[0].stash, auths[0].stash);
    assert_eq!(g.staking.stakers[1].controller, auths[1].controller);
    assert_eq!(g.staking.stakers[0].status, StakerStatus::Validator);
    assert_eq!(g.staking.validator_count, 2);
    assert_eq!(g.staking.minimum_validator_count, 1);
    assert_eq!(g.staking.slash_reward_fraction, Perbill { parts: 100_000_000 });
    assert_eq!(g.staking.force_era, Forcing::NotForcing);
    let registry = testnet_accounts().unwrap();
    assert_eq!(g.balances.balances.len(), 12);
    for (b, a) in g.balances.balances.iter().zip(registry.iter()) {
        assert_eq!(b.account, *a);
        assert_eq!(b.balance, 1_000_000_000_000_000_000);
    }
    assert_eq!(g.session.keys.len(), 2);
    assert_eq!(g.session.keys[1].validator, auths[1].stash);
    assert_eq!(g.session.keys[1].controller, auths[1].stash);
    assert_eq!(g.session.keys[1].keys.grandpa, auths[1].grandpa);
    assert!(g.indices.indices.is_empty());
    assert!(g.authority_discovery.keys.is_empty());
    assert!(g.parachains.authorities.is_empty());
    assert!(g.registrar.parachains.is_empty());
    assert!(g.claims.claims.is_empty() && g.claims.vesting.is_empty());
    assert!(g.vesting.vesting.is_empty());
    assert!(g.babe.authorities.is_empty() && g.grandpa.authorities.is_empty());
}

#[test]
fn explicit_endowed_accounts_replace_the_registry() {
    let auths = authorities(&["Alice"]);
    let endowed = vec![account("Ferdie")];
    let g = polkadot_testnet_genesis(&auths, Some(endowed.clone()), vec![]).unwrap();
    assert_eq!(g.balances.balances.len(), 1);
    assert_eq!(g.balances.balances[0].account, endowed[0]);
    assert_eq!(g.balances.balances[0].balance, ENDOWMENT);
    let g = testnet_genesis_from_seeds(&seeds(&["Alice"]), Some(vec![]), vec![]).unwrap();
    assert!(g.balances.balances.is_empty());
    assert_eq!(g.staking.stakers.len(), 1);
}

#[test]
fn each_error_has_its_input() {
    assert_eq!(testnet_genesis_from_seeds(&seeds(&[]), None, vec![]), Err(GenesisError::TooFewAuthorities));
    assert_eq!(
        testnet_genesis_from_seeds(&seeds(&["Alice", "Bob", "Alice"]), None, vec![]),
        Err(GenesisError::DuplicateStash)
    );
    assert_eq!(testnet_genesis_from_seeds(&seeds(&["Bob/x"]), None, vec![]), Err(GenesisError::InvalidSeed));
    assert_eq!(check_authorities(&authorities(&["Alice", "Bob"])), Ok(()));
    assert_eq!(check_authorities(&vec![]), Err(GenesisError::TooFewAuthorities));
    let spec = polkadot_local_testnet_config(vec![]);
    let bad = GenesisSource { authority_seeds: seeds(&["Eve", "Eve"]), endowed_accounts: None, code: vec![] };
    let spec = polkadot_test_service::chainspec::ChainSpec { genesis: bad, ..spec };
    assert_eq!(spec.build_genesis(), Err(GenesisError::DuplicateStash));
}

#[test]
fn same_account_compares_bytes() {
    let a = account("Alice");
    let b = account("Bob");
    assert!(same_account(&a, &a));
    assert!(!same_account(&a, &b));
}

#[test]
fn perbill_from_percent_saturates() {
    assert_eq!(Perbill::from_percent(10).parts, 100_000_000);
    assert_eq!(Perbill::from_percent(100).parts, 1_000_000_000);
    assert_eq!(Perbill::from_percent(250).parts, 1_000_000_000);
    assert_eq!(Perbill::from_percent(0).parts, 0);
}
