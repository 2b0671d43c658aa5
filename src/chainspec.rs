use vstd::prelude::*;
use vstd::string::*;
use crate::config::DEFAULT_PROTOCOL_ID;
use crate::keys::{AccountId, account_id_from_seed, stash_seed};
use crate::authorities::{
    authority_keys_from_seed, authority_set_from_seeds, get_authority_set_from_seeds,
    string_views,
};
use crate::config::testnet_names;
use crate::accounts::{testnet_account_seeds, testnet_accounts_spec};
use crate::genesis::{
    GenesisConfig, GenesisError, GenesisView, authority_check, check_authorities,
    opt_accounts_view, polkadot_testnet_genesis, testnet_genesis, testnet_genesis_with_default,
};

verus! {

/// Classification of a network instance.
#[derive(Clone, Copy, Debug, PartialEq, Eq)]
pub enum ChainType {
    Development,
    Local,
    Live,
}

/// Node-side extensions of a chain spec: blocks to force as forks and
/// blocks to reject.
#[derive(Clone, Debug, PartialEq, Eq)]
pub struct Extensions {
    pub fork_blocks: Option<Vec<(u32, [u8; 32])>>,
    pub bad_blocks: Option<Vec<[u8; 32]>>,
}

impl Default for Extensions {
    fn default() -> (r: Extensions)
        ensures
            r.fork_blocks is None,
            r.bad_blocks is None,
    {
        Extensions { fork_blocks: None, bad_blocks: None }
    }
}

/// What the genesis of a chain spec is built from: authority seeds, the
/// endowed accounts (the account registry where `None`), and runtime code.
#[derive(Clone, Debug, PartialEq, Eq)]
pub struct GenesisSource {
    pub authority_seeds: Vec<String>,
    pub endowed_accounts: Option<Vec<AccountId>>,
    pub code: Vec<u8>,
}

/// Genesis of a list of authority seeds: the authorities are derived, then
/// checked, then assembled with the endowed accounts.
pub open spec fn genesis_from_seeds(
    seeds: Seq<Seq<char>>,
    endowed: Option<Seq<AccountId>>,
    code: Seq<u8>,
) -> Result<GenesisView, GenesisError> {
    match authority_set_from_seeds(seeds) {
        None => Err(GenesisError::InvalidSeed),
        Some(authorities) => match authority_check(authorities) {
            Err(e) => Err(e),
            Ok(_) => match testnet_genesis_with_default(authorities, endowed, code) {
                Some(g) => Ok(g),
                None => Err(GenesisError::InvalidSeed),
            },
        },
    }
}

/// The view of a genesis result.
pub open spec fn genesis_result_view(r: Result<GenesisConfig, GenesisError>) -> Result<GenesisView, GenesisError> {
    match r {
        Ok(g) => Ok(g@),
        Err(e) => Err(e),
    }
}

impl GenesisSource {
    /// The genesis this source builds.
    pub open spec fn genesis_spec(&self) -> Result<GenesisView, GenesisError> {
        genesis_from_seeds(string_views(self.authority_seeds@), opt_accounts_view(self.endowed_accounts), self.code@)
    }
}

/// Builds the genesis of a list of authority seeds. Fails with
/// `InvalidSeed` where a seed does not derive, `TooFewAuthorities` or
/// `DuplicateStash` where the authorities cannot start staking.
pub fn testnet_genesis_from_seeds(
    seeds: &Vec<String>,
    endowed_accounts: Option<Vec<AccountId>>,
    code: Vec<u8>,
) -> (r: Result<GenesisConfig, GenesisError>)
    ensures
        genesis_result_view(r) == genesis_from_seeds(string_views(seeds@), opt_accounts_view(endowed_accounts), code@),
{
    let authorities = match get_authority_set_from_seeds(seeds) {
        Some(a) => a,
        None => return Err(GenesisError::InvalidSeed),
    };
    match check_authorities(&authorities) {
        Err(e) => return Err(e),
        Ok(_) => {},
    }
    match polkadot_testnet_genesis(&authorities, endowed_accounts, code) {
        Some(g) => Ok(g),
        None => Err(GenesisError::InvalidSeed),
    }
}

/// A chain spec: network metadata, and what its genesis is built from.
/// The genesis itself is only built when asked for.
pub struct ChainSpec {
    pub name: String,
    pub id: String,
    pub chain_type: ChainType,
    pub boot_nodes: Vec<String>,
    pub telemetry_endpoints: Option<Vec<(String, u8)>>,
    pub protocol_id: Option<String>,
    pub properties: Option<Vec<(String, String)>>,
    pub extensions: Extensions,
    pub genesis: GenesisSource,
}

impl ChainSpec {
    /// A chain spec from its metadata and genesis source.
    pub fn from_genesis(
        name: &str,
        id: &str,
        chain_type: ChainType,
        genesis: GenesisSource,
        boot_nodes: Vec<String>,
        telemetry_endpoints: Option<Vec<(String, u8)>>,
        protocol_id: Option<&str>,
        properties: Option<Vec<(String, String)>>,
        extensions: Extensions,
    ) -> (r: ChainSpec)
        ensures
            r.name@ == name@,
            r.id@ == id@,
            r.chain_type == chain_type,
            r.genesis == genesis,
            r.boot_nodes == boot_nodes,
            r.telemetry_endpoints == telemetry_endpoints,
            r.protocol_id is Some <==> protocol_id is Some,
            protocol_id is Some ==> r.protocol_id->0@ == protocol_id->0@,
            r.properties == properties,
            r.extensions == extensions,
    {
        let protocol_id = match protocol_id {
            Some(p) => Some(String::from_str(p)),
            None => None,
        };
        ChainSpec {
            name: String::from_str(name),
            id: String::from_str(id),
            chain_type,
            boot_nodes,
            telemetry_endpoints,
            protocol_id,
            properties,
            extensions,
            genesis,
        }
    }

    /// Builds the genesis descriptor of this chain spec.
    pub fn build_genesis(&self) -> (r: Result<GenesisConfig, GenesisError>)
        ensures
            genesis_result_view(r) == self.genesis.genesis_spec(),
    {
        let endowed = match &self.genesis.endowed_accounts {
            Some(e) => Some(copy_accounts(e)),
            None => None,
        };
        let code = copy_bytes(&self.genesis.code);
        testnet_genesis_from_seeds(&self.genesis.authority_seeds, endowed, code)
    }
}

/// A copy of an account list.
fn copy_accounts(v: &Vec<AccountId>) -> (r: Vec<AccountId>)
    ensures
        r@ == v@,
{
    let mut r: Vec<AccountId> = Vec::new();
    let mut i: usize = 0;
    while i < v.len()
        invariant
            i <= v.len(),
            r@ =~= v@.take(i as int),
        decreases v.len() - i,
    {
        r.push(v[i]);
        i = i + 1;
        assert(r@ =~= v@.take(i as int));
    }
    assert(v@.take(i as int) =~= v@);
    r
}

/// A copy of a byte list.
fn copy_bytes(v: &Vec<u8>) -> (r: Vec<u8>)
    ensures
        r@ == v@,
{
    let mut r: Vec<u8> = Vec::new();
    let mut i: usize = 0;
    while i < v.len()
        invariant
            i <= v.len(),
            r@ =~= v@.take(i as int),
        decreases v.len() - i,
    {
        r.push(v[i]);
        i = i + 1;
        assert(r@ =~= v@.take(i as int));
    }
    assert(v@.take(i as int) =~= v@);
    r
}

/// The authority seeds of the local test network.
pub open spec fn local_testnet_seeds() -> Seq<Seq<char>> {
    seq!["Alice"@, "Bob"@]
}

/// The authority seeds of the local test network.
fn local_testnet_seed_list() -> (r: Vec<String>)
    ensures
        string_views(r@) == local_testnet_seeds(),
{
    let r = vec![String::from_str("Alice"), String::from_str("Bob")];
    assert(string_views(r@) =~= local_testnet_seeds());
    r
}

/// The genesis of the local test network: authorities Alice and Bob, the
/// account registry endowed.
pub fn polkadot_local_testnet_genesis(code: Vec<u8>) -> (r: Result<GenesisConfig, GenesisError>)
    ensures
        genesis_result_view(r) == genesis_from_seeds(local_testnet_seeds(), None, code@),
{
    let seeds = local_testnet_seed_list();
    testnet_genesis_from_seeds(&seeds, None, code)
}

/// Local testnet chain spec (multivalidator Alice + Bob) over the given
/// runtime code.
pub fn polkadot_local_testnet_config(code: Vec<u8>) -> (r: ChainSpec)
    ensures
        r.name@ == "Local Testnet"@,
        r.id@ == "local_testnet"@,
        r.chain_type == ChainType::Local,
        r.boot_nodes@.len() == 0,
        r.telemetry_endpoints is None,
        r.protocol_id is Some && r.protocol_id->0@ == "dot"@,
        r.properties is None,
        r.extensions.fork_blocks is None,
        r.extensions.bad_blocks is None,
        string_views(r.genesis.authority_seeds@) == local_testnet_seeds(),
        r.genesis.endowed_accounts is None,
        r.genesis.code@ == code@,
        r.genesis.genesis_spec() == genesis_from_seeds(local_testnet_seeds(), None, code@),
{
    let genesis = GenesisSource { authority_seeds: local_testnet_seed_list(), endowed_accounts: None, code };
    ChainSpec::from_genesis(
        "Local Testnet",
        "local_testnet",
        ChainType::Local,
        genesis,
        Vec::new(),
        None,
        Some(DEFAULT_PROTOCOL_ID),
        None,
        Extensions::default(),
    )
}

/// Building the genesis is a function of its inputs: two builds from equal
/// seeds, endowed accounts and code give the same descriptor or the same
/// error.
pub proof fn lemma_genesis_idempotent(
    seeds: Seq<Seq<char>>,
    endowed: Option<Seq<AccountId>>,
    code: Seq<u8>,
    r1: Result<GenesisConfig, GenesisError>,
    r2: Result<GenesisConfig, GenesisError>,
)
    requires
        genesis_result_view(r1) == genesis_from_seeds(seeds, endowed, code),
        genesis_result_view(r2) == genesis_from_seeds(seeds, endowed, code),
    ensures
        genesis_result_view(r1) == genesis_result_view(r2),
{
}

/// Two chain specs whose genesis sources hold the same seeds, endowed
/// accounts and code build the same genesis.
pub proof fn lemma_chain_spec_genesis_idempotent(a: GenesisSource, b: GenesisSource)
    requires
        string_views(a.authority_seeds@) == string_views(b.authority_seeds@),
        opt_accounts_view(a.endowed_accounts) == opt_accounts_view(b.endowed_accounts),
        a.code@ == b.code@,
    ensures
        a.genesis_spec() == b.genesis_spec(),
{
}

/// In the local test network every staker's stash is in the account
/// registry, endowed with at least its bonded amount, and the validator
/// count equals the number of authorities.
pub proof fn lemma_local_testnet_stashes_endowed(code: Seq<u8>)
    ensures
        genesis_from_seeds(local_testnet_seeds(), None, code) matches Ok(g) ==> {
            &&& g.validator_count == g.stakers.len()
            &&& g.minimum_validator_count <= g.validator_count
            &&& forall|i: int|
                0 <= i < g.stakers.len() ==> exists|j: int|
                    0 <= j < g.balances.len() && (#[trigger] g.balances[j]).account == (#[trigger] g.stakers[i]).stash
                        && g.balances[j].balance >= g.stakers[i].amount
        },
{
    let seeds = local_testnet_seeds();
    if let Ok(g) = genesis_from_seeds(seeds, None, code) {
        let auths = authority_set_from_seeds(seeds)->0;
        let accounts = testnet_accounts_spec()->0;
        let reg = testnet_account_seeds();
        assert(g == testnet_genesis(auths, accounts, code));
        assert(reg[6] == stash_seed(testnet_names()[0]));
        assert(reg[7] == stash_seed(testnet_names()[1]));
        assert(testnet_names()[0] == seeds[0]);
        assert(testnet_names()[1] == seeds[1]);
        assert(auths[0] == authority_keys_from_seed(seeds[0])->0);
        assert(auths[1] == authority_keys_from_seed(seeds[1])->0);
        assert(accounts[6] == account_id_from_seed(reg[6])->0);
        assert(accounts[7] == account_id_from_seed(reg[7])->0);
        assert(g.balances[6].account == g.stakers[0].stash);
        assert(g.balances[7].account == g.stakers[1].stash);
    }
}

} // verus!
