use vstd::prelude::*;
use crate::config::{ENDOWMENT, MINIMUM_VALIDATOR_COUNT, SLASH_REWARD_PERCENT, STASH, VALIDATOR_COUNT};
use crate::keys::{AccountId, AuthorityDiscoveryId, BabeId, GrandpaId, ValidatorId, same_account};
use crate::authorities::AuthorityKeys;
use crate::accounts::{testnet_accounts, testnet_accounts_spec};

verus! {

/// A fraction in parts per billion.
#[derive(Clone, Copy, Debug, PartialEq, Eq)]
pub struct Perbill {
    pub parts: u32,
}

/// Relies on sp_runtime's `Perbill::from_percent` and `Perbill::deconstruct`:
/// `min(x, 100)` percent as parts per billion.
#[verifier::external_body]
fn perbill_parts_from_percent(x: u32) -> (r: u32)
    ensures
        r == (if x <= 100 { x } else { 100 }) * 10_000_000,
{
    sp_runtime::Perbill::from_percent(x).deconstruct()
}

impl Perbill {
    /// `x` percent, saturating at one.
    pub fn from_percent(x: u32) -> (r: Perbill)
        ensures
            r.parts == (if x <= 100 { x } else { 100 }) * 10_000_000,
    {
        Perbill { parts: perbill_parts_from_percent(x) }
    }
}

/// One balance given at genesis.
#[derive(Clone, Copy, Debug, PartialEq, Eq)]
pub struct EndowmentEntry {
    pub account: AccountId,
    pub balance: u128,
}

/// The session keys of one validator.
#[derive(Clone, Copy, Debug, PartialEq, Eq)]
pub struct SessionKeys {
    pub babe: BabeId,
    pub grandpa: GrandpaId,
    pub parachain_validator: ValidatorId,
}

/// The session keys of a validator, under its validator and controller
/// lookup identities.
#[derive(Clone, Copy, Debug, PartialEq, Eq)]
pub struct SessionEntry {
    pub validator: AccountId,
    pub controller: AccountId,
    pub keys: SessionKeys,
}

/// Role of a staker at genesis.
#[derive(Clone, Copy, Debug, PartialEq, Eq)]
pub enum StakerStatus {
    Idle,
    Validator,
}

/// One bonded stash at genesis.
#[derive(Clone, Copy, Debug, PartialEq, Eq)]
pub struct StakerEntry {
    pub stash: AccountId,
    pub controller: AccountId,
    pub amount: u128,
    pub status: StakerStatus,
}

/// Whether era rotation is forced administratively.
#[derive(Clone, Copy, Debug, PartialEq, Eq)]
pub enum Forcing {
    NotForcing,
    ForceNew,
    ForceNone,
    ForceAlways,
}

/// A claim of an Ethereum address on an amount.
#[derive(Clone, Copy, Debug, PartialEq, Eq)]
pub struct Claim {
    pub address: [u8; 20],
    pub amount: u128,
}

/// A vesting schedule on a claim.
#[derive(Clone, Copy, Debug, PartialEq, Eq)]
pub struct ClaimVesting {
    pub address: [u8; 20],
    pub locked: u128,
    pub per_block: u128,
    pub starting_block: u32,
}

/// A vesting schedule on an account.
#[derive(Clone, Copy, Debug, PartialEq, Eq)]
pub struct VestingEntry {
    pub account: AccountId,
    pub begin: u32,
    pub length: u32,
    pub liquid: u128,
}

/// A parachain registered at genesis.
#[derive(Clone, Debug, PartialEq, Eq)]
pub struct ParachainGenesis {
    pub id: u32,
    pub code: Vec<u8>,
    pub head: Vec<u8>,
}

/// The runtime code.
#[derive(Clone, Debug, PartialEq, Eq)]
pub struct SystemConfig {
    pub code: Vec<u8>,
}

/// Preassigned account indices.
#[derive(Clone, Debug, PartialEq, Eq)]
pub struct IndicesConfig {
    pub indices: Vec<(u32, AccountId)>,
}

/// Initial balances.
#[derive(Clone, Debug, PartialEq, Eq)]
pub struct BalancesConfig {
    pub balances: Vec<EndowmentEntry>,
}

/// Initial session keys.
#[derive(Clone, Debug, PartialEq, Eq)]
pub struct SessionConfig {
    pub keys: Vec<SessionEntry>,
}

/// Initial staking state.
#[derive(Clone, Debug, PartialEq, Eq)]
pub struct StakingConfig {
    pub validator_count: u32,
    pub minimum_validator_count: u32,
    pub stakers: Vec<StakerEntry>,
    pub invulnerables: Vec<AccountId>,
    pub force_era: Forcing,
    pub slash_reward_fraction: Perbill,
}

/// Initial block-production authorities.
#[derive(Clone, Debug, PartialEq, Eq)]
pub struct BabeConfig {
    pub authorities: Vec<(BabeId, u64)>,
}

/// Initial finality authorities.
#[derive(Clone, Debug, PartialEq, Eq)]
pub struct GrandpaConfig {
    pub authorities: Vec<(GrandpaId, u64)>,
}

/// Initial authority-discovery keys.
#[derive(Clone, Debug, PartialEq, Eq)]
pub struct AuthorityDiscoveryConfig {
    pub keys: Vec<AuthorityDiscoveryId>,
}

/// Initial parachain validators.
#[derive(Clone, Debug, PartialEq, Eq)]
pub struct ParachainsConfig {
    pub authorities: Vec<ValidatorId>,
}

/// Parachains registered at genesis.
#[derive(Clone, Debug, PartialEq, Eq)]
pub struct RegistrarConfig {
    pub parachains: Vec<ParachainGenesis>,
}

/// Claims of Ethereum addresses.
#[derive(Clone, Debug, PartialEq, Eq)]
pub struct ClaimsConfig {
    pub claims: Vec<Claim>,
    pub vesting: Vec<ClaimVesting>,
}

/// Vesting schedules.
#[derive(Clone, Debug, PartialEq, Eq)]
pub struct VestingConfig {
    pub vesting: Vec<VestingEntry>,
}

/// The initial state of every runtime module.
#[derive(Clone, Debug, PartialEq, Eq)]
pub struct GenesisConfig {
    pub system: SystemConfig,
    pub indices: IndicesConfig,
    pub balances: BalancesConfig,
    pub session: SessionConfig,
    pub staking: StakingConfig,
    pub babe: BabeConfig,
    pub grandpa: GrandpaConfig,
    pub authority_discovery: AuthorityDiscoveryConfig,
    pub parachains: ParachainsConfig,
    pub registrar: RegistrarConfig,
    pub claims: ClaimsConfig,
    pub vesting: VestingConfig,
}

/// The content of a genesis descriptor, with every list as a sequence.
pub struct GenesisView {
    pub code: Seq<u8>,
    pub indices: Seq<(u32, AccountId)>,
    pub balances: Seq<EndowmentEntry>,
    pub session: Seq<SessionEntry>,
    pub validator_count: u32,
    pub minimum_validator_count: u32,
    pub stakers: Seq<StakerEntry>,
    pub invulnerables: Seq<AccountId>,
    pub force_era: Forcing,
    pub slash_reward_fraction: Perbill,
    pub babe_authorities: Seq<(BabeId, u64)>,
    pub grandpa_authorities: Seq<(GrandpaId, u64)>,
    pub authority_discovery_keys: Seq<AuthorityDiscoveryId>,
    pub parachain_authorities: Seq<ValidatorId>,
    pub registrar_parachains: Seq<(u32, Seq<u8>, Seq<u8>)>,
    pub claims: Seq<Claim>,
    pub claims_vesting: Seq<ClaimVesting>,
    pub vesting: Seq<VestingEntry>,
}

impl View for GenesisConfig {
    type V = GenesisView;

    open spec fn view(&self) -> GenesisView {
        GenesisView {
            code: self.system.code@,
            indices: self.indices.indices@,
            balances: self.balances.balances@,
            session: self.session.keys@,
            validator_count: self.staking.validator_count,
            minimum_validator_count: self.staking.minimum_validator_count,
            stakers: self.staking.stakers@,
            invulnerables: self.staking.invulnerables@,
            force_era: self.staking.force_era,
            slash_reward_fraction: self.staking.slash_reward_fraction,
            babe_authorities: self.babe.authorities@,
            grandpa_authorities: self.grandpa.authorities@,
            authority_discovery_keys: self.authority_discovery.keys@,
            parachain_authorities: self.parachains.authorities@,
            registrar_parachains: self.registrar.parachains@.map_values(
                |p: ParachainGenesis| (p.id, p.code@, p.head@),
            ),
            claims: self.claims.claims@,
            claims_vesting: self.claims.vesting@,
            vesting: self.vesting.vesting@,
        }
    }
}

/// Why a genesis descriptor could not be built.
#[derive(Clone, Copy, Debug, PartialEq, Eq)]
pub enum GenesisError {
    /// A seed does not derive a key.
    InvalidSeed,
    /// Fewer authorities than the staking module's minimum.
    TooFewAuthorities,
    /// Two authorities share a stash identity.
    DuplicateStash,
}

/// The balance entry of an endowed account.
pub open spec fn endowment_of(account: AccountId) -> EndowmentEntry {
    EndowmentEntry { account, balance: ENDOWMENT }
}

/// The staker entry of an authority: its stash bonds `STASH` as a validator.
pub open spec fn staker_of(a: AuthorityKeys) -> StakerEntry {
    StakerEntry {
        stash: a.stash,
        controller: a.controller,
        amount: STASH,
        status: StakerStatus::Validator,
    }
}

/// The session entry of an authority, looked up by its stash.
pub open spec fn session_entry_of(a: AuthorityKeys) -> SessionEntry {
    SessionEntry {
        validator: a.stash,
        controller: a.stash,
        keys: SessionKeys { babe: a.babe, grandpa: a.grandpa, parachain_validator: a.parachain_validator },
    }
}

/// The stash column of an authority list.
pub open spec fn stashes_of(authorities: Seq<AuthorityKeys>) -> Seq<AccountId> {
    authorities.map_values(|a: AuthorityKeys| a.stash)
}

/// The test genesis of an authority list, endowed accounts and runtime code.
pub open spec fn testnet_genesis(
    authorities: Seq<AuthorityKeys>,
    endowed: Seq<AccountId>,
    code: Seq<u8>,
) -> GenesisView {
    GenesisView {
        code,
        indices: seq![],
        balances: endowed.map_values(|a: AccountId| endowment_of(a)),
        session: authorities.map_values(|a: AuthorityKeys| session_entry_of(a)),
        validator_count: VALIDATOR_COUNT,
        minimum_validator_count: MINIMUM_VALIDATOR_COUNT,
        stakers: authorities.map_values(|a: AuthorityKeys| staker_of(a)),
        invulnerables: stashes_of(authorities),
        force_era: Forcing::NotForcing,
        slash_reward_fraction: Perbill { parts: 100_000_000 },
        babe_authorities: seq![],
        grandpa_authorities: seq![],
        authority_discovery_keys: seq![],
        parachain_authorities: seq![],
        registrar_parachains: seq![],
        claims: seq![],
        claims_vesting: seq![],
        vesting: seq![],
    }
}

/// The genesis built from the given endowed accounts, or from the account
/// registry where none are given.
pub open spec fn testnet_genesis_with_default(
    authorities: Seq<AuthorityKeys>,
    endowed: Option<Seq<AccountId>>,
    code: Seq<u8>,
) -> Option<GenesisView> {
    match endowed {
        Some(e) => Some(testnet_genesis(authorities, e, code)),
        None => match testnet_accounts_spec() {
            Some(e) => Some(testnet_genesis(authorities, e, code)),
            None => None,
        },
    }
}

/// The view of an optional account list.
pub open spec fn opt_accounts_view(o: Option<Vec<AccountId>>) -> Option<Seq<AccountId>> {
    match o {
        Some(v) => Some(v@),
        None => None,
    }
}

/// Assembles the genesis from its parts, where the endowed accounts are
/// already known.
pub fn assemble_genesis(
    initial_authorities: &Vec<AuthorityKeys>,
    endowed_accounts: &Vec<AccountId>,
    code: Vec<u8>,
) -> (r: GenesisConfig)
    ensures
        r@ == testnet_genesis(initial_authorities@, endowed_accounts@, code@),
{
    let mut balances: Vec<EndowmentEntry> = Vec::new();
    let mut i: usize = 0;
    while i < endowed_accounts.len()
        invariant
            i <= endowed_accounts.len(),
            balances@ =~= endowed_accounts@.take(i as int).map_values(|a: AccountId| endowment_of(a)),
        decreases endowed_accounts.len() - i,
    {
        balances.push(EndowmentEntry { account: endowed_accounts[i], balance: ENDOWMENT });
        i = i + 1;
        assert(balances@ =~= endowed_accounts@.take(i as int).map_values(|a: AccountId| endowment_of(a)));
    }
    assert(endowed_accounts@.take(i as int) =~= endowed_accounts@);

    let auths = initial_authorities;
    let mut session: Vec<SessionEntry> = Vec::new();
    let mut stakers: Vec<StakerEntry> = Vec::new();
    let mut invulnerables: Vec<AccountId> = Vec::new();
    let mut i: usize = 0;
    while i < auths.len()
        invariant
            i <= auths.len(),
            session@ =~= auths@.take(i as int).map_values(|a: AuthorityKeys| session_entry_of(a)),
            stakers@ =~= auths@.take(i as int).map_values(|a: AuthorityKeys| staker_of(a)),
            invulnerables@ =~= stashes_of(auths@.take(i as int)),
        decreases auths.len() - i,
    {
        let x = auths[i];
        session.push(
            SessionEntry {
                validator: x.stash,
                controller: x.stash,
                keys: SessionKeys { babe: x.babe, grandpa: x.grandpa, parachain_validator: x.parachain_validator },
            },
        );
        stakers.push(
            StakerEntry {
                stash: x.stash,
                controller: x.controller,
                amount: STASH,
                status: StakerStatus::Validator,
            },
        );
        invulnerables.push(x.stash);
        i = i + 1;
        assert(session@ =~= auths@.take(i as int).map_values(|a: AuthorityKeys| session_entry_of(a)));
        assert(stakers@ =~= auths@.take(i as int).map_values(|a: AuthorityKeys| staker_of(a)));
        assert(invulnerables@ =~= stashes_of(auths@.take(i as int)));
    }
    assert(auths@.take(i as int) =~= auths@);

    let registrar: Vec<ParachainGenesis> = Vec::new();
    assert(registrar@.map_values(|p: ParachainGenesis| (p.id, p.code@, p.head@)) =~= seq![]);
    GenesisConfig {
        system: SystemConfig { code },
        indices: IndicesConfig { indices: Vec::new() },
        balances: BalancesConfig { balances },
        session: SessionConfig { keys: session },
        staking: StakingConfig {
            minimum_validator_count: MINIMUM_VALIDATOR_COUNT,
            validator_count: VALIDATOR_COUNT,
            stakers,
            invulnerables,
            force_era: Forcing::NotForcing,
            slash_reward_fraction: Perbill::from_percent(SLASH_REWARD_PERCENT),
        },
        babe: BabeConfig { authorities: Vec::new() },
        grandpa: GrandpaConfig { authorities: Vec::new() },
        authority_discovery: AuthorityDiscoveryConfig { keys: Vec::new() },
        parachains: ParachainsConfig { authorities: Vec::new() },
        registrar: RegistrarConfig { parachains: registrar },
        claims: ClaimsConfig { claims: Vec::new(), vesting: Vec::new() },
        vesting: VestingConfig { vesting: Vec::new() },
    }
}

/// The test genesis: every endowed account gets `ENDOWMENT`, every
/// authority bonds `STASH` from its stash as a validator, is exempt from
/// slashing and has its session keys under its stash identity. Without
/// an endowed list, the account registry is endowed; `None` if a registry
/// seed does not derive.
pub fn polkadot_testnet_genesis(
    initial_authorities: &Vec<AuthorityKeys>,
    endowed_accounts: Option<Vec<AccountId>>,
    code: Vec<u8>,
) -> (r: Option<GenesisConfig>)
    ensures
        r is Some <==> testnet_genesis_with_default(initial_authorities@, opt_accounts_view(endowed_accounts), code@) is Some,
        r is Some ==> testnet_genesis_with_default(initial_authorities@, opt_accounts_view(endowed_accounts), code@)
            == Some(r->0@),
{
    let endowed = match endowed_accounts {
        Some(e) => e,
        None => match testnet_accounts() {
            Some(e) => e,
            None => return None,
        },
    };
    Some(assemble_genesis(initial_authorities, &endowed, code))
}

/// Whether the stashes of an authority list are pairwise distinct.
pub open spec fn stashes_distinct(authorities: Seq<AuthorityKeys>) -> bool {
    forall|i: int, j: int|
        0 <= i < j < authorities.len() ==> (#[trigger] authorities[i]).stash != (#[trigger] authorities[j]).stash
}

/// The check of an authority list made before assembly.
pub open spec fn authority_check(authorities: Seq<AuthorityKeys>) -> Result<(), GenesisError> {
    if authorities.len() < MINIMUM_VALIDATOR_COUNT {
        Err(GenesisError::TooFewAuthorities)
    } else if !stashes_distinct(authorities) {
        Err(GenesisError::DuplicateStash)
    } else {
        Ok(())
    }
}

/// Rejects an authority list that staking cannot start from: fewer than
/// the minimum validator count, or a stash used twice.
pub fn check_authorities(authorities: &Vec<AuthorityKeys>) -> (r: Result<(), GenesisError>)
    ensures
        r == authority_check(authorities@),
{
    if authorities.len() < MINIMUM_VALIDATOR_COUNT as usize {
        return Err(GenesisError::TooFewAuthorities);
    }
    let mut j: usize = 0;
    while j < authorities.len()
        invariant
            j <= authorities.len(),
            forall|a: int, b: int| 0 <= a < b < j ==> (#[trigger] authorities@[a]).stash != (#[trigger] authorities@[b]).stash,
        decreases authorities.len() - j,
    {
        let mut i: usize = 0;
        while i < j
            invariant
                i <= j < authorities.len(),
                forall|a: int, b: int| 0 <= a < b < j ==> (#[trigger] authorities@[a]).stash != (#[trigger] authorities@[b]).stash,
                forall|a: int| 0 <= a < i ==> (#[trigger] authorities@[a]).stash != authorities@[j as int].stash,
            decreases j - i,
        {
            if same_account(&authorities[i].stash, &authorities[j].stash) {
                assert(!stashes_distinct(authorities@));
                return Err(GenesisError::DuplicateStash);
            }
            i = i + 1;
        }
        j = j + 1;
    }
    Ok(())
}

/// The slashing-exempt set is exactly the set of authority stashes, for an
/// authority list of any size.
pub proof fn lemma_invulnerables_are_stashes(
    authorities: Seq<AuthorityKeys>,
    endowed: Seq<AccountId>,
    code: Seq<u8>,
)
    ensures
        testnet_genesis(authorities, endowed, code).invulnerables.to_set() == Set::new(
            |s: AccountId| exists|i: int| 0 <= i < authorities.len() && authorities[i].stash == s,
        ),
        testnet_genesis(authorities, endowed, code).invulnerables.len() == authorities.len(),
{
    let inv = testnet_genesis(authorities, endowed, code).invulnerables;
    let target = Set::new(|s: AccountId| exists|i: int| 0 <= i < authorities.len() && authorities[i].stash == s);
    assert forall|s: AccountId| inv.to_set().contains(s) <==> target.contains(s) by {
        if inv.to_set().contains(s) {
            let i = choose|i: int| 0 <= i < inv.len() && inv[i] == s;
            assert(authorities[i].stash == s);
        }
        if target.contains(s) {
            let i = choose|i: int| 0 <= i < authorities.len() && authorities[i].stash == s;
            assert(inv[i] == s);
            assert(inv.contains(s));
        }
    }
    assert(inv.to_set() =~= target);
}

/// Every staker's deposit is covered by the endowment given to its stash:
/// any balance entry of the stash identity holds at least the bonded amount.
pub proof fn lemma_endowment_covers_stash(
    authorities: Seq<AuthorityKeys>,
    endowed: Seq<AccountId>,
    code: Seq<u8>,
)
    ensures
        forall|i: int, j: int|
            0 <= i < authorities.len() && 0 <= j < endowed.len()
                && (#[trigger] testnet_genesis(authorities, endowed, code).balances[j]).account
                == (#[trigger] testnet_genesis(authorities, endowed, code).stakers[i]).stash
                ==> testnet_genesis(authorities, endowed, code).balances[j].balance
                >= testnet_genesis(authorities, endowed, code).stakers[i].amount,
{
}

/// Stakers and session entries correspond one to one with the authorities,
/// in order, and a stash is bonded with its own controller.
pub proof fn lemma_staking_matches_session(
    authorities: Seq<AuthorityKeys>,
    endowed: Seq<AccountId>,
    code: Seq<u8>,
)
    ensures
        testnet_genesis(authorities, endowed, code).stakers.len() == authorities.len(),
        testnet_genesis(authorities, endowed, code).session.len() == authorities.len(),
        forall|i: int|
            0 <= i < authorities.len() ==> (#[trigger] testnet_genesis(authorities, endowed, code).stakers[i]).stash
                == testnet_genesis(authorities, endowed, code).session[i].validator
                && testnet_genesis(authorities, endowed, code).stakers[i].controller == authorities[i].controller,
{
}

} // verus!
