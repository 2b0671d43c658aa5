use vstd::prelude::*;
use crate::keys::{
    AccountId, BabeId, GrandpaId, ValidatorId, account_id_from_seed, babe_key_from_seed,
    grandpa_key_from_seed, validator_key_from_seed, stash_seed, get_account_id_from_seed,
    get_babe_key_from_seed, get_grandpa_key_from_seed, get_validator_key_from_seed, stash_seed_of,
};

verus! {

/// The keys of one genesis authority.
#[derive(Clone, Copy, Debug, PartialEq, Eq)]
pub struct AuthorityKeys {
    pub stash: AccountId,
    pub controller: AccountId,
    pub babe: BabeId,
    pub grandpa: GrandpaId,
    pub parachain_validator: ValidatorId,
}

/// The authority keys of a seed: the stash from `<seed>//stash`, the
/// controller and the three consensus keys from the bare seed.
pub open spec fn authority_keys_from_seed(seed: Seq<char>) -> Option<AuthorityKeys> {
    match (
        account_id_from_seed(stash_seed(seed)),
        account_id_from_seed(seed),
        babe_key_from_seed(seed),
        grandpa_key_from_seed(seed),
        validator_key_from_seed(seed),
    ) {
        (Some(stash), Some(controller), Some(babe), Some(grandpa), Some(parachain_validator)) => Some(
            AuthorityKeys { stash, controller, babe, grandpa, parachain_validator },
        ),
        _ => None,
    }
}

/// Whether every seed of the list derives authority keys.
pub open spec fn all_authority_seeds_valid(seeds: Seq<Seq<char>>) -> bool {
    forall|i: int| 0 <= i < seeds.len() ==> (#[trigger] authority_keys_from_seed(seeds[i])) is Some
}

/// The authority set of a list of seeds, in the order of the seeds; `None`
/// if some seed is not valid.
pub open spec fn authority_set_from_seeds(seeds: Seq<Seq<char>>) -> Option<Seq<AuthorityKeys>> {
    if all_authority_seeds_valid(seeds) {
        Some(seeds.map_values(|s: Seq<char>| authority_keys_from_seed(s)->0))
    } else {
        None
    }
}

/// The views of a list of strings.
pub open spec fn string_views(v: Seq<String>) -> Seq<Seq<char>> {
    v.map_values(|s: String| s@)
}

/// Derives the authority keys of one seed.
pub fn get_authority_keys_from_seed(seed: &str) -> (r: Option<AuthorityKeys>)
    ensures
        r == authority_keys_from_seed(seed@),
{
    let stash_seed = stash_seed_of(seed);
    let stash = get_account_id_from_seed(stash_seed.as_str());
    let controller = get_account_id_from_seed(seed);
    let babe = get_babe_key_from_seed(seed);
    let grandpa = get_grandpa_key_from_seed(seed);
    let parachain_validator = get_validator_key_from_seed(seed);
    match (stash, controller, babe, grandpa, parachain_validator) {
        (Some(stash), Some(controller), Some(babe), Some(grandpa), Some(parachain_validator)) => Some(
            AuthorityKeys { stash, controller, babe, grandpa, parachain_validator },
        ),
        _ => None,
    }
}

/// Derives the authority set of a list of seeds, keeping their order.
/// Repeated seeds are not removed.
pub fn get_authority_set_from_seeds(seeds: &Vec<String>) -> (r: Option<Vec<AuthorityKeys>>)
    ensures
        r is Some <==> authority_set_from_seeds(string_views(seeds@)) is Some,
        r is Some ==> authority_set_from_seeds(string_views(seeds@)) == Some(r->0@),
{
    let ghost views = string_views(seeds@);
    let mut out: Vec<AuthorityKeys> = Vec::new();
    let mut i: usize = 0;
    while i < seeds.len()
        invariant
            i <= seeds.len(),
            views == string_views(seeds@),
            out@.len() == i,
            forall|j: int| 0 <= j < i ==> Some(#[trigger] out@[j]) == authority_keys_from_seed(views[j]),
        decreases seeds.len() - i,
    {
        match get_authority_keys_from_seed(seeds[i].as_str()) {
            Some(k) => out.push(k),
            None => {
                assert(authority_keys_from_seed(views[i as int]) is None);
                assert(!all_authority_seeds_valid(views));
                return None;
            },
        }
        i = i + 1;
    }
    assert(all_authority_seeds_valid(views)) by {
        assert forall|j: int| 0 <= j < views.len() implies (#[trigger] authority_keys_from_seed(views[j])) is Some by {
            assert(Some(out@[j]) == authority_keys_from_seed(views[j]));
        }
    }
    assert(out@ =~= views.map_values(|s: Seq<char>| authority_keys_from_seed(s)->0));
    Some(out)
}

/// Derivation is a function of the seed: equal seeds give equal authority
/// keys and equal account identities.
pub proof fn lemma_derivation_deterministic(s1: Seq<char>, s2: Seq<char>)
    requires
        s1 == s2,
    ensures
        authority_keys_from_seed(s1) == authority_keys_from_seed(s2),
        account_id_from_seed(s1) == account_id_from_seed(s2),
        authority_set_from_seeds(seq![s1]) == authority_set_from_seeds(seq![s2]),
{
}

} // verus!
