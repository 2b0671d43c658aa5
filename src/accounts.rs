use vstd::prelude::*;
use crate::config::{testnet_name_list, testnet_names};
use crate::keys::{AccountId, account_id_from_seed, stash_seed, get_account_id_from_seed, stash_seed_of};

verus! {

/// The seeds of the account registry: the named seeds, then their stash
/// variants in the same order.
pub open spec fn testnet_account_seeds() -> Seq<Seq<char>> {
    testnet_names() + testnet_names().map_values(|s: Seq<char>| stash_seed(s))
}

/// Whether every registry seed derives an identity.
pub open spec fn testnet_seeds_valid() -> bool {
    forall|i: int|
        0 <= i < testnet_account_seeds().len() ==> (#[trigger] account_id_from_seed(
            testnet_account_seeds()[i],
        )) is Some
}

/// The account registry; `None` if some seed does not derive.
pub open spec fn testnet_accounts_spec() -> Option<Seq<AccountId>> {
    if testnet_seeds_valid() {
        Some(testnet_account_seeds().map_values(|s: Seq<char>| account_id_from_seed(s)->0))
    } else {
        None
    }
}

/// The twelve endowed test identities: Alice, Bob, Charlie, Dave, Eve,
/// Ferdie, then the stash identity of each in the same order.
pub fn testnet_accounts() -> (r: Option<Vec<AccountId>>)
    ensures
        r is Some <==> testnet_accounts_spec() is Some,
        r is Some ==> testnet_accounts_spec() == Some(r->0@),
{
    let names = testnet_name_list();
    let ghost seeds = testnet_account_seeds();
    assert(seeds.len() == 12);
    let mut out: Vec<AccountId> = Vec::new();
    let mut i: usize = 0;
    while i < 6
        invariant
            i <= 6,
            seeds == testnet_account_seeds(),
            names@.len() == 6,
            forall|k: int| 0 <= k < 6 ==> (#[trigger] names@[k])@ == testnet_names()[k],
            out@.len() == i,
            forall|j: int| 0 <= j < i ==> Some(#[trigger] out@[j]) == account_id_from_seed(seeds[j]),
        decreases 6 - i,
    {
        assert(seeds[i as int] == names@[i as int]@);
        match get_account_id_from_seed(names[i]) {
            Some(a) => out.push(a),
            None => {
                assert(account_id_from_seed(seeds[i as int]) is None);
                return None;
            },
        }
        i = i + 1;
    }
    let mut i: usize = 0;
    while i < 6
        invariant
            i <= 6,
            seeds == testnet_account_seeds(),
            names@.len() == 6,
            forall|k: int| 0 <= k < 6 ==> (#[trigger] names@[k])@ == testnet_names()[k],
            out@.len() == 6 + i,
            forall|j: int| 0 <= j < 6 + i ==> Some(#[trigger] out@[j]) == account_id_from_seed(seeds[j]),
        decreases 6 - i,
    {
        let stash = stash_seed_of(names[i]);
        assert(seeds[6 + i] == stash@);
        match get_account_id_from_seed(stash.as_str()) {
            Some(a) => out.push(a),
            None => {
                assert(account_id_from_seed(seeds[6 + i]) is None);
                return None;
            },
        }
        i = i + 1;
    }
    assert(testnet_seeds_valid()) by {
        assert forall|j: int| 0 <= j < seeds.len() implies (#[trigger] account_id_from_seed(seeds[j])) is Some by {
            assert(Some(out@[j]) == account_id_from_seed(seeds[j]));
        }
    }
    assert(out@ =~= seeds.map_values(|s: Seq<char>| account_id_from_seed(s)->0));
    Some(out)
}

} // verus!
