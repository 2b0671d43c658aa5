use vstd::prelude::*;

verus! {

/// Smallest balance unit multiple used by the test runtime (one DOT).
pub const DOTS: u128 = 1_000_000_000_000;

/// Balance given to every endowed account.
pub const ENDOWMENT: u128 = 1_000_000_000_000_000_000;

/// Amount each authority bonds from its stash.
pub const STASH: u128 = 100_000_000_000_000;

/// Number of validators the staking module aims for.
pub const VALIDATOR_COUNT: u32 = 2;

/// Fewest validators the staking module accepts.
pub const MINIMUM_VALIDATOR_COUNT: u32 = 1;

/// Share of a slash paid to reporters, in percent.
pub const SLASH_REWARD_PERCENT: u32 = 10;

/// Libp2p protocol identifier of the local test network.
pub const DEFAULT_PROTOCOL_ID: &'static str = "dot";

/// The canonical named seeds of the test network, in order.
pub open spec fn testnet_names() -> Seq<Seq<char>> {
    seq!["Alice"@, "Bob"@, "Charlie"@, "Dave"@, "Eve"@, "Ferdie"@]
}

/// The canonical named seeds, in order.
pub fn testnet_name_list() -> (r: Vec<&'static str>)
    ensures
        r@.len() == 6,
        forall|i: int| 0 <= i < 6 ==> (#[trigger] r@[i])@ == testnet_names()[i],
{
    let r = vec!["Alice", "Bob", "Charlie", "Dave", "Eve", "Ferdie"];
    r
}

/// Proof that the constants are the multiples of `DOTS` they stand for and
/// that every endowment covers a stash deposit.
pub proof fn lemma_constants()
    ensures
        ENDOWMENT == 1_000_000 * DOTS,
        STASH == 100 * DOTS,
        STASH <= ENDOWMENT,
        MINIMUM_VALIDATOR_COUNT <= VALIDATOR_COUNT,
{
}

} // verus!
