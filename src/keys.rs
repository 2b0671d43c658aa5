use vstd::prelude::*;
use vstd::string::*;

verus! {

/// An account identity: the bytes of an sr25519 public key.
#[derive(Clone, Copy, Debug, PartialEq, Eq)]
pub struct AccountId {
    pub bytes: [u8; 32],
}

/// Block-production (BABE) key: an sr25519 public key.
#[derive(Clone, Copy, Debug, PartialEq, Eq)]
pub struct BabeId {
    pub bytes: [u8; 32],
}

/// Finality (GRANDPA) key: an ed25519 public key.
#[derive(Clone, Copy, Debug, PartialEq, Eq)]
pub struct GrandpaId {
    pub bytes: [u8; 32],
}

/// Parachain-validator key: an sr25519 public key.
#[derive(Clone, Copy, Debug, PartialEq, Eq)]
pub struct ValidatorId {
    pub bytes: [u8; 32],
}

/// Authority-discovery key: an sr25519 public key.
#[derive(Clone, Copy, Debug, PartialEq, Eq)]
pub struct AuthorityDiscoveryId {
    pub bytes: [u8; 32],
}

/// The sr25519 public key that a secret URI derives, if the URI is valid.
pub uninterp spec fn sr25519_public_of(uri: Seq<char>) -> Option<[u8; 32]>;

/// The ed25519 public key that a secret URI derives, if the URI is valid.
pub uninterp spec fn ed25519_public_of(uri: Seq<char>) -> Option<[u8; 32]>;

/// Relies on sp_core's `sr25519::Pair::from_string` (no password override)
/// and `Pair::public`: the key is a function of the URI alone, and an
/// invalid URI gives an error.
#[verifier::external_body]
fn sr25519_public(uri: &str) -> (r: Option<[u8; 32]>)
    ensures
        r == sr25519_public_of(uri@),
{
    <sp_core::sr25519::Pair as sp_core::crypto::Pair>::from_string(uri, None).ok().map(
        |pair| <[u8; 32]>::from(sp_core::crypto::Pair::public(&pair)),
    )
}

/// Relies on sp_core's `ed25519::Pair::from_string` (no password override)
/// and `Pair::public`: the key is a function of the URI alone, and an
/// invalid URI gives an error.
#[verifier::external_body]
fn ed25519_public(uri: &str) -> (r: Option<[u8; 32]>)
    ensures
        r == ed25519_public_of(uri@),
{
    <sp_core::ed25519::Pair as sp_core::crypto::Pair>::from_string(uri, None).ok().map(
        |pair| <[u8; 32]>::from(sp_core::crypto::Pair::public(&pair)),
    )
}

/// The secret URI of a development seed: a hard derivation of the
/// well-known development phrase.
pub open spec fn dev_uri(seed: Seq<char>) -> Seq<char> {
    "//"@ + seed
}

/// The seed of the stash variant of an identity.
pub open spec fn stash_seed(seed: Seq<char>) -> Seq<char> {
    seed + "//stash"@
}

/// The account identity of a seed: its sr25519 development key.
pub open spec fn account_id_from_seed(seed: Seq<char>) -> Option<AccountId> {
    match sr25519_public_of(dev_uri(seed)) {
        Some(b) => Some(AccountId { bytes: b }),
        None => None,
    }
}

/// The block-production key of a seed: its sr25519 development key.
pub open spec fn babe_key_from_seed(seed: Seq<char>) -> Option<BabeId> {
    match sr25519_public_of(dev_uri(seed)) {
        Some(b) => Some(BabeId { bytes: b }),
        None => None,
    }
}

/// The finality key of a seed: its ed25519 development key.
pub open spec fn grandpa_key_from_seed(seed: Seq<char>) -> Option<GrandpaId> {
    match ed25519_public_of(dev_uri(seed)) {
        Some(b) => Some(GrandpaId { bytes: b }),
        None => None,
    }
}

/// The parachain-validator key of a seed: its sr25519 development key.
pub open spec fn validator_key_from_seed(seed: Seq<char>) -> Option<ValidatorId> {
    match sr25519_public_of(dev_uri(seed)) {
        Some(b) => Some(ValidatorId { bytes: b }),
        None => None,
    }
}

/// The development URI `//<seed>`.
pub fn dev_uri_of(seed: &str) -> (r: String)
    ensures
        r@ == dev_uri(seed@),
{
    let mut uri = String::from_str("//");
    uri.append(seed);
    uri
}

/// The seed `<seed>//stash`.
pub fn stash_seed_of(seed: &str) -> (r: String)
    ensures
        r@ == stash_seed(seed@),
{
    let mut s = String::from_str(seed);
    s.append("//stash");
    s
}

/// Account identity derived from a seed; `None` if the seed is not valid.
pub fn get_account_id_from_seed(seed: &str) -> (r: Option<AccountId>)
    ensures
        r == account_id_from_seed(seed@),
{
    let uri = dev_uri_of(seed);
    match sr25519_public(uri.as_str()) {
        Some(b) => Some(AccountId { bytes: b }),
        None => None,
    }
}

/// Block-production key derived from a seed.
pub fn get_babe_key_from_seed(seed: &str) -> (r: Option<BabeId>)
    ensures
        r == babe_key_from_seed(seed@),
{
    let uri = dev_uri_of(seed);
    match sr25519_public(uri.as_str()) {
        Some(b) => Some(BabeId { bytes: b }),
        None => None,
    }
}

/// Finality key derived from a seed.
pub fn get_grandpa_key_from_seed(seed: &str) -> (r: Option<GrandpaId>)
    ensures
        r == grandpa_key_from_seed(seed@),
{
    let uri = dev_uri_of(seed);
    match ed25519_public(uri.as_str()) {
        Some(b) => Some(GrandpaId { bytes: b }),
        None => None,
    }
}

/// Parachain-validator key derived from a seed.
pub fn get_validator_key_from_seed(seed: &str) -> (r: Option<ValidatorId>)
    ensures
        r == validator_key_from_seed(seed@),
{
    let uri = dev_uri_of(seed);
    match sr25519_public(uri.as_str()) {
        Some(b) => Some(ValidatorId { bytes: b }),
        None => None,
    }
}

/// Whether two identities hold the same key bytes.
pub fn same_account(a: &AccountId, b: &AccountId) -> (r: bool)
    ensures
        r == (a == b),
{
    let mut i: usize = 0;
    while i < 32
        invariant
            i <= 32,
            forall|j: int| 0 <= j < i ==> a.bytes[j] == b.bytes[j],
        decreases 32 - i,
    {
        if a.bytes[i] != b.bytes[i] {
            return false;
        }
        i = i + 1;
    }
    assert(a.bytes =~= b.bytes);
    true
}

} // verus!
