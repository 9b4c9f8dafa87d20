//! Validator keys and their derivation from human-readable seeds.

use vstd::prelude::*;
use vstd::string::*;
use crate::crypto::{
    babe_from_string, babe_public_of, grandpa_from_string, grandpa_public_of, sr25519_from_string,
    sr25519_public_of,
};
use crate::error::ChainSpecError;

verus! {

/// The kinds of public key that the genesis holds.
#[derive(Clone, Copy, PartialEq, Eq, Debug)]
pub enum KeyKind {
    /// An account identifier.
    Account,
    /// A finality key.
    Grandpa,
    /// A block-authorship key.
    Babe,
    /// A liveness key.
    ImOnline,
}

/// An account identifier: an sr25519 public key.
#[derive(Clone, Copy, PartialEq, Eq, Debug)]
pub struct AccountId(pub [u8; 32]);

/// The finality (GRANDPA) key of an authority: an ed25519 public key.
#[derive(Clone, Copy, PartialEq, Eq, Debug)]
pub struct GrandpaId(pub [u8; 32]);

/// The block-authorship (BABE) key of an authority: an sr25519 public key.
#[derive(Clone, Copy, PartialEq, Eq, Debug)]
pub struct BabeId(pub [u8; 32]);

/// The liveness (I'm-online) key of an authority: an sr25519 public key.
#[derive(Clone, Copy, PartialEq, Eq, Debug)]
pub struct ImOnlineId(pub [u8; 32]);

/// The keys of one authority, in the order in which the genesis builder
/// reads them: stash account, controller account, finality key, authorship
/// key, liveness key.
pub type AuthorityKeys = (AccountId, AccountId, GrandpaId, BabeId, ImOnlineId);

/// A kind of public key that can be derived from a seed.
pub trait Public: Sized + Copy {
    /// The kind of key that the type holds.
    spec fn kind() -> KeyKind;

    /// The key of this kind with the given raw bytes.
    spec fn from_raw_spec(raw: [u8; 32]) -> Self;

    /// The kind of key that the type holds.
    fn key_kind() -> (kind: KeyKind)
        ensures
            kind == Self::kind(),
    ;

    /// Makes the key with the given raw bytes.
    fn from_raw(raw: [u8; 32]) -> (key: Self)
        ensures
            key == Self::from_raw_spec(raw),
    ;
}

impl Public for AccountId {
    open spec fn kind() -> KeyKind {
        KeyKind::Account
    }

    open spec fn from_raw_spec(raw: [u8; 32]) -> Self {
        AccountId(raw)
    }

    fn key_kind() -> (kind: KeyKind) {
        KeyKind::Account
    }

    fn from_raw(raw: [u8; 32]) -> (key: Self) {
        AccountId(raw)
    }
}

impl Public for GrandpaId {
    open spec fn kind() -> KeyKind {
        KeyKind::Grandpa
    }

    open spec fn from_raw_spec(raw: [u8; 32]) -> Self {
        GrandpaId(raw)
    }

    fn key_kind() -> (kind: KeyKind) {
        KeyKind::Grandpa
    }

    fn from_raw(raw: [u8; 32]) -> (key: Self) {
        GrandpaId(raw)
    }
}

impl Public for BabeId {
    open spec fn kind() -> KeyKind {
        KeyKind::Babe
    }

    open spec fn from_raw_spec(raw: [u8; 32]) -> Self {
        BabeId(raw)
    }

    fn key_kind() -> (kind: KeyKind) {
        KeyKind::Babe
    }

    fn from_raw(raw: [u8; 32]) -> (key: Self) {
        BabeId(raw)
    }
}

impl Public for ImOnlineId {
    open spec fn kind() -> KeyKind {
        KeyKind::ImOnline
    }

    open spec fn from_raw_spec(raw: [u8; 32]) -> Self {
        ImOnlineId(raw)
    }

    fn key_kind() -> (kind: KeyKind) {
        KeyKind::ImOnline
    }

    fn from_raw(raw: [u8; 32]) -> (key: Self) {
        ImOnlineId(raw)
    }
}

/// The raw public key of a kind that a secret URI stands for, if the key
/// pair of that kind accepts the URI. Accounts and liveness keys are plain
/// sr25519 keys; finality and authorship keys are those of the consensus
/// primitives.
pub open spec fn derived_public(kind: KeyKind, suri: Seq<char>) -> Option<[u8; 32]> {
    match kind {
        KeyKind::Account => sr25519_public_of(suri),
        KeyKind::Grandpa => grandpa_public_of(suri),
        KeyKind::Babe => babe_public_of(suri),
        KeyKind::ImOnline => sr25519_public_of(suri),
    }
}

/// The secret URI of a seed: the seed as a hard junction below the
/// development phrase.
pub open spec fn seed_suri(seed: Seq<char>) -> Seq<char> {
    "//"@ + seed
}

/// The seed of the stash variant of a seed.
pub open spec fn stash_seed(seed: Seq<char>) -> Seq<char> {
    seed + "//stash"@
}

/// The key of type `TPublic` that a seed stands for, if the seed is a valid
/// derivation path for that kind of key.
pub open spec fn public_from_seed<TPublic: Public>(seed: Seq<char>) -> Option<TPublic> {
    match derived_public(TPublic::kind(), seed_suri(seed)) {
        Some(raw) => Some(TPublic::from_raw_spec(raw)),
        None => None,
    }
}

/// Derives the raw public key of the given kind from a secret URI.
pub fn derive_public(kind: KeyKind, suri: &str) -> (r: Result<
    [u8; 32],
    sp_core::crypto::SecretStringError,
>)
    ensures
        match r {
            Ok(raw) => derived_public(kind, suri@) == Some(raw),
            Err(_) => derived_public(kind, suri@) is None,
        },
{
    match kind {
        KeyKind::Account => sr25519_from_string(suri),
        KeyKind::Grandpa => grandpa_from_string(suri),
        KeyKind::Babe => babe_from_string(suri),
        KeyKind::ImOnline => sr25519_from_string(suri),
    }
}

/// Turns the outcome of a derivation into a key of type `TPublic`: the key
/// with the derived bytes, or a key-derivation failure where the path was
/// rejected.
pub fn public_from_outcome<TPublic: Public>(
    outcome: Result<[u8; 32], sp_core::crypto::SecretStringError>,
) -> (r: Result<TPublic, ChainSpecError>)
    ensures
        r == match outcome {
            Ok(raw) => Ok::<TPublic, ChainSpecError>(TPublic::from_raw_spec(raw)),
            Err(_) => Err(ChainSpecError::KeyDerivationFailure),
        },
{
    match outcome {
        Ok(raw) => Ok(TPublic::from_raw(raw)),
        Err(_) => Err(ChainSpecError::KeyDerivationFailure),
    }
}

/// Derives the public key of type `TPublic` for a seed, from the path
/// `//seed` below the development phrase.
///
/// The key is a function of the seed and the kind of key alone: two
/// derivations of one seed give the same bytes. The derivation fails exactly
/// where the key pair of that kind rejects the path.
pub fn get_from_seed<TPublic: Public>(seed: &str) -> (r: Result<TPublic, ChainSpecError>)
    ensures
        r == match public_from_seed::<TPublic>(seed@) {
            Some(key) => Ok::<TPublic, ChainSpecError>(key),
            None => Err(ChainSpecError::KeyDerivationFailure),
        },
{
    let mut suri = String::from_str("//");
    suri.append(seed);
    let outcome = derive_public(TPublic::key_kind(), suri.as_str());
    public_from_outcome(outcome)
}

/// The keys of the authority that a seed stands for: the stash account of
/// the seed's stash variant, then the account, finality, authorship and
/// liveness keys of the seed itself. `None` where any of the five paths is
/// rejected.
pub open spec fn authority_keys_from_seed(seed: Seq<char>) -> Option<AuthorityKeys> {
    match (
        public_from_seed::<AccountId>(stash_seed(seed)),
        public_from_seed::<AccountId>(seed),
        public_from_seed::<GrandpaId>(seed),
        public_from_seed::<BabeId>(seed),
        public_from_seed::<ImOnlineId>(seed),
    ) {
        (Some(stash), Some(controller), Some(grandpa), Some(babe), Some(im_online)) => Some(
            (stash, controller, grandpa, babe, im_online),
        ),
        _ => None,
    }
}

/// What five derivation outcomes combine to: the keys in their fixed order
/// where all five succeeded, else the first failure in that order.
pub open spec fn combined_authority_keys(
    stash: Result<AccountId, ChainSpecError>,
    controller: Result<AccountId, ChainSpecError>,
    grandpa: Result<GrandpaId, ChainSpecError>,
    babe: Result<BabeId, ChainSpecError>,
    im_online: Result<ImOnlineId, ChainSpecError>,
) -> Result<AuthorityKeys, ChainSpecError> {
    match stash {
        Err(e) => Err(e),
        Ok(s) => match controller {
            Err(e) => Err(e),
            Ok(c) => match grandpa {
                Err(e) => Err(e),
                Ok(g) => match babe {
                    Err(e) => Err(e),
                    Ok(b) => match im_online {
                        Err(e) => Err(e),
                        Ok(i) => Ok((s, c, g, b, i)),
                    },
                },
            },
        },
    }
}

/// Puts five derived keys into the order of an authority's key set, or
/// hands on the first failure among them.
pub fn combine_authority_keys(
    stash: Result<AccountId, ChainSpecError>,
    controller: Result<AccountId, ChainSpecError>,
    grandpa: Result<GrandpaId, ChainSpecError>,
    babe: Result<BabeId, ChainSpecError>,
    im_online: Result<ImOnlineId, ChainSpecError>,
) -> (r: Result<AuthorityKeys, ChainSpecError>)
    ensures
        r == combined_authority_keys(stash, controller, grandpa, babe, im_online),
{
    let s = match stash {
        Ok(key) => key,
        Err(e) => { return Err(e); },
    };
    let c = match controller {
        Ok(key) => key,
        Err(e) => { return Err(e); },
    };
    let g = match grandpa {
        Ok(key) => key,
        Err(e) => { return Err(e); },
    };
    let b = match babe {
        Ok(key) => key,
        Err(e) => { return Err(e); },
    };
    let i = match im_online {
        Ok(key) => key,
        Err(e) => { return Err(e); },
    };
    Ok((s, c, g, b, i))
}

/// Derives the stash, controller and session keys of the authority that a
/// seed stands for. It fails exactly where one of the five paths is
/// rejected.
pub fn get_authority_keys_from_seed(seed: &str) -> (r: Result<AuthorityKeys, ChainSpecError>)
    ensures
        r == match authority_keys_from_seed(seed@) {
            Some(keys) => Ok::<AuthorityKeys, ChainSpecError>(keys),
            None => Err(ChainSpecError::KeyDerivationFailure),
        },
{
    let mut stash = String::from_str(seed);
    stash.append("//stash");
    combine_authority_keys(
        get_from_seed::<AccountId>(stash.as_str()),
        get_from_seed::<AccountId>(seed),
        get_from_seed::<GrandpaId>(seed),
        get_from_seed::<BabeId>(seed),
        get_from_seed::<ImOnlineId>(seed),
    )
}

} // verus!
