//! Public keys derived from secret URIs by the key pairs of `sp-core` and of
//! the consensus primitives.
//!
//! Nothing in this module is proved: each item states what the crate
//! believes of the outside code, and the rest of the crate is verified
//! against it.

use vstd::prelude::*;

verus! {

/// The error with which `sp-core` rejects a secret URI. Its content is not
/// looked into.
#[verifier::external_type_specification]
#[verifier::external_body]
pub struct ExSecretStringError(sp_core::crypto::SecretStringError);

/// The public key of the pair that `sp_core::sr25519::Pair::from_string`
/// makes from a secret URI when no password override is given, or `None`
/// where it rejects the URI.
pub uninterp spec fn sr25519_public_of(suri: Seq<char>) -> Option<[u8; 32]>;

/// The public key of the pair that `from_string` of
/// `sp_consensus_grandpa::AuthorityPair` makes from a secret URI when no
/// password override is given, or `None` where it rejects the URI.
pub uninterp spec fn grandpa_public_of(suri: Seq<char>) -> Option<[u8; 32]>;

/// The public key of the pair that `from_string` of
/// `sp_consensus_babe::AuthorityPair` makes from a secret URI when no
/// password override is given, or `None` where it rejects the URI.
pub uninterp spec fn babe_public_of(suri: Seq<char>) -> Option<[u8; 32]>;

/// Calls `sp_core::sr25519::Pair::from_string` with no password override and
/// takes the public key of the pair. The outcome depends on the URI alone:
/// a URI that starts with `/` is rooted at the development phrase, which is
/// a constant of `sp-core`, and neither parsing nor derivation reads
/// anything else. (Below a soft junction the secret key gets a nonce drawn
/// at random; the public key is computed without it.)
#[verifier::external_body]
pub(crate) fn sr25519_from_string(suri: &str) -> (r: Result<
    [u8; 32],
    sp_core::crypto::SecretStringError,
>)
    ensures
        match r {
            Ok(raw) => sr25519_public_of(suri@) == Some(raw),
            Err(_) => sr25519_public_of(suri@) is None,
        },
{
    match <sp_core::sr25519::Pair as sp_core::Pair>::from_string(suri, None) {
        Ok(pair) => Ok(sp_core::Pair::public(&pair).0),
        Err(e) => Err(e),
    }
}

/// Calls `from_string` of `sp_consensus_grandpa::AuthorityPair`, an ed25519
/// pair, with no password override and takes the bytes of the pair's public
/// key. The outcome depends on the URI alone, as for sr25519; ed25519
/// rejects a path with a soft junction.
#[verifier::external_body]
pub(crate) fn grandpa_from_string(suri: &str) -> (r: Result<
    [u8; 32],
    sp_core::crypto::SecretStringError,
>)
    ensures
        match r {
            Ok(raw) => grandpa_public_of(suri@) == Some(raw),
            Err(_) => grandpa_public_of(suri@) is None,
        },
{
    match <sp_consensus_grandpa::AuthorityPair as sp_core::Pair>::from_string(suri, None) {
        Ok(pair) => Ok(sp_core::ed25519::Public::from(sp_core::Pair::public(&pair)).0),
        Err(e) => Err(e),
    }
}

/// Calls `from_string` of `sp_consensus_babe::AuthorityPair`, an sr25519
/// pair, with no password override and takes the bytes of the pair's public
/// key. The outcome depends on the URI alone.
#[verifier::external_body]
pub(crate) fn babe_from_string(suri: &str) -> (r: Result<
    [u8; 32],
    sp_core::crypto::SecretStringError,
>)
    ensures
        match r {
            Ok(raw) => babe_public_of(suri@) == Some(raw),
            Err(_) => babe_public_of(suri@) is None,
        },
{
    match <sp_consensus_babe::AuthorityPair as sp_core::Pair>::from_string(suri, None) {
        Ok(pair) => Ok(sp_core::sr25519::Public::from(sp_core::Pair::public(&pair)).0),
        Err(e) => Err(e),
    }
}

} // verus!
