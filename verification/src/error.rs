//! The ways in which building a chain specification can fail.

use vstd::prelude::*;

verus! {

/// A failure that is reported to the caller.
#[derive(Clone, Copy, PartialEq, Eq, Debug)]
pub enum ChainSpecError {
    /// The topology name is none of the known ones.
    UnknownTopology,
    /// A seed is not a valid derivation path for the requested key scheme.
    KeyDerivationFailure,
}

} // verus!
