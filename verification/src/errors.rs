//! Structured failure kinds for every fallible path of the library.

use vstd::prelude::*;

verus! {

/// Everything that can go wrong in the library or at its transport edge.
///
/// - `TransportError`: the remote endpoint failed; retried up to a bound by
///   the caller, then surfaced.
/// - `DecodeError`: a discriminator mismatch or malformed payload; never
///   retried.
/// - `DerivationExhausted`: no valid nonce exists in the address-derivation
///   search space.
/// - `InvalidMarketIndex`: a caller-supplied market index lies outside the
///   configured slots; rejected before any network call.
/// - `AlreadyInitialized`: an account that a caller asked to create already
///   exists.
/// - `SubmitError`: the ledger rejected a composed submission.
#[derive(Clone, Copy, PartialEq, Eq, Structural, Debug)]
pub enum DriftError {
    TransportError,
    DecodeError,
    DerivationExhausted,
    InvalidMarketIndex,
    AlreadyInitialized,
    SubmitError,
}

pub type DriftResult<T> = Result<T, DriftError>;

} // verus!
