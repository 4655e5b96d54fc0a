//! The ways in which an operation of the contract fails.

use vstd::prelude::*;

verus! {

/// Why an operation was refused.
#[derive(Clone, Copy, Debug, PartialEq, Eq, Structural)]
pub enum Errors {
    /// The contract already has an owner.
    AlreadyInitialized,
    /// The call to the content registry failed, or its answer could not be read.
    CallError,
    /// No signer could be recovered from the signature.
    EcRecoverError,
    /// The signer is not allowed to validate consumption for the content.
    /// Deliberately says no more: a bad signature and a signer without the
    /// role look the same.
    InvalidPlatformSignature,
    /// A counter of the ledger would pass the largest 256-bit number.
    ArithmeticOverflow,
}

} // verus!
