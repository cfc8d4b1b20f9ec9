//! The contract that generated chains satisfy and that every validator named
//! in a step is required to satisfy. This crate only emits code against it;
//! the per-field validators that implement it are supplied by its users.

use vstd::prelude::*;

verus! {

/// The capability of a validation pipeline: an associated subject type, an
/// associated error type, and one operation that either returns the validated
/// subject or fails with the error.
pub trait ChainExec {
    type Type;

    type Error;

    fn execute(input: Self::Type) -> Result<Self::Type, Self::Error>;
}

} // verus!
