//! The errors that configuring, sharing and initializing can report.

use vstd::prelude::*;

verus! {

/// Why a configuration call did not take effect.
#[derive(Clone, Copy, Debug, PartialEq, Eq, Structural)]
pub enum Reason {
    /// The input was turned down before it reached the underlying resource:
    /// it is too long for the entry point, holds a NUL byte where a C string
    /// is expected, or is out of the range the entry point accepts.
    InvalidInput,
    /// The underlying resource rejected the call and reported `code`.
    Rejected { code: i32 },
}

/// Everything that can go wrong while a configuration is staged, shared or
/// used to initialize a connection.
#[derive(Clone, Copy, Debug, PartialEq, Eq, Structural)]
pub enum Error {
    /// The underlying resource could not be allocated. No builder exists.
    ResourceAllocation,
    /// A field mutation was rejected. The builder stays valid.
    Configuration { reason: Reason },
    /// Registering a certificate chain failed at the underlying resource,
    /// which reported `code`. The chain is retained by the side record all
    /// the same.
    Certificate { code: i32 },
    /// More default chains were supplied than there are certificate types.
    /// Nothing was changed.
    TooManyDefaultChains,
    /// A connection initializer failed.
    InitializerFailure,
}

impl Error {
    /// The error of an input that was turned down before any call was made.
    pub open spec fn spec_invalid_input() -> Error {
        Error::Configuration { reason: Reason::InvalidInput }
    }

    /// The error of a field mutation that the underlying resource rejected.
    pub open spec fn spec_rejected(code: i32) -> Error {
        Error::Configuration { reason: Reason::Rejected { code } }
    }

    /// The error of an input that was turned down before any call was made.
    #[verifier::when_used_as_spec(spec_invalid_input)]
    pub fn invalid_input() -> (error: Error)
        ensures
            error == Error::spec_invalid_input(),
    {
        Error::Configuration { reason: Reason::InvalidInput }
    }

    /// The error of a field mutation that the underlying resource rejected.
    #[verifier::when_used_as_spec(spec_rejected)]
    pub fn rejected(code: i32) -> (error: Error)
        ensures
            error == Error::spec_rejected(code),
    {
        Error::Configuration { reason: Reason::Rejected { code } }
    }

    /// Whether the builder or handle that reported the error can go on being
    /// used: true of every error but a failed allocation, after which there
    /// is no builder, and a failed initializer, which ends the attempt.
    pub open spec fn spec_is_recoverable(self) -> bool {
        self is Configuration || self is Certificate || self is TooManyDefaultChains
    }

    /// Whether the builder or handle that reported the error can go on being
    /// used.
    #[verifier::when_used_as_spec(spec_is_recoverable)]
    pub fn is_recoverable(self) -> (recoverable: bool)
        ensures
            recoverable == self.spec_is_recoverable(),
    {
        match self {
            Error::Configuration { .. } => true,
            Error::Certificate { .. } => true,
            Error::TooManyDefaultChains => true,
            Error::ResourceAllocation => false,
            Error::InitializerFailure => false,
        }
    }
}

} // verus!
