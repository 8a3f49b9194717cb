//! The typed failures that every operation can report.

use vstd::prelude::*;

verus! {

/// Which external collaborator a failed call belongs to.
#[derive(Clone, Copy, Debug, PartialEq, Eq, Structural)]
pub enum CallOrigin {
    /// The token-unit mint primitive.
    TokenMint,
    /// The descriptive-metadata registry.
    Registry,
}

/// Every way an operation can fail. Each precondition check fails fast and the
/// whole operation is rejected: no operation partially applies its effects.
#[derive(Clone, Copy, Debug, PartialEq, Eq, Structural)]
pub enum NftMintError {
    /// The caller is not the stored admin identity.
    AuthorizationError,
    /// A record with the same key already exists.
    DuplicateRecordError,
    /// The named record does not exist.
    MissingRecordError,
    /// A string longer than a fixed buffer was offered.
    CapacityError,
    /// A malformed input, such as an empty metadata URI.
    InvalidInputError,
    /// A counter already at zero was asked to decrement.
    UnderflowError,
    /// A failure reported by an external collaborator, with its origin.
    ExternalCallError(CallOrigin),
}

} // verus!
