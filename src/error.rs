//! Errors of the registry and of the computation lifecycle.

use vstd::prelude::*;

verus! {

/// Errors of a computation's callback.
#[derive(Clone, Copy, Debug, PartialEq, Eq, Structural)]
pub enum ErrorCode {
    /// The signed output did not verify against the expected cluster and
    /// computation; the computation is aborted.
    AbortedComputation,
    /// No computation cluster is set for the program.
    ClusterNotSet,
    /// The callback names a computation that was never submitted.
    UnknownComputation,
    /// The callback names a computation that is already verified or aborted.
    ComputationResolved,
}

/// Errors of registration and submission.
#[derive(Clone, Copy, Debug, PartialEq, Eq, Structural)]
pub enum PsiError {
    /// Every registry slot is occupied.
    RegistryFull,
    /// An input batch does not have the circuit's fixed length.
    ShapeMismatch,
    /// The confidential-computation provider refused the request.
    ProviderUnavailable,
    /// The computation identifier was used before.
    DuplicateComputation,
}

} // verus!
