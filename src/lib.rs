//! Private contact discovery: an oblivious matching circuit over fixed-size
//! batches of secret-shared identifiers, an append-only registry of identifiers,
//! and the lifecycle of a confidential computation request.

pub mod circuit;
pub mod error;
pub mod registry;
pub mod lifecycle;
pub mod request;

pub use circuit::{
    compute_match_mask, perform_psi, GlobalRegistry, IntersectionResult, UserContacts,
};
pub use error::{ErrorCode, PsiError};
pub use lifecycle::{
    decode_output, perform_psi_callback, ComputationRecord, ComputationState,
    ComputationTracker, PsiCompleteEvent, SignedOutput,
};
pub use registry::{init_registry, register_user, GlobalState};
pub use request::{discover_contacts, to_arg_builder, Argument};
