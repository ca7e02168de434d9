//! Error taxonomy for component operations.
//!
//! Every error here is locally recoverable; none is a panic path.

use vstd::prelude::*;

verus! {

/// Errors that can occur during component operations.
#[derive(Debug)]
pub enum MorpheusError {
    /// Component failed to compile.
    CompilationError(String),
    /// Component failed to load.
    LoadError(String),
    /// Component violated permissions.
    PermissionDenied(String),
    /// Invalid component state.
    InvalidState(String),
    /// Serialization or deserialization failed; carries the reported reason.
    SerializationError(String),
    /// Generic error.
    Other(String),
}

/// The rendered message of an error: a fixed prefix naming the failure,
/// followed by the carried detail.
pub open spec fn spec_error_message(e: MorpheusError) -> Seq<char> {
    match e {
        MorpheusError::CompilationError(d) => "Compilation failed: "@ + d@,
        MorpheusError::LoadError(d) => "Failed to load component: "@ + d@,
        MorpheusError::PermissionDenied(d) => "Permission denied: "@ + d@,
        MorpheusError::InvalidState(d) => "Invalid state: "@ + d@,
        MorpheusError::SerializationError(d) => "Serialization error: "@ + d@,
        MorpheusError::Other(d) => d@,
    }
}

impl MorpheusError {
    /// Render the error as one line of text.
    pub fn message(&self) -> (r: String)
        ensures
            r@ == spec_error_message(*self),
    {
        match self {
            MorpheusError::CompilationError(d) => String::from_str(
                "Compilation failed: ",
            ).concat(d.as_str()),
            MorpheusError::LoadError(d) => String::from_str(
                "Failed to load component: ",
            ).concat(d.as_str()),
            MorpheusError::PermissionDenied(d) => String::from_str(
                "Permission denied: ",
            ).concat(d.as_str()),
            MorpheusError::InvalidState(d) => String::from_str("Invalid state: ").concat(
                d.as_str(),
            ),
            MorpheusError::SerializationError(d) => String::from_str(
                "Serialization error: ",
            ).concat(d.as_str()),
            MorpheusError::Other(d) => d.clone(),
        }
    }
}

/// Result of an operation that can fail with a [`MorpheusError`].
pub type MorpheusResult<T> = Result<T, MorpheusError>;

} // verus!
