//! Structured failure values.
//!
//! Two failure shapes recur through the crate: an engine diagnostic
//! ([`LLVMError`]), which covers ingestion and lookup failures and is always
//! recoverable by the caller, and a one-off target-initialization failure that
//! can only happen while an engine is constructed. Engine construction returns
//! exactly one of the two shapes, never both, as [`BuildError`].

use vstd::prelude::*;

verus! {

/// The reason an engine diagnostic was raised.
#[derive(Clone, Copy, Debug, PartialEq, Eq, Structural)]
pub enum LLVMErrorKind {
    /// A looked-up name is not defined by any ingested module or object.
    SymbolNotFound,
    /// A lookup resolved to the null address; never surfaced as success.
    NullAddress,
    /// An ingested unit defines a name that is already defined.
    DuplicateSymbol,
    /// The engine cannot hold any more symbol definitions.
    CapacityExceeded,
    /// The engine construction was handed an unusable configuration.
    InvalidConfiguration,
    /// A registered object transformer reported failure.
    TransformFailed,
}

/// A diagnostic reported by the engine; the uniform error for construction,
/// ingestion and lookup failures.
#[derive(Clone, Copy, Debug, PartialEq, Eq, Structural)]
pub struct LLVMError {
    /// What went wrong.
    pub kind: LLVMErrorKind,
}

impl LLVMError {
    /// Wraps a failure reason into a diagnostic.
    pub fn new(kind: LLVMErrorKind) -> (r: LLVMError)
        ensures
            r.kind == kind,
    {
        LLVMError { kind }
    }

    /// The human-readable message carried by the diagnostic.
    pub fn get_message(&self) -> &'static str {
        match self.kind {
            LLVMErrorKind::SymbolNotFound => "symbol not found",
            LLVMErrorKind::NullAddress => "symbol resolved to the null address",
            LLVMErrorKind::DuplicateSymbol => "duplicate symbol definition",
            LLVMErrorKind::CapacityExceeded => "engine symbol capacity exceeded",
            LLVMErrorKind::InvalidConfiguration => "engine configuration is unusable",
            LLVMErrorKind::TransformFailed => "object transformer failed",
        }
    }
}

/// The failure of one engine construction attempt: either a structured
/// engine diagnostic or the distinct report that the host's native target
/// support could not be initialized. The two are mutually exclusive.
#[derive(Clone, Copy, Debug, PartialEq, Eq, Structural)]
pub enum BuildError {
    /// The engine reported a structured diagnostic.
    Diagnostic(LLVMError),
    /// The host's native code-generation support could not be initialized.
    TargetInitialization,
}

impl BuildError {
    /// The human-readable message carried by the failure.
    pub fn get_message(&self) -> &'static str {
        match self {
            BuildError::Diagnostic(e) => e.get_message(),
            BuildError::TargetInitialization => "native target initialization failed",
        }
    }
}

} // verus!
