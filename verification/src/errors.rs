use vstd::prelude::*;

verus! {

/// Errors arising while locating a bundle or loading its metadata.
#[derive(Debug, Clone)]
pub enum BundleError {
    /// An expected file is absent.
    NotFound(String),
    /// Content is present but fails a structural parse, including wrapped
    /// lower-level causes surfaced through configuration loading.
    InvalidFormat(String),
    /// An underlying filesystem operation failed.
    IoError(String),
    /// The metadata was requested before any successful load.
    NotLoaded,
    /// A second load was attempted after a first one succeeded.
    AlreadyLoaded,
}

/// A structural validity report, produced fresh on every validation call.
#[derive(Debug, Clone)]
pub struct BundleValidationResult {
    pub is_valid: bool,
    pub message: String,
    /// An open, appendable channel for future structural checks.
    pub warnings: Vec<String>,
}

/// Errors of the validation layer; `ConfigLoadError` wraps any lower-layer
/// failure that reaches the validation boundary.
#[derive(Debug, Clone)]
pub enum BundleValidationError {
    MissingField(String),
    InvalidFormat(String),
    ConfigLoadError(String),
}

} // verus!
