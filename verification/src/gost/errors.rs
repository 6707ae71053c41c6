//! Error types for the gost-engine wrapper.

use crate::foreign::{debug_form, debug_text};
use crate::text::cat2;
use vstd::prelude::*;

verus! {

/// Errors raised while attempting to load and pin the gost-engine.
#[derive(Debug)]
pub enum GostEngineError {
    /// No engine path is configured: nothing may be loaded from an inherited
    /// search path.
    PathNotConfigured,
    /// The configured engine path does not exist or is not a regular file.
    PathMissing(String),
    /// The engine could not be located by libcrypto.
    NotAvailable(String),
    /// The engine could not be dynamically loaded by libcrypto.
    LoadFailed(String),
    /// The engine loaded but could not be pinned as the default for GOST
    /// methods.
    SetDefaultFailed(String),
    /// A required GOST digest could not be resolved after the engine was
    /// (allegedly) loaded.
    DigestUnavailable {
        /// Symbolic name of the digest, e.g. `"md_gost12_256"`.
        name: String,
    },
}

impl GostEngineError {
    /// The text shown for the error.
    pub open spec fn message_text(&self) -> Seq<char> {
        match self {
            GostEngineError::PathNotConfigured => "gost-engine path is not configured"@,
            GostEngineError::PathMissing(x) => "gost-engine path is missing or not a regular file: "@ + debug_form(x@),
            GostEngineError::NotAvailable(x) => "gost-engine is not available: "@ + x@,
            GostEngineError::LoadFailed(x) => "gost-engine load failed: "@ + x@,
            GostEngineError::SetDefaultFailed(x) => "gost-engine set_default failed: "@ + x@,
            GostEngineError::DigestUnavailable { name } => "gost digest unavailable: "@ + name@,
        }
    }

    /// The text shown for the error.
    pub fn message(&self) -> (r: String)
        ensures
            r@ == self.message_text(),
    {
        match self {
            GostEngineError::PathNotConfigured => "gost-engine path is not configured".to_owned(),
            GostEngineError::PathMissing(x) => cat2("gost-engine path is missing or not a regular file: ", debug_text(x.as_str()).as_str()),
            GostEngineError::NotAvailable(x) => cat2("gost-engine is not available: ", x.as_str()),
            GostEngineError::LoadFailed(x) => cat2("gost-engine load failed: ", x.as_str()),
            GostEngineError::SetDefaultFailed(x) => cat2("gost-engine set_default failed: ", x.as_str()),
            GostEngineError::DigestUnavailable { name } => cat2("gost digest unavailable: ", name.as_str()),
        }
    }
}

impl GostEngineError {
    /// The same error again.
    pub fn duplicate(&self) -> (r: GostEngineError)
        ensures
            r == *self,
    {
        match self {
            GostEngineError::PathNotConfigured => GostEngineError::PathNotConfigured,
            GostEngineError::PathMissing(x) => GostEngineError::PathMissing(x.clone()),
            GostEngineError::NotAvailable(x) => GostEngineError::NotAvailable(x.clone()),
            GostEngineError::LoadFailed(x) => GostEngineError::LoadFailed(x.clone()),
            GostEngineError::SetDefaultFailed(x) => GostEngineError::SetDefaultFailed(x.clone()),
            GostEngineError::DigestUnavailable { name } => GostEngineError::DigestUnavailable {
                name: name.clone(),
            },
        }
    }

    /// The error for a digest of the given name.
    pub fn digest_unavailable(name: &str) -> (r: GostEngineError)
        ensures
            r matches GostEngineError::DigestUnavailable { name: n } && n@ == name@,
    {
        GostEngineError::DigestUnavailable { name: name.to_owned() }
    }
}

} // verus!
