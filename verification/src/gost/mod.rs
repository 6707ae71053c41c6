//! GOST engine: loading policy, digests and errors.

pub mod algorithms;
pub mod engine;
pub mod errors;

pub use errors::GostEngineError;
