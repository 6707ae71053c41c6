//! Importing an enrollment package.
//!
//! A package brings a device its per-host identity together with its tags, its role base and,
//! where it has one, a revocation list. It is trusted in one of two ways: by a signed manifest, or
//! by the permissions of the medium it came on.
//!
//! The files of the package and of the device are read and written outside this library. What is
//! decided here is what each read means, what is to be done next, and how a failed import is
//! undone.

pub mod audit;
pub mod codes;
pub mod history;
pub mod import;
pub mod install;
pub mod transaction;

pub use crate::enrollment::import::{
    EnrollmentPackage, ImportError, ImportMode, ImportOutcome, InstallPaths, DEFAULT_CRL_PATH,
    DEFAULT_P12_PATH, MAX_CRL_BYTES, MAX_P12_BYTES,
};
