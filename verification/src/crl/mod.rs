//! Certificate revocation lists.

pub mod store;

pub use store::{check_revocation, crl_status_for, Crl, CrlCoverage, CrlStore, RevocationConfig};
