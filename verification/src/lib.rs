//! The core of Tessera: certificate login on offline devices.
//!
//! Configuration is validated here; hooks are checked, planned and supervised; the identity of the
//! host is resolved and held against certificates; revocation lists are judged; integrity labels
//! are bounded; and enrollment packages are imported so that a device is never left between two
//! states.
//!
//! Nothing here touches files, processes or sockets. Where the outside world has to act, a function
//! says what is to be done and another takes what came of it.

pub mod audit;
pub mod collections;
pub mod config;
pub mod crl;
pub mod enrollment;
pub mod error;
pub mod foreign;
pub mod fs_mode;
pub mod gost;
pub mod hooks;
pub mod host_binding;
pub mod host_identity;
pub mod ipc;
pub mod logging;
pub mod mac;
pub mod mapping;
pub mod pam_data;
pub mod text;
pub mod time;
pub mod x509;

pub use config::{RawConfig, ValidatedConfig};
pub use enrollment::{EnrollmentPackage, ImportError, ImportMode, ImportOutcome, InstallPaths};
pub use error::{Error, SelfCheckError};
pub use logging::{LogLevel, SyslogFacility};
pub use x509::SignatureAlg;
