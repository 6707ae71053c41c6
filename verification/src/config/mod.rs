//! Configuration: raw and validated layers.

pub mod fault;
pub mod identity;
pub mod load;
pub mod monitor;
pub mod paths;
pub mod raw;
pub mod sections;
pub mod token;

pub mod trust;
pub mod validated;

pub use raw::RawConfig;
pub use validated::ValidatedConfig;
