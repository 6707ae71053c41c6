//! Mandatory access control: integrity labels, the backend and the session policy.

pub mod audit;
pub mod backend;
pub mod label;
pub mod orchestrator;

pub use backend::{MacBackend, MacError, MacRuntime, StubBackend};
pub use label::IntegrityLabel;
