//! Talking to the monitor: what its replies mean, and what a failure does.

pub mod client;
pub mod failmode;

pub use client::{ActiveSessionReply, ConnectPerCall, MonitorClientFactory};
pub use failmode::{FailModeWrapper, MonitorClient, MonitorFailMode};
