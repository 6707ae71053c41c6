//! Hook execution results.
//!
//! A hook that ran to completion, or to its deadline, yields a [`HookOutcome`]; its exit code
//! and whether it was killed are for the failure policy to judge. A [`HookError`] says that
//! the hook could not be run, or that the policy turned its outcome into a failure.

use crate::foreign::{debug_form, debug_text};
use crate::hooks::placeholder::PlaceholderVar;
use crate::hooks::stage::HookStage;
use crate::text::{cat2, cat3, cat4, dec, dec_int, decimal, decimal_i64};
use crate::time::Duration;
use vstd::prelude::*;

verus! {

/// A completed hook execution.
#[derive(Debug, Clone, PartialEq, Eq)]
pub struct HookOutcome {
    /// Stage that produced this outcome.
    pub stage: HookStage,
    /// The command argv that was executed.
    pub command: Vec<String>,
    /// Exit code; for a child that a signal ended, 128 plus its number.
    pub exit_code: i32,
    /// Whether the child was killed because its deadline expired.
    pub killed_by_timeout: bool,
    /// Wall-clock duration, from the fork to the end of the child.
    pub duration: Duration,
    /// Configured timeout.
    pub timeout: Duration,
    /// Number of stdout lines forwarded.
    pub stdout_lines: u64,
    /// Number of stderr lines forwarded.
    pub stderr_lines: u64,
}

/// Hook execution failures.
#[derive(Debug)]
pub enum HookError {
    /// The configured command path is missing, not executable, or otherwise
    /// unusable.
    CommandUnusable {
        /// The path the executor attempted to run.
        path: String,
    },
    /// The command path failed the privileged-execution ownership and integrity
    /// walk: it is refused.
    CommandUnsafe(String),
    /// Looking up the requested PAM user failed.
    UserResolution {
        /// Username that was looked up.
        user: String,
        /// Text of the underlying error.
        source: String,
    },
    /// A placeholder referenced by a template has no value.
    UnresolvedVar {
        /// The placeholder that was missing.
        var: PlaceholderVar,
    },
    /// A pipe could not be created.
    Pipe(String),
    /// The process could not be forked.
    Fork(String),
    /// Waiting for the child, or signalling it, failed.
    Wait(String),
    /// The hook hit its deadline and was killed.
    Timeout {
        /// Configured timeout in milliseconds.
        timeout_ms: u64,
    },
    /// The hook exited with a non-zero status.
    NonZeroExit {
        /// Exit code.
        exit_code: i32,
    },
    /// The hook was terminated by a signal that the executor did not send.
    Signal {
        /// Signal number.
        signal: i32,
    },
    /// The child could not be set up, or a check before the fork failed that has
    /// no better fit.
    ChildSetup {
        /// Human-readable cause.
        message: String,
    },
    /// I/O error on the parent's side.
    Io(String),
    /// A value for the environment holds a control character.
    EnvValueRejected {
        /// Name of the variable whose value was rejected.
        var: String,
        /// Why.
        reason: &'static str,
    },
}

impl HookError {
    /// The text shown for the error.
    pub open spec fn message_text(&self) -> Seq<char> {
        match self {
            HookError::CommandUnusable { path } => "hook command unusable: "@ + debug_form(path@),
            HookError::CommandUnsafe(x) => "hook command failed path validation: "@ + x@,
            HookError::UserResolution { user, source } => "user lookup failed for "@ + debug_form(user@) + ": "@ + source@,
            HookError::UnresolvedVar { var } => "hook variable "@ + var.variant() + " is unresolved at this stage"@,
            HookError::Pipe(x) => "pipe creation failed: "@ + x@,
            HookError::Fork(x) => "fork failed: "@ + x@,
            HookError::Wait(x) => "waitpid/kill failed: "@ + x@,
            HookError::Timeout { timeout_ms } => "hook timed out after "@ + dec(timeout_ms as nat) + " ms"@,
            HookError::NonZeroExit { exit_code } => "hook exited with non-zero status "@ + dec_int(exit_code as int),
            HookError::Signal { signal } => "hook killed by signal "@ + dec_int(signal as int),
            HookError::ChildSetup { message } => "child setup failed: "@ + message@,
            HookError::Io(x) => "io error: "@ + x@,
            HookError::EnvValueRejected { var, reason } => "env value rejected for "@ + debug_form(var@) + ": "@ + reason@,
        }
    }

    /// The text shown for the error.
    pub fn message(&self) -> (r: String)
        ensures
            r@ == self.message_text(),
    {
        match self {
            HookError::CommandUnusable { path } => cat2("hook command unusable: ", debug_text(path.as_str()).as_str()),
            HookError::CommandUnsafe(x) => cat2("hook command failed path validation: ", x.as_str()),
            HookError::UserResolution { user, source } => cat4("user lookup failed for ", debug_text(user.as_str()).as_str(), ": ", source.as_str()),
            HookError::UnresolvedVar { var } => cat3("hook variable ", var.variant_name(), " is unresolved at this stage"),
            HookError::Pipe(x) => cat2("pipe creation failed: ", x.as_str()),
            HookError::Fork(x) => cat2("fork failed: ", x.as_str()),
            HookError::Wait(x) => cat2("waitpid/kill failed: ", x.as_str()),
            HookError::Timeout { timeout_ms } => cat3("hook timed out after ", decimal(*timeout_ms as u64).as_str(), " ms"),
            HookError::NonZeroExit { exit_code } => cat2("hook exited with non-zero status ", decimal_i64(*exit_code as i64).as_str()),
            HookError::Signal { signal } => cat2("hook killed by signal ", decimal_i64(*signal as i64).as_str()),
            HookError::ChildSetup { message } => cat2("child setup failed: ", message.as_str()),
            HookError::Io(x) => cat2("io error: ", x.as_str()),
            HookError::EnvValueRejected { var, reason } => cat4("env value rejected for ", debug_text(var.as_str()).as_str(), ": ", reason),
        }
    }
}

} // verus!
