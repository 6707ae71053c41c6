//! The MAC backend: what a host must provide, and a stub that provides nothing.

use crate::mac::label::IntegrityLabel;
use crate::text::{cat2, cat4, dec_int, decimal_i64};
use vstd::prelude::*;

verus! {

/// Errors of a [`MacBackend`].
#[derive(Debug)]
pub enum MacError {
    /// A call into the kernel library returned a non-zero code.
    Parsec {
        /// Name of the operation that failed.
        op: String,
        /// Its return code.
        rc: i32,
    },
    /// The user has no entry in the integrity database.
    UserUnknown {
        /// Login name that could not be resolved.
        user: String,
    },
    /// The subsystem is not available on this host.
    Unavailable,
    /// I/O error.
    Io(String),
    /// A label or a configuration line could not be read.
    TextFormat(String),
    /// The process lacks the capability to change labels.
    CapMissing,
}

impl MacError {
    /// The text shown for the error.
    pub open spec fn message_text(&self) -> Seq<char> {
        match self {
            MacError::Parsec { op, rc } => "parsec error: op="@ + op@ + " rc="@ + dec_int(
                *rc as int,
            ),
            MacError::UserUnknown { user } => "user unknown in mic db: "@ + user@,
            MacError::Unavailable => "MAC subsystem unavailable"@,
            MacError::Io(x) => "io error: "@ + x@,
            MacError::TextFormat(x) => "text format error: "@ + x@,
            MacError::CapMissing => "missing CHMAC capability"@,
        }
    }

    /// The text shown for the error.
    pub fn message(&self) -> (r: String)
        ensures
            r@ == self.message_text(),
    {
        match self {
            MacError::Parsec { op, rc } => cat4(
                "parsec error: op=",
                op.as_str(),
                " rc=",
                decimal_i64(*rc as i64).as_str(),
            ),
            MacError::UserUnknown { user } => cat2("user unknown in mic db: ", user.as_str()),
            MacError::Unavailable => "MAC subsystem unavailable".to_owned(),
            MacError::Io(x) => cat2("io error: ", x.as_str()),
            MacError::TextFormat(x) => cat2("text format error: ", x.as_str()),
            MacError::CapMissing => "missing CHMAC capability".to_owned(),
        }
    }
}

/// State of the backend on this host.
#[derive(Debug, Clone, Copy, PartialEq, Eq, Structural)]
pub enum MacRuntime {
    /// Operational.
    Active,
    /// Present but disabled by configuration.
    Disabled,
    /// Not available: no kernel support or no library.
    Unavailable,
}

impl MacRuntime {
    /// Name of the variant, as `Debug` prints it.
    pub open spec fn variant(self) -> Seq<char> {
        match self {
            MacRuntime::Active => "Active"@,
            MacRuntime::Disabled => "Disabled"@,
            MacRuntime::Unavailable => "Unavailable"@,
        }
    }

    /// Name of the variant, as `Debug` prints it.
    pub fn variant_name(self) -> (r: &'static str)
        ensures
            r@ == self.variant(),
    {
        match self {
            MacRuntime::Active => "Active",
            MacRuntime::Disabled => "Disabled",
            MacRuntime::Unavailable => "Unavailable",
        }
    }
}

/// One call of a backend, and its answer.
pub ghost enum BackendCall {
    /// The host was probed.
    Probe(MacRuntime),
    /// The maximum label of a user was asked for.
    UserMnkc(Seq<char>, Result<IntegrityLabel, MacError>),
    /// A label was applied to the current process.
    ApplySession(IntegrityLabel, Result<(), MacError>),
    /// The label of a file was asked for.
    FileLabel(Seq<char>, Result<IntegrityLabel, MacError>),
    /// A file was labelled.
    SetFileLabel(Seq<char>, IntegrityLabel, bool, Result<(), MacError>),
    /// An open file was labelled.
    SetFdLabel(i32, IntegrityLabel, bool, Result<(), MacError>),
}

/// What a host provides for mandatory integrity. Nothing is assumed of what an implementation
/// returns; only that each call is one more call.
pub trait MacBackend {
    /// The calls so far, oldest first. An implementation says which they are.
    closed spec fn calls(&self) -> Seq<BackendCall> {
        arbitrary()
    }

    /// Probes the host for support.
    fn probe(&mut self) -> (r: MacRuntime)
        ensures
            final(self).calls() == old(self).calls().push(BackendCall::Probe(r)),
    ;

    /// The maximum label allowed for a user.
    fn get_user_mnkc(&mut self, user: &str) -> (r: Result<IntegrityLabel, MacError>)
        ensures
            final(self).calls() == old(self).calls().push(BackendCall::UserMnkc(user@, r)),
    ;

    /// Applies a label to the current process.
    fn apply_session(&mut self, label: IntegrityLabel) -> (r: Result<(), MacError>)
        ensures
            final(self).calls() == old(self).calls().push(BackendCall::ApplySession(label, r)),
    ;

    /// The label of a file.
    fn get_file_label(&mut self, path: &str) -> (r: Result<IntegrityLabel, MacError>)
        ensures
            final(self).calls() == old(self).calls().push(BackendCall::FileLabel(path@, r)),
    ;

    /// Labels a file; with `irelax`, in write-down mode where that is supported.
    fn set_file_label(&mut self, path: &str, label: IntegrityLabel, irelax: bool) -> (r: Result<
        (),
        MacError,
    >)
        ensures
            final(self).calls() == old(self).calls().push(
                BackendCall::SetFileLabel(path@, label, irelax, r),
            ),
    ;

    /// Labels an open file.
    fn set_fd_label(&mut self, fd: i32, label: IntegrityLabel, irelax: bool) -> (r: Result<
        (),
        MacError,
    >)
        ensures
            final(self).calls() == old(self).calls().push(
                BackendCall::SetFdLabel(fd, label, irelax, r),
            ),
    ;
}

/// A backend for hosts without support: changes succeed without effect, lookups are permissive.
pub struct StubBackend {
    past: Ghost<Seq<BackendCall>>,
}

impl StubBackend {
    /// A stub backend.
    pub fn new() -> (r: StubBackend)
        ensures
            r.calls() == Seq::<BackendCall>::empty(),
    {
        StubBackend { past: Ghost(Seq::empty()) }
    }
}

impl Default for StubBackend {
    fn default() -> (r: StubBackend)
        ensures
            r.calls() == Seq::<BackendCall>::empty(),
    {
        StubBackend::new()
    }
}

impl MacBackend for StubBackend {
    closed spec fn calls(&self) -> Seq<BackendCall> {
        self.past@
    }

    fn probe(&mut self) -> (r: MacRuntime)
        ensures
            r == MacRuntime::Unavailable,
    {
        let r = MacRuntime::Unavailable;
        proof {
            self.past@ = self.past@.push(BackendCall::Probe(r));
        }
        r
    }

    fn get_user_mnkc(&mut self, user: &str) -> (r: Result<IntegrityLabel, MacError>)
        ensures
            r == Ok::<IntegrityLabel, MacError>(
                IntegrityLabel { level: 127, categories: u64::MAX },
            ),
    {
        let r: Result<IntegrityLabel, MacError> = Ok(
            IntegrityLabel { level: IntegrityLabel::MAX_LEVEL, categories: u64::MAX },
        );
        proof {
            self.past@ = self.past@.push(BackendCall::UserMnkc(user@, r));
        }
        r
    }

    fn apply_session(&mut self, label: IntegrityLabel) -> (r: Result<(), MacError>)
        ensures
            r is Ok,
    {
        let r: Result<(), MacError> = Ok(());
        proof {
            self.past@ = self.past@.push(BackendCall::ApplySession(label, r));
        }
        r
    }

    fn get_file_label(&mut self, path: &str) -> (r: Result<IntegrityLabel, MacError>)
        ensures
            r == Ok::<IntegrityLabel, MacError>(IntegrityLabel { level: 0, categories: 0 }),
    {
        let r: Result<IntegrityLabel, MacError> = Ok(IntegrityLabel { level: 0, categories: 0 });
        proof {
            self.past@ = self.past@.push(BackendCall::FileLabel(path@, r));
        }
        r
    }

    fn set_file_label(&mut self, path: &str, label: IntegrityLabel, irelax: bool) -> (r: Result<
        (),
        MacError,
    >)
        ensures
            r is Ok,
    {
        let r: Result<(), MacError> = Ok(());
        proof {
            self.past@ = self.past@.push(BackendCall::SetFileLabel(path@, label, irelax, r));
        }
        r
    }

    fn set_fd_label(&mut self, fd: i32, label: IntegrityLabel, irelax: bool) -> (r: Result<
        (),
        MacError,
    >)
        ensures
            r is Ok,
    {
        let r: Result<(), MacError> = Ok(());
        proof {
            self.past@ = self.past@.push(BackendCall::SetFdLabel(fd, label, irelax, r));
        }
        r
    }
}

} // verus!
