//! Log levels and syslog facilities.

use crate::error::Error;
use crate::text::{ascii_lower, cat2, str_eq, to_ascii_lower};
use vstd::prelude::*;

verus! {

/// Log level.
#[derive(Debug, Clone, Copy, PartialEq, Eq, Structural)]
pub enum LogLevel {
    /// Trace.
    Trace,
    /// Debug.
    Debug,
    /// Info.
    Info,
    /// Warn.
    Warn,
    /// Error.
    Error,
}

/// The level that a name selects, whatever its ASCII case; `warning` is `warn`.
pub open spec fn level_named(s: Seq<char>) -> Option<LogLevel> {
    let l = ascii_lower(s);
    if l == "trace"@ {
        Some(LogLevel::Trace)
    } else if l == "debug"@ {
        Some(LogLevel::Debug)
    } else if l == "info"@ {
        Some(LogLevel::Info)
    } else if l == "warn"@ || l == "warning"@ {
        Some(LogLevel::Warn)
    } else if l == "error"@ {
        Some(LogLevel::Error)
    } else {
        None
    }
}

impl LogLevel {
    /// Canonical lower-case name.
    pub open spec fn name(self) -> Seq<char> {
        match self {
            LogLevel::Trace => "trace"@,
            LogLevel::Debug => "debug"@,
            LogLevel::Info => "info"@,
            LogLevel::Warn => "warn"@,
            LogLevel::Error => "error"@,
        }
    }

    /// Canonical lower-case name, suitable as a filter directive.
    pub fn as_str(self) -> (r: &'static str)
        ensures
            r@ == self.name(),
    {
        match self {
            LogLevel::Trace => "trace",
            LogLevel::Debug => "debug",
            LogLevel::Info => "info",
            LogLevel::Warn => "warn",
            LogLevel::Error => "error",
        }
    }

    /// Reads a configured level.
    pub fn from_str(s: &str) -> (r: Result<LogLevel, Error>)
        ensures
            r matches Ok(l) ==> level_named(s@) == Some(l),
            r matches Err(e) ==> level_named(s@) is None && e.is_invalid(
                "invalid log level: "@ + s@,
            ),
    {
        let l = to_ascii_lower(s);
        let l = l.as_str();
        if str_eq(l, "trace") {
            Ok(LogLevel::Trace)
        } else if str_eq(l, "debug") {
            Ok(LogLevel::Debug)
        } else if str_eq(l, "info") {
            Ok(LogLevel::Info)
        } else if str_eq(l, "warn") || str_eq(l, "warning") {
            Ok(LogLevel::Warn)
        } else if str_eq(l, "error") {
            Ok(LogLevel::Error)
        } else {
            Err(Error::ConfigInvalid { reason: cat2("invalid log level: ", s) })
        }
    }
}

/// Syslog facility. Only the name in the deprecated `[logging].syslog_facility` key is
/// checked; nothing applies it.
#[derive(Debug, Clone, Copy, PartialEq, Eq, Structural)]
pub enum SyslogFacility {
    /// auth.
    Auth,
    /// authpriv.
    Authpriv,
    /// user.
    User,
    /// daemon.
    Daemon,
}

/// The facility that a name selects, whatever its ASCII case.
pub open spec fn facility_named(s: Seq<char>) -> Option<SyslogFacility> {
    let l = ascii_lower(s);
    if l == "auth"@ {
        Some(SyslogFacility::Auth)
    } else if l == "authpriv"@ {
        Some(SyslogFacility::Authpriv)
    } else if l == "user"@ {
        Some(SyslogFacility::User)
    } else if l == "daemon"@ {
        Some(SyslogFacility::Daemon)
    } else {
        None
    }
}

impl SyslogFacility {
    /// Reads a configured facility.
    pub fn from_str(s: &str) -> (r: Result<SyslogFacility, Error>)
        ensures
            r matches Ok(f) ==> facility_named(s@) == Some(f),
            r matches Err(e) ==> facility_named(s@) is None && e.is_invalid(
                "invalid syslog facility: "@ + s@,
            ),
    {
        let l = to_ascii_lower(s);
        let l = l.as_str();
        if str_eq(l, "auth") {
            Ok(SyslogFacility::Auth)
        } else if str_eq(l, "authpriv") {
            Ok(SyslogFacility::Authpriv)
        } else if str_eq(l, "user") {
            Ok(SyslogFacility::User)
        } else if str_eq(l, "daemon") {
            Ok(SyslogFacility::Daemon)
        } else {
            Err(Error::ConfigInvalid { reason: cat2("invalid syslog facility: ", s) })
        }
    }
}

/// The canonical name of every level reads back as that level.
pub proof fn level_name_round_trips(l: LogLevel)
    ensures
        level_named(l.name()) == Some(l),
{
    reveal_strlit("trace");
    reveal_strlit("debug");
    reveal_strlit("info");
    reveal_strlit("warn");
    reveal_strlit("warning");
    reveal_strlit("error");
    assert("trace"@.len() == 5);
    assert("debug"@.len() == 5);
    assert("info"@.len() == 4);
    assert("warn"@.len() == 4);
    assert("warning"@.len() == 7);
    assert("error"@.len() == 5);
    assert("trace"@[0] == 't');
    assert("debug"@[0] == 'd');
    assert("error"@[0] == 'e');
    assert("info"@[0] == 'i');
    assert("warn"@[0] == 'w');
    assert(ascii_lower(l.name()) =~= l.name());
}

/// A level goes by its name in any case; `warning` is another name of one, and there are no others.
pub proof fn levels_go_by_their_names(s: Seq<char>)
    ensures
        ascii_lower(s) == "trace"@ ==> level_named(s) == Some(LogLevel::Trace),
        ascii_lower(s) == "debug"@ ==> level_named(s) == Some(LogLevel::Debug),
        ascii_lower(s) == "info"@ ==> level_named(s) == Some(LogLevel::Info),
        ascii_lower(s) == "warn"@ || ascii_lower(s) == "warning"@ ==> level_named(s) == Some(
            LogLevel::Warn,
        ),
        ascii_lower(s) == "error"@ ==> level_named(s) == Some(LogLevel::Error),
        level_named(s) is Some ==> ascii_lower(s) == "trace"@ || ascii_lower(s) == "debug"@
            || ascii_lower(s) == "info"@ || ascii_lower(s) == "warn"@ || ascii_lower(s)
            == "warning"@ || ascii_lower(s) == "error"@,
{
    reveal_strlit("trace");
    reveal_strlit("debug");
    reveal_strlit("info");
    reveal_strlit("warn");
    reveal_strlit("warning");
    reveal_strlit("error");
    assert("trace"@.len() == 5);
    assert("debug"@.len() == 5);
    assert("info"@.len() == 4);
    assert("warn"@.len() == 4);
    assert("warning"@.len() == 7);
    assert("error"@.len() == 5);
    assert("trace"@[0] == 't');
    assert("debug"@[0] == 'd');
    assert("error"@[0] == 'e');
    assert("info"@[0] == 'i');
    assert("warn"@[0] == 'w');
}

/// A facility goes by its name in any case, and there are four.
pub proof fn facilities_go_by_their_names(s: Seq<char>)
    ensures
        ascii_lower(s) == "auth"@ ==> facility_named(s) == Some(SyslogFacility::Auth),
        ascii_lower(s) == "authpriv"@ ==> facility_named(s) == Some(SyslogFacility::Authpriv),
        ascii_lower(s) == "user"@ ==> facility_named(s) == Some(SyslogFacility::User),
        ascii_lower(s) == "daemon"@ ==> facility_named(s) == Some(SyslogFacility::Daemon),
        facility_named(s) is Some ==> ascii_lower(s) == "auth"@ || ascii_lower(s) == "authpriv"@
            || ascii_lower(s) == "user"@ || ascii_lower(s) == "daemon"@,
{
    reveal_strlit("auth");
    reveal_strlit("authpriv");
    reveal_strlit("user");
    reveal_strlit("daemon");
    assert("auth"@.len() == 4);
    assert("authpriv"@.len() == 8);
    assert("user"@.len() == 4);
    assert("daemon"@.len() == 6);
    assert("auth"@[0] == 'a');
    assert("user"@[0] == 'u');
}

} // verus!
