//! Validation of the `[monitor]` section.

use crate::config::fault::{fault_of, invalid, ConfigFault};
use crate::config::identity::clone_opt;
use crate::config::raw::{RawConfig, RawMonitor, RawMonitorFailMode, RawOnUsbRemoved};
use crate::config::sections::{relative_fault, require_absolute, text_or, value_or};
use crate::config::validated::{MonitorFailMode, MonitorSection, OnUsbRemoved};
use crate::error::Error;
use crate::foreign::{debug_form, debug_text};
use crate::text::{cat3, dec, decimal, str_eq};
use crate::time::Duration;
use vstd::prelude::*;

verus! {

/// Socket of the monitor where none is configured.
pub const DEFAULT_MONITORD_SOCKET: &'static str = "/run/tessera/monitord.sock";

/// State file of the monitor where none is configured.
pub const DEFAULT_MONITORD_STATE_FILE: &'static str = "/run/tessera/sessions.json";

/// Timeout of one exchange, in milliseconds, where none is configured.
pub const DEFAULT_MONITORD_TIMEOUT_MS: u64 = 2000;

/// Shortest timeout of one exchange, in milliseconds.
pub const MONITORD_TIMEOUT_MS_MIN: u64 = 100;

/// Longest timeout of one exchange, in milliseconds.
pub const MONITORD_TIMEOUT_MS_MAX: u64 = 60000;

/// Idle timeout, in seconds, where none is configured.
pub const DEFAULT_MONITORD_IDLE_TIMEOUT_SECS: u64 = 30;

/// Shortest idle timeout, in seconds.
pub const MONITORD_IDLE_TIMEOUT_MIN: u64 = 1;

/// Longest idle timeout, in seconds.
pub const MONITORD_IDLE_TIMEOUT_MAX: u64 = 3600;

/// Concurrent connections where none are configured.
pub const DEFAULT_MONITORD_MAX_CONNS: u32 = 64;

/// Most concurrent connections.
pub const MONITORD_MAX_CONNS_CAP: u32 = 4096;

/// Longest grace after a removal, in seconds.
pub const MONITORD_USB_REMOVED_GRACE_MAX: u64 = 600;

/// Longest grace after a suspend, in seconds.
pub const MONITORD_SUSPEND_GRACE_MAX: u64 = 600;

/// The action on a removal.
pub open spec fn removal_action(a: RawOnUsbRemoved) -> OnUsbRemoved {
    match a {
        RawOnUsbRemoved::Lock => OnUsbRemoved::Lock,
        RawOnUsbRemoved::Logout => OnUsbRemoved::Logout,
        RawOnUsbRemoved::Hook => OnUsbRemoved::Hook,
        RawOnUsbRemoved::Shutdown => OnUsbRemoved::Shutdown,
    }
}

/// The action on a removal.
pub fn on_usb_removed_of(a: RawOnUsbRemoved) -> (r: OnUsbRemoved)
    ensures
        r == removal_action(a),
{
    match a {
        RawOnUsbRemoved::Lock => OnUsbRemoved::Lock,
        RawOnUsbRemoved::Logout => OnUsbRemoved::Logout,
        RawOnUsbRemoved::Hook => OnUsbRemoved::Hook,
        RawOnUsbRemoved::Shutdown => OnUsbRemoved::Shutdown,
    }
}

/// The failure mode of the deprecated top-level key.
pub open spec fn legacy_fail_mode(m: RawMonitorFailMode) -> MonitorFailMode {
    match m {
        RawMonitorFailMode::Strict => MonitorFailMode::Strict,
        RawMonitorFailMode::Permissive => MonitorFailMode::Permissive,
    }
}

/// The failure mode of the deprecated top-level key.
pub fn fail_mode_of(m: RawMonitorFailMode) -> (r: MonitorFailMode)
    ensures
        r == legacy_fail_mode(m),
{
    match m {
        RawMonitorFailMode::Strict => MonitorFailMode::Strict,
        RawMonitorFailMode::Permissive => MonitorFailMode::Permissive,
    }
}

/// The failure mode that a name selects.
pub open spec fn fail_mode_named(s: Seq<char>) -> Option<MonitorFailMode> {
    if s == "strict"@ {
        Some(MonitorFailMode::Strict)
    } else if s == "permissive"@ || s == "degraded"@ {
        Some(MonitorFailMode::Permissive)
    } else {
        None
    }
}

/// The failure mode in effect: the section's own, else the top-level one.
pub open spec fn effective_fail_mode(
    own: Option<String>,
    legacy: RawMonitorFailMode,
) -> Option<MonitorFailMode> {
    match own {
        Some(s) => fail_mode_named(s@),
        None => Some(legacy_fail_mode(legacy)),
    }
}

/// The refusal of a number outside its range, with the words around it.
pub open spec fn range_fault(ok: bool, what: Seq<char>, got: nat) -> Option<ConfigFault> {
    if ok {
        None
    } else {
        Some(ConfigFault::Invalid(what + dec(got) + ")"@))
    }
}

fn require_range(ok: bool, what: &str, got: u64) -> (r: Result<(), Error>)
    ensures
        r is Ok <==> ok,
        r matches Err(e) ==> range_fault(ok, what@, got as nat) == Some(fault_of(e)),
{
    if ok {
        Ok(())
    } else {
        Err(invalid(cat3(what, decimal(got).as_str(), ")")))
    }
}

/// Why the path of the removal hook is refused: it is needed for the action `hook`, and would
/// be ignored for any other.
pub open spec fn hook_path_fault(action: OnUsbRemoved, path: Option<String>) -> Option<ConfigFault> {
    match path {
        None => if action == OnUsbRemoved::Hook {
            Some(
                ConfigFault::Invalid(
                    "monitor.on_usb_removed = \"hook\" requires monitor.on_usb_removed_hook_path"@,
                ),
            )
        } else {
            None
        },
        Some(p) => if action == OnUsbRemoved::Hook {
            relative_fault(p@, "monitor.on_usb_removed_hook_path"@)
        } else {
            Some(
                ConfigFault::Invalid(
                    "monitor.on_usb_removed_hook_path is only valid when on_usb_removed = \"hook\""@,
                ),
            )
        },
    }
}

/// The keys of the `[monitor]` section in effect: its own, else the top-level ones, else the
/// defaults.
pub ghost struct MonitorKeys {
    /// Socket.
    pub socket: Seq<char>,
    /// State file.
    pub state_file: Seq<char>,
    /// Timeout of one exchange.
    pub timeout_ms: u64,
    /// Failure mode; `None` where the name is unknown.
    pub fail_mode: Option<MonitorFailMode>,
    /// Action on a removal.
    pub action: OnUsbRemoved,
    /// Grace after a removal.
    pub removed_grace: u64,
    /// Grace after a suspend.
    pub suspend_grace: u64,
    /// Idle timeout.
    pub idle: u64,
    /// Concurrent connections.
    pub conns: u32,
}

/// The keys of the `[monitor]` section in effect.
pub open spec fn monitor_keys(
    top: RawConfig,
    raw: RawMonitor,
    legacy: RawMonitorFailMode,
) -> MonitorKeys {
    MonitorKeys {
        socket: text_or(raw.socket_path, DEFAULT_MONITORD_SOCKET@),
        state_file: text_or(raw.state_file_path, DEFAULT_MONITORD_STATE_FILE@),
        timeout_ms: value_or(raw.timeout_ms, DEFAULT_MONITORD_TIMEOUT_MS),
        fail_mode: effective_fail_mode(raw.fail_mode, legacy),
        action: removal_action(value_or(raw.on_usb_removed, top.on_usb_removed)),
        removed_grace: value_or(raw.usb_removed_grace_seconds, top.usb_removed_grace_seconds),
        suspend_grace: value_or(raw.suspend_grace_seconds, top.suspend_grace_seconds),
        idle: value_or(raw.idle_timeout_seconds, DEFAULT_MONITORD_IDLE_TIMEOUT_SECS),
        conns: value_or(raw.max_concurrent_connections, DEFAULT_MONITORD_MAX_CONNS),
    }
}

/// Why a `[monitor]` section is refused: the first rule that it breaks.
pub open spec fn monitor_fault(
    top: RawConfig,
    raw: RawMonitor,
    legacy: RawMonitorFailMode,
) -> Option<ConfigFault> {
    let k = monitor_keys(top, raw, legacy);
    if relative_fault(k.socket, "monitor.socket_path"@) is Some {
        relative_fault(k.socket, "monitor.socket_path"@)
    } else if relative_fault(k.state_file, "monitor.state_file_path"@) is Some {
        relative_fault(k.state_file, "monitor.state_file_path"@)
    } else if !(MONITORD_TIMEOUT_MS_MIN <= k.timeout_ms <= MONITORD_TIMEOUT_MS_MAX) {
        range_fault(
            false,
            "monitor.timeout_ms must be in 100..=60000 (got "@,
            k.timeout_ms as nat,
        )
    } else if k.fail_mode is None {
        Some(
            ConfigFault::Invalid(
                "monitor.fail_mode must be one of \"strict\", \"permissive\", \"degraded\" (got "@
                    + debug_form(raw.fail_mode->0@) + ")"@,
            ),
        )
    } else if hook_path_fault(k.action, raw.on_usb_removed_hook_path) is Some {
        hook_path_fault(k.action, raw.on_usb_removed_hook_path)
    } else if k.removed_grace > MONITORD_USB_REMOVED_GRACE_MAX {
        range_fault(
            false,
            "monitor.usb_removed_grace_seconds must be <= 600 (got "@,
            k.removed_grace as nat,
        )
    } else if k.suspend_grace > MONITORD_SUSPEND_GRACE_MAX {
        range_fault(
            false,
            "monitor.suspend_grace_seconds must be <= 600 (got "@,
            k.suspend_grace as nat,
        )
    } else if !(MONITORD_IDLE_TIMEOUT_MIN <= k.idle <= MONITORD_IDLE_TIMEOUT_MAX) {
        range_fault(
            false,
            "monitor.idle_timeout_seconds must be in 1..=3600 (got "@,
            k.idle as nat,
        )
    } else if !(1 <= k.conns <= MONITORD_MAX_CONNS_CAP) {
        range_fault(
            false,
            "monitor.max_concurrent_connections must be in 1..=4096 (got "@,
            k.conns as nat,
        )
    } else {
        None
    }
}

/// Whether a section holds the keys in effect.
pub open spec fn monitor_validated(k: MonitorKeys, raw: RawMonitor, s: MonitorSection) -> bool {
    &&& s.socket_path@ == k.socket
    &&& s.timeout == Duration::of_millis(k.timeout_ms)
    &&& k.fail_mode == Some(s.fail_mode)
    &&& s.state_file_path@ == k.state_file
    &&& s.on_usb_removed == k.action
    &&& s.usb_removed_grace == Duration::of_secs(k.removed_grace)
    &&& s.suspend_grace == Duration::of_secs(k.suspend_grace)
    &&& s.on_usb_removed_hook_path == raw.on_usb_removed_hook_path
    &&& s.idle_timeout == Duration::of_secs(k.idle)
    &&& s.max_concurrent_connections == k.conns
}

fn read_fail_mode(own: &Option<String>, legacy: RawMonitorFailMode) -> (r: Result<
    MonitorFailMode,
    Error,
>)
    ensures
        r matches Ok(m) ==> effective_fail_mode(*own, legacy) == Some(m),
        r matches Err(e) ==> effective_fail_mode(*own, legacy) is None && fault_of(e)
            == ConfigFault::Invalid(
            "monitor.fail_mode must be one of \"strict\", \"permissive\", \"degraded\" (got "@
                + debug_form(own->0@) + ")"@,
        ),
{
    match own {
        None => Ok(fail_mode_of(legacy)),
        Some(s) => {
            if str_eq(s.as_str(), "strict") {
                Ok(MonitorFailMode::Strict)
            } else if str_eq(s.as_str(), "permissive") || str_eq(s.as_str(), "degraded") {
                Ok(MonitorFailMode::Permissive)
            } else {
                let shown = debug_text(s.as_str());
                Err(
                    invalid(
                        cat3(
                            "monitor.fail_mode must be one of \"strict\", \"permissive\", \"degraded\" (got ",
                            shown.as_str(),
                            ")",
                        ),
                    ),
                )
            }
        },
    }
}

fn check_hook_path(action: OnUsbRemoved, path: &Option<String>) -> (r: Result<(), Error>)
    ensures
        r is Ok <==> hook_path_fault(action, *path) is None,
        r matches Err(e) ==> hook_path_fault(action, *path) == Some(fault_of(e)),
{
    let hook = matches!(action, OnUsbRemoved::Hook);
    match path {
        None => if hook {
            Err(
                invalid(
                    "monitor.on_usb_removed = \"hook\" requires monitor.on_usb_removed_hook_path".to_owned(),
                ),
            )
        } else {
            Ok(())
        },
        Some(p) => if hook {
            require_absolute(p.as_str(), "monitor.on_usb_removed_hook_path")
        } else {
            Err(
                invalid(
                    "monitor.on_usb_removed_hook_path is only valid when on_usb_removed = \"hook\"".to_owned(),
                ),
            )
        },
    }
}

fn u64_or(v: Option<u64>, default: u64) -> (r: u64)
    ensures
        r == value_or(v, default),
{
    match v {
        Some(x) => x,
        None => default,
    }
}

/// Validate the `[monitor]` section. A key that it leaves out falls back to the top-level key of
/// the same meaning, where there is one, and to its default.
pub fn validate_monitor(
    raw_top: &RawConfig,
    raw: &RawMonitor,
    legacy: RawMonitorFailMode,
) -> (r: Result<MonitorSection, Error>)
    ensures
        r matches Ok(s) ==> monitor_fault(*raw_top, *raw, legacy) is None && monitor_validated(
            monitor_keys(*raw_top, *raw, legacy),
            *raw,
            s,
        ),
        r matches Err(e) ==> monitor_fault(*raw_top, *raw, legacy) == Some(fault_of(e)),
{
    let socket_path = match &raw.socket_path {
        Some(p) => p.clone(),
        None => DEFAULT_MONITORD_SOCKET.to_owned(),
    };
    match require_absolute(socket_path.as_str(), "monitor.socket_path") {
        Ok(()) => {},
        Err(e) => {
            return Err(e);
        },
    }
    let state_file_path = match &raw.state_file_path {
        Some(p) => p.clone(),
        None => DEFAULT_MONITORD_STATE_FILE.to_owned(),
    };
    match require_absolute(state_file_path.as_str(), "monitor.state_file_path") {
        Ok(()) => {},
        Err(e) => {
            return Err(e);
        },
    }
    let timeout_ms: u64 = u64_or(raw.timeout_ms, DEFAULT_MONITORD_TIMEOUT_MS);
    match require_range(
        MONITORD_TIMEOUT_MS_MIN <= timeout_ms && timeout_ms <= MONITORD_TIMEOUT_MS_MAX,
        "monitor.timeout_ms must be in 100..=60000 (got ",
        timeout_ms,
    ) {
        Ok(()) => {},
        Err(e) => {
            return Err(e);
        },
    }
    let fail_mode = match read_fail_mode(&raw.fail_mode, legacy) {
        Ok(m) => m,
        Err(e) => {
            return Err(e);
        },
    };
    let action = match raw.on_usb_removed {
        Some(a) => a,
        None => raw_top.on_usb_removed,
    };
    let on_usb_removed = on_usb_removed_of(action);
    match check_hook_path(on_usb_removed, &raw.on_usb_removed_hook_path) {
        Ok(()) => {},
        Err(e) => {
            return Err(e);
        },
    }
    let removed_grace: u64 = u64_or(
        raw.usb_removed_grace_seconds,
        raw_top.usb_removed_grace_seconds,
    );
    match require_range(
        removed_grace <= MONITORD_USB_REMOVED_GRACE_MAX,
        "monitor.usb_removed_grace_seconds must be <= 600 (got ",
        removed_grace,
    ) {
        Ok(()) => {},
        Err(e) => {
            return Err(e);
        },
    }
    let suspend_grace: u64 = u64_or(raw.suspend_grace_seconds, raw_top.suspend_grace_seconds);
    match require_range(
        suspend_grace <= MONITORD_SUSPEND_GRACE_MAX,
        "monitor.suspend_grace_seconds must be <= 600 (got ",
        suspend_grace,
    ) {
        Ok(()) => {},
        Err(e) => {
            return Err(e);
        },
    }
    let idle: u64 = u64_or(raw.idle_timeout_seconds, DEFAULT_MONITORD_IDLE_TIMEOUT_SECS);
    match require_range(
        MONITORD_IDLE_TIMEOUT_MIN <= idle && idle <= MONITORD_IDLE_TIMEOUT_MAX,
        "monitor.idle_timeout_seconds must be in 1..=3600 (got ",
        idle,
    ) {
        Ok(()) => {},
        Err(e) => {
            return Err(e);
        },
    }
    let conns: u32 = match raw.max_concurrent_connections {
        Some(n) => n,
        None => DEFAULT_MONITORD_MAX_CONNS,
    };
    match require_range(
        1 <= conns && conns <= MONITORD_MAX_CONNS_CAP,
        "monitor.max_concurrent_connections must be in 1..=4096 (got ",
        conns as u64,
    ) {
        Ok(()) => {},
        Err(e) => {
            return Err(e);
        },
    }
    Ok(
        MonitorSection {
            socket_path,
            timeout: Duration::from_millis(timeout_ms),
            fail_mode,
            state_file_path,
            on_usb_removed,
            usb_removed_grace: Duration::from_secs(removed_grace),
            suspend_grace: Duration::from_secs(suspend_grace),
            on_usb_removed_hook_path: clone_opt(&raw.on_usb_removed_hook_path),
            idle_timeout: Duration::from_secs(idle),
            max_concurrent_connections: conns,
        },
    )
}

/// Of an accepted section: the hook path is set exactly for the action `hook` and is absolute
/// then, the paths are absolute, and the numbers lie within their ranges.
pub proof fn accepted_monitor_is_sound(
    top: RawConfig,
    raw: RawMonitor,
    legacy: RawMonitorFailMode,
    s: MonitorSection,
)
    requires
        monitor_fault(top, raw, legacy) is None,
        monitor_validated(monitor_keys(top, raw, legacy), raw, s),
    ensures
        s.on_usb_removed_hook_path is Some <==> s.on_usb_removed == OnUsbRemoved::Hook,
        s.on_usb_removed_hook_path matches Some(p) ==> crate::text::is_absolute_path(p@),
        crate::text::is_absolute_path(s.socket_path@),
        crate::text::is_absolute_path(s.state_file_path@),
        100 <= s.timeout.millis() <= 60000,
        s.usb_removed_grace.secs <= 600,
        s.suspend_grace.secs <= 600,
        1 <= s.idle_timeout.secs <= 3600,
        1 <= s.max_concurrent_connections <= 4096,
{
    let ms = monitor_keys(top, raw, legacy).timeout_ms;
    assert(s.timeout.total_nanos() == ms * 1_000_000);
    assert(s.timeout.millis() == ms as nat);
}

/// What a `[monitor]` section may say: absolute paths, an exchange of 100 to 60000 milliseconds, a
/// known mode, a hook exactly where one is to run, up to ten minutes of grace, an idle time of a
/// second to an hour, and 1 to 4096 connections.
pub proof fn accepted_monitor_keys(top: RawConfig, raw: RawMonitor, legacy: RawMonitorFailMode)
    ensures
        monitor_fault(top, raw, legacy) is None <==> {
            let action = match raw.on_usb_removed {
                Some(a) => a,
                None => top.on_usb_removed,
            };
            let grace = match raw.usb_removed_grace_seconds {
                Some(n) => n,
                None => top.usb_removed_grace_seconds,
            };
            let suspend = match raw.suspend_grace_seconds {
                Some(n) => n,
                None => top.suspend_grace_seconds,
            };
            &&& raw.socket_path matches Some(p) ==> p@.len() > 0 && p@[0] == '/'
            &&& raw.state_file_path matches Some(p) ==> p@.len() > 0 && p@[0] == '/'
            &&& raw.timeout_ms matches Some(n) ==> 100 <= n <= 60000
            &&& raw.fail_mode matches Some(m) ==> m@ == "strict"@ || m@ == "permissive"@ || m@
                == "degraded"@
            &&& raw.on_usb_removed_hook_path is Some <==> action == RawOnUsbRemoved::Hook
            &&& raw.on_usb_removed_hook_path matches Some(p) ==> p@.len() > 0 && p@[0] == '/'
            &&& grace <= 600
            &&& suspend <= 600
            &&& raw.idle_timeout_seconds matches Some(n) ==> 1 <= n <= 3600
            &&& raw.max_concurrent_connections matches Some(n) ==> 1 <= n <= 4096
        },
{
    reveal_strlit("/run/tessera/monitord.sock");
    reveal_strlit("/run/tessera/sessions.json");
    assert("/run/tessera/monitord.sock"@[0] == '/');
    assert("/run/tessera/sessions.json"@[0] == '/');
}

/// What a `[monitor]` section becomes: each key as it is set, in the section before the top level,
/// and else its default.
pub proof fn monitor_keys_are_carried_over(
    top: RawConfig,
    raw: RawMonitor,
    legacy: RawMonitorFailMode,
    s: MonitorSection,
)
    requires
        monitor_fault(top, raw, legacy) is None,
        monitor_validated(monitor_keys(top, raw, legacy), raw, s),
    ensures
        match raw.socket_path {
            Some(p) => s.socket_path@ == p@,
            None => s.socket_path@ == "/run/tessera/monitord.sock"@,
        },
        match raw.state_file_path {
            Some(p) => s.state_file_path@ == p@,
            None => s.state_file_path@ == "/run/tessera/sessions.json"@,
        },
        s.timeout.total_nanos() == 1_000_000 * match raw.timeout_ms {
            Some(n) => n as int,
            None => 2000,
        },
        match raw.fail_mode {
            Some(m) => s.fail_mode == MonitorFailMode::Strict <==> m@ == "strict"@,
            None => s.fail_mode == MonitorFailMode::Strict <==> legacy == RawMonitorFailMode::Strict,
        },
        s.on_usb_removed_hook_path == raw.on_usb_removed_hook_path,
        s.usb_removed_grace.total_nanos() == 1_000_000_000 * match raw.usb_removed_grace_seconds {
            Some(n) => n,
            None => top.usb_removed_grace_seconds,
        },
        s.suspend_grace.total_nanos() == 1_000_000_000 * match raw.suspend_grace_seconds {
            Some(n) => n,
            None => top.suspend_grace_seconds,
        },
        s.idle_timeout.total_nanos() == 1_000_000_000 * match raw.idle_timeout_seconds {
            Some(n) => n as int,
            None => 30,
        },
        s.max_concurrent_connections == match raw.max_concurrent_connections {
            Some(n) => n,
            None => 64,
        },
        ({
            let action = match raw.on_usb_removed {
                Some(a) => a,
                None => top.on_usb_removed,
            };
            &&& s.on_usb_removed == OnUsbRemoved::Lock <==> action == RawOnUsbRemoved::Lock
            &&& s.on_usb_removed == OnUsbRemoved::Logout <==> action == RawOnUsbRemoved::Logout
            &&& s.on_usb_removed == OnUsbRemoved::Hook <==> action == RawOnUsbRemoved::Hook
            &&& s.on_usb_removed == OnUsbRemoved::Shutdown <==> action == RawOnUsbRemoved::Shutdown
        }),
{
    reveal_strlit("strict");
    reveal_strlit("permissive");
    reveal_strlit("degraded");
    assert("strict"@.len() == 6);
    assert("permissive"@.len() == 10);
    assert("degraded"@.len() == 8);
}

} // verus!
