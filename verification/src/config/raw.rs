//! Configuration as it is written, before validation.
//!
//! Paths are strings. A key that was left out is `None` or holds its default.

use crate::collections::StringMap;
use crate::hooks::stage::HookStage;
use vstd::prelude::*;

verus! {

/// `usb_wait_seconds` where the key is absent.
pub const DEFAULT_USB_WAIT_SECONDS: u64 = 10;

/// `pkcs11_max_pin_attempts` where the key is absent.
pub const DEFAULT_PKCS11_MAX_PIN_ATTEMPTS: u32 = 3;

/// `pkcs11_slot_wait_seconds` where the key is absent.
pub const DEFAULT_PKCS11_SLOT_WAIT_SECONDS: u32 = 10;

/// `max_chain_depth` where the key is absent.
pub const DEFAULT_MAX_CHAIN_DEPTH: u32 = 5;

/// `custom_command_timeout_seconds` where the key is absent.
pub const DEFAULT_CUSTOM_COMMAND_TIMEOUT_SECONDS: u64 = 5;

/// `timeout_seconds` of a hook where the key is absent.
pub const DEFAULT_HOOK_TIMEOUT_SECONDS: u64 = 10;

/// Raw config.
#[derive(Debug)]
pub struct RawConfig {
    /// Crypto backend.
    pub crypto_backend: RawCryptoBackend,
    /// Mode.
    pub mode: RawMode,
    /// PKCS#11 module.
    pub pkcs11_module: Option<String>,
    /// Optional `CKA_LABEL` filter for the token.
    pub pkcs11_token_label: Option<String>,
    /// Optional `CKA_LABEL` filter for the on-token certificate / private-key object.
    pub pkcs11_object_label: Option<String>,
    /// Maximum number of PIN attempts before bailing.
    pub pkcs11_max_pin_attempts: u32,
    /// PKCS#11 locking mode.
    pub pkcs11_locking_mode: RawPkcs11LockingMode,
    /// Prompt string for the token PIN (Russian by default).
    pub pkcs11_pin_prompt: Option<String>,
    /// Maximum time `wait_for_token` will block waiting for the user to insert the token, in
    /// seconds.
    pub pkcs11_slot_wait_seconds: u32,
    /// Accept private keys with `CKA_EXTRACTABLE = TRUE` (WARN instead of refusing).
    pub pkcs11_allow_extractable_keys: bool,
    /// Where the PKCS#12 envelope is carried.
    pub pkcs12_source: RawPkcs12Source,
    /// Label of the token object that carries the envelope.
    pub pkcs12_token_object_label: Option<String>,
    /// PKCS#12 path pattern.
    pub pkcs12_path_pattern: Option<String>,
    /// PIN prompt.
    pub pkcs12_pin_prompt: Option<String>,
    /// Optional path to the gost-engine `.so` file.
    pub gost_engine_path: Option<String>,
    /// USB wait seconds.
    pub usb_wait_seconds: u64,
    /// Allow-list of USB devices accepted as the PKCS#12 medium, as `"vid:pid"` hex strings in
    /// lsusb format (four hex digits each).
    pub usb_allowed_devices: Vec<String>,
    /// Maximum number of USB partitions inspected at auth time when a whole-disk has a partition
    /// table.
    pub max_usb_partitions: Option<u32>,
    /// USB removal action.
    pub on_usb_removed: RawOnUsbRemoved,
    /// USB removed grace.
    pub usb_removed_grace_seconds: u64,
    /// Suspend grace.
    pub suspend_grace_seconds: u64,
    /// Monitor failure mode (top-level, deprecated in favour of `[monitor].fail_mode` but still
    /// honoured for backwards compatibility when the new section is absent).
    pub monitor_fail_mode: RawMonitorFailMode,
    /// Monitor IPC section (socket path, timeout, fail mode).
    pub monitor: RawMonitor,
    /// Trust.
    pub trust: RawTrust,
    /// Trust overrides.
    pub trust_override: Vec<RawTrustOverride>,
    /// Host identity.
    pub host_identity: RawHostIdentity,
    /// User mappings.
    pub user_mapping: Vec<RawUserMapping>,
    /// Logging.
    pub logging: RawLogging,
    /// Hooks.
    pub hooks: Vec<RawHook>,
    /// MAC integrity policy section.
    pub mac: RawMacPolicy,
    /// Astra fly-dm greeter banner section.
    pub fly_dm_greeter: Option<RawFlyDmGreeter>,
    /// Role-format section (`[roles]`).
    pub roles: RawRoles,
    /// Device-tags source section (`[tags]`).
    pub tags: RawTags,
}

/// Trust mode for the device-tags source (`[tags].mode`).
#[derive(Debug, Clone, Copy, PartialEq, Eq, Structural)]
pub enum RawTagsMode {
    /// Local file trusted by filesystem permissions (the default).
    Standalone,
    /// Tags ride in the signed `role-store` manifest (shared anti-rollback).
    Managed,
}

/// Raw `[tags]` block.
#[derive(Debug)]
pub struct RawTags {
    /// Whether to load and apply device tags from [`Self::source`].
    pub enforce: bool,
    /// Trust mode of the source.
    pub mode: RawTagsMode,
    /// Source path: in `standalone` mode the tags file; in `managed` mode the directory holding the
    /// signed `manifest.toml`.
    pub source: Option<String>,
}

/// Migration / enforcement mode for the `[roles]` section.
#[derive(Debug, Clone, Copy, PartialEq, Eq, Structural)]
pub enum RawRolesEnforce {
    /// Roles not checked (the default).
    False,
    /// Checked + logged, never denies.
    Warn,
    /// Full enforcement; fail-closed.
    Require,
}

/// Raw `[roles]` block.
#[derive(Debug)]
pub struct RawRoles {
    /// Enforcement mode.
    pub enforce: RawRolesEnforce,
    /// On-device role-store directory.
    pub dir: Option<String>,
    /// Global default session TTL (seconds), used when neither the certificate nor the role sets
    /// one.
    pub default_session_ttl_seconds: Option<u64>,
}

/// Raw `[fly_dm_greeter]` block: Astra fly-dm login-screen wallpaper banner integration.
#[derive(Debug)]
pub struct RawFlyDmGreeter {
    /// When true, the daemon (on start) bakes the resolved `host_id` banner into the fly-dm
    /// background wallpaper; when false (default), the file is left untouched.
    pub update_wallpaper: Option<bool>,
    /// Absolute path to the wallpaper file written by the daemon (the same path that `settings.ini`
    /// `[background].path` references).
    pub wallpaper_target: Option<String>,
    /// Absolute path to the preserved original wallpaper.
    pub wallpaper_backup: Option<String>,
    /// Absolute path to a TrueType font file used to render the banner.
    pub wallpaper_font: Option<String>,
    /// Font size in pixels.
    pub wallpaper_font_size: Option<u32>,
    /// Text colour as `#RRGGBB` or `#RRGGBBAA`.
    pub wallpaper_text_color: Option<String>,
    /// Anchor for the text on the image: `north`, `south`, `east`, `west`, or `center`.
    pub wallpaper_gravity: Option<String>,
    /// Horizontal pixel offset added to the gravity anchor.
    pub wallpaper_offset_x: Option<i32>,
    /// Vertical pixel offset added to the gravity anchor; for `south` gravity this is interpreted
    /// upward (ImageMagick-like).
    pub wallpaper_offset_y: Option<i32>,
    /// Russian-locale template.
    pub template_ru: Option<String>,
    /// Non-Russian (default / English) template.
    pub template_en: Option<String>,
}

/// PKCS#11 locking mode (raw).
#[derive(Debug, Clone, Copy, PartialEq, Eq, Structural)]
pub enum RawPkcs11LockingMode {
    /// Native OS thread locking (`CKF_OS_LOCKING_OK`).
    Os,
    /// User-space mutex serialization.
    Mutex,
}

/// Raw crypto backend.
#[derive(Debug, Clone, Copy, PartialEq, Eq, Structural)]
pub enum RawCryptoBackend {
    /// OpenSSL.
    Openssl,
    /// Native PKCS#11.
    Pkcs11Native,
}

/// Raw mode.
#[derive(Debug, Clone, Copy, PartialEq, Eq, Structural)]
pub enum RawMode {
    /// PKCS#12.
    Pkcs12,
    /// PKCS#11.
    Pkcs11,
}

/// Carrier of the PKCS#12 envelope.
#[derive(Debug, Clone, Copy, PartialEq, Eq, Structural)]
pub enum RawPkcs12Source {
    /// A partition of a USB stick (the default).
    UsbPartition,
    /// A data object on a PKCS#11 token.
    TokenObject,
}

/// Raw removal action.
#[derive(Debug, Clone, Copy, PartialEq, Eq, Structural)]
pub enum RawOnUsbRemoved {
    /// Lock.
    Lock,
    /// Logout.
    Logout,
    /// Hook.
    Hook,
    /// Shutdown.
    Shutdown,
}

/// Raw monitor fail mode.
#[derive(Debug, Clone, Copy, PartialEq, Eq, Structural)]
pub enum RawMonitorFailMode {
    /// Strict.
    Strict,
    /// Permissive.
    Permissive,
}

/// Raw `[monitor]` section.
#[derive(Debug)]
pub struct RawMonitor {
    /// Path to the monitord Unix socket.
    pub socket_path: Option<String>,
    /// Per-RPC connect+IO timeout in milliseconds.
    pub timeout_ms: Option<u64>,
    /// Per-section fail mode override.
    pub fail_mode: Option<String>,
    /// Path to the session-registry JSON.
    pub state_file_path: Option<String>,
    /// Action to take when the bound USB token is removed past the configured grace window.
    pub on_usb_removed: Option<RawOnUsbRemoved>,
    /// Grace window between USB removal event and the configured action.
    pub usb_removed_grace_seconds: Option<u64>,
    /// Suspend-grace window: removals within this many seconds after a resume are ignored.
    pub suspend_grace_seconds: Option<u64>,
    /// Absolute path to the hook executable invoked when `on_usb_removed = "hook"`.
    pub on_usb_removed_hook_path: Option<String>,
    /// Per-connection idle timeout in seconds (server-side IPC).
    pub idle_timeout_seconds: Option<u64>,
    /// Maximum number of concurrent client connections accepted by the monitord IPC server.
    pub max_concurrent_connections: Option<u32>,
}

/// Trust section.
#[derive(Debug)]
pub struct RawTrust {
    /// Anchors.
    pub anchors: Vec<String>,
    /// Intermediates.
    pub intermediates: Vec<String>,
    /// Max chain depth.
    pub max_chain_depth: u32,
    /// Clock skew.
    pub clock_skew_seconds: u64,
    /// Signature algorithms.
    pub allowed_signature_algorithms: Vec<String>,
    /// Revocation. An omitted section is rejected: opting out takes an explicit `mode = "none"`.
    pub revocation: Option<RawRevocation>,
    /// Pinning.
    pub pinning: RawPinning,
    /// Highest `pam_cert_profile_version` this Engine understands.
    pub max_supported_profile_version: Option<u32>,
}

/// Revocation section.
#[derive(Debug)]
pub struct RawRevocation {
    /// Mode. An omitted key is rejected: opting out takes an explicit `mode = "none"`.
    pub mode: Option<RawRevocationMode>,
    /// CRL paths.
    pub crl_paths: Vec<String>,
    /// OCSP responder URL (`http://` or `https://`).
    pub ocsp_responder_url: Option<String>,
    /// CRL max age in hours (1..=8760).
    pub crl_max_age_hours: Option<u64>,
    /// Overall deadline of one OCSP exchange in seconds (1..=30, default 5).
    pub ocsp_timeout_seconds: Option<u64>,
    /// OCSP cache-entry TTL in seconds (0..=86400, default 3600; 0 disables the cache).
    pub ocsp_cache_ttl_seconds: Option<u64>,
}

/// Raw revocation mode.
#[derive(Debug, Clone, Copy, PartialEq, Eq, Structural)]
pub enum RawRevocationMode {
    /// Revocation checking is disabled (`"none"` in the file).
    Off,
    /// CRL.
    Crl,
    /// OCSP.
    Ocsp,
    /// CRL then OCSP.
    CrlThenOcsp,
}

/// Pinning section.
#[derive(Debug)]
pub struct RawPinning {
    /// Enabled.
    pub enabled: bool,
    /// Allowed root SPKI hashes.
    pub allowed_root_spki_sha256: Vec<String>,
}

/// Trust override.
#[derive(Debug)]
pub struct RawTrustOverride {
    /// Host ids.
    pub when_host_id_in: Vec<String>,
    /// Anchors.
    pub anchors: Vec<String>,
    /// Intermediates.
    pub intermediates: Vec<String>,
}

/// Host identity section.
#[derive(Debug)]
pub struct RawHostIdentity {
    /// Sources.
    pub sources: Vec<String>,
    /// Fallback.
    pub fallback: RawHostIdFallback,
    /// Override value.
    pub override_value: Option<String>,
    /// Custom command.
    pub custom_command: Option<String>,
    /// Custom command timeout.
    pub custom_command_timeout_seconds: u64,
}

/// Host id fallback.
#[derive(Debug, Clone, Copy, PartialEq, Eq, Structural)]
pub enum RawHostIdFallback {
    /// Deny.
    Deny,
    /// Warn.
    Warn,
    /// Allow.
    Allow,
}

/// User mapping.
#[derive(Debug)]
pub struct RawUserMapping {
    /// PAM user.
    pub pam_user: String,
    /// Subject CN.
    pub cert_subject_cn: Option<String>,
    /// SAN email.
    pub cert_san_email: Option<String>,
    /// SAN UPN.
    pub cert_san_upn: Option<String>,
}

/// Logging section.
#[derive(Debug)]
pub struct RawLogging {
    /// Level.
    pub level: String,
    /// Facility.
    pub syslog_facility: Option<String>,
    /// Journald priority.
    pub journald_priority: Option<bool>,
}

/// Hook.
#[derive(Debug)]
pub struct RawHook {
    /// Stage.
    pub stage: HookStage,
    /// Command.
    pub command: Vec<String>,
    /// Timeout.
    pub timeout_seconds: u64,
    /// Failure mode.
    pub on_failure: Option<String>,
    /// Run as.
    pub run_as: Option<String>,
    /// Env templates.
    pub env: StringMap,
}

/// Raw `[mac]` policy block.
#[derive(Debug)]
pub struct RawMacPolicy {
    /// Trinary policy for the X.509 `MAX_INTEGRITY` extension on the authenticating certificate
    /// (`required` | `optional` | `ignore`).
    pub cert_integrity: Option<RawCertIntegrityMode>,
    /// Fallback upper bound applied when the cert carries no extension and policy is `optional`.
    pub fallback_max_integrity: Option<RawIntegrityLabel>,
    /// Whether to emit a warning when the resolved process label disagrees with the user's `$HOME`
    /// label at session-open time.
    pub warn_on_homedir_label_mismatch: Option<bool>,
    /// Runtime selection for the MAC backend.
    pub runtime: Option<RawMacRuntimeMode>,
}

/// Runtime selection for the MAC backend; see [`RawMacPolicy::runtime`].
#[derive(Debug, Clone, Copy, PartialEq, Eq, Structural)]
pub enum RawMacRuntimeMode {
    /// Real backend required; authentication fails where the kernel lacks the subsystem.
    Required,
    /// Probe at startup; real backend when available, stub otherwise.
    Auto,
    /// Always use the stub backend.
    Disabled,
}

/// Trinary mode for the `[mac].cert_integrity` knob.
#[derive(Debug, Clone, Copy, PartialEq, Eq, Structural)]
pub enum RawCertIntegrityMode {
    /// Extension MUST be present; missing extension fails authentication.
    Required,
    /// Extension is consulted when present; absent extension falls back to `fallback_max_integrity`
    /// (when set) or admin-default.
    Optional,
    /// Extension is not consulted; integrity comes from admin policy only.
    Ignore,
}

/// Raw `[mac.fallback_max_integrity]` block.
#[derive(Debug)]
pub struct RawIntegrityLabel {
    /// Linear integrity level in `i8` (-128..=127).
    pub level: i8,
    /// Hex-encoded categories bitmap (up to 16 hex chars = 64 bits).
    pub categories: String,
}

impl Default for RawTags {
    fn default() -> (r: RawTags)
        ensures
            !r.enforce,
            r.mode == RawTagsMode::Standalone,
            r.source is None,
    {
        RawTags {
            enforce: false,
            mode: RawTagsMode::Standalone,
            source: None,
        }
    }
}

impl Default for RawRoles {
    fn default() -> (r: RawRoles)
        ensures
            r.enforce == RawRolesEnforce::False,
            r.dir is None,
            r.default_session_ttl_seconds is None,
    {
        RawRoles {
            enforce: RawRolesEnforce::False,
            dir: None,
            default_session_ttl_seconds: None,
        }
    }
}

impl Default for RawFlyDmGreeter {
    fn default() -> (r: RawFlyDmGreeter)
        ensures
            r.update_wallpaper is None,
            r.wallpaper_target is None,
            r.wallpaper_backup is None,
            r.wallpaper_font is None,
            r.wallpaper_font_size is None,
            r.wallpaper_text_color is None,
            r.wallpaper_gravity is None,
            r.wallpaper_offset_x is None,
            r.wallpaper_offset_y is None,
            r.template_ru is None,
            r.template_en is None,
    {
        RawFlyDmGreeter {
            update_wallpaper: None,
            wallpaper_target: None,
            wallpaper_backup: None,
            wallpaper_font: None,
            wallpaper_font_size: None,
            wallpaper_text_color: None,
            wallpaper_gravity: None,
            wallpaper_offset_x: None,
            wallpaper_offset_y: None,
            template_ru: None,
            template_en: None,
        }
    }
}

impl Default for RawMonitor {
    fn default() -> (r: RawMonitor)
        ensures
            r.socket_path is None,
            r.timeout_ms is None,
            r.fail_mode is None,
            r.state_file_path is None,
            r.on_usb_removed is None,
            r.usb_removed_grace_seconds is None,
            r.suspend_grace_seconds is None,
            r.on_usb_removed_hook_path is None,
            r.idle_timeout_seconds is None,
            r.max_concurrent_connections is None,
    {
        RawMonitor {
            socket_path: None,
            timeout_ms: None,
            fail_mode: None,
            state_file_path: None,
            on_usb_removed: None,
            usb_removed_grace_seconds: None,
            suspend_grace_seconds: None,
            on_usb_removed_hook_path: None,
            idle_timeout_seconds: None,
            max_concurrent_connections: None,
        }
    }
}

impl Default for RawPinning {
    fn default() -> (r: RawPinning)
        ensures
            !r.enabled,
            r.allowed_root_spki_sha256@.len() == 0,
    {
        RawPinning {
            enabled: false,
            allowed_root_spki_sha256: Vec::new(),
        }
    }
}

impl Default for RawMacPolicy {
    fn default() -> (r: RawMacPolicy)
        ensures
            r.cert_integrity is None,
            r.fallback_max_integrity is None,
            r.warn_on_homedir_label_mismatch is None,
            r.runtime is None,
    {
        RawMacPolicy {
            cert_integrity: None,
            fallback_max_integrity: None,
            warn_on_homedir_label_mismatch: None,
            runtime: None,
        }
    }
}

impl Default for RawTagsMode {
    fn default() -> (r: RawTagsMode)
        ensures
            r == RawTagsMode::Standalone,
    {
        RawTagsMode::Standalone
    }
}

impl Default for RawRolesEnforce {
    fn default() -> (r: RawRolesEnforce)
        ensures
            r == RawRolesEnforce::False,
    {
        RawRolesEnforce::False
    }
}

impl Default for RawPkcs11LockingMode {
    fn default() -> (r: RawPkcs11LockingMode)
        ensures
            r == RawPkcs11LockingMode::Os,
    {
        RawPkcs11LockingMode::Os
    }
}

impl Default for RawPkcs12Source {
    fn default() -> (r: RawPkcs12Source)
        ensures
            r == RawPkcs12Source::UsbPartition,
    {
        RawPkcs12Source::UsbPartition
    }
}

impl Default for RawOnUsbRemoved {
    fn default() -> (r: RawOnUsbRemoved)
        ensures
            r == RawOnUsbRemoved::Lock,
    {
        RawOnUsbRemoved::Lock
    }
}

impl Default for RawMonitorFailMode {
    fn default() -> (r: RawMonitorFailMode)
        ensures
            r == RawMonitorFailMode::Strict,
    {
        RawMonitorFailMode::Strict
    }
}

impl Default for RawHostIdFallback {
    fn default() -> (r: RawHostIdFallback)
        ensures
            r == RawHostIdFallback::Deny,
    {
        RawHostIdFallback::Deny
    }
}

impl Default for RawMacRuntimeMode {
    fn default() -> (r: RawMacRuntimeMode)
        ensures
            r == RawMacRuntimeMode::Auto,
    {
        RawMacRuntimeMode::Auto
    }
}

} // verus!
