//! Configuration that has passed validation.

use crate::collections::StringSet;
use crate::hooks::validator::HookConfig;
use crate::host_identity::source::HostIdSourceKind;
use crate::logging::LogLevel;
use crate::mac::label::IntegrityLabel;
use crate::time::Duration;
use crate::x509::{alg_named, algorithms_go_by_their_names, SignatureAlg};
use vstd::prelude::*;

verus! {

/// Validated config.
#[derive(Debug)]
pub struct ValidatedConfig {
    /// Crypto backend.
    pub crypto_backend: CryptoBackend,
    /// Mode.
    pub mode: Mode,
    /// PKCS#11 module.
    pub pkcs11_module: Option<String>,
    /// Optional `CKA_LABEL` filter for the token.
    pub pkcs11_token_label: Option<String>,
    /// Optional `CKA_LABEL` filter for the on-token cert / key objects.
    pub pkcs11_object_label: Option<String>,
    /// Maximum number of PIN attempts before bailing (default 3).
    pub pkcs11_max_pin_attempts: u32,
    /// PKCS#11 locking mode (default OS).
    pub pkcs11_locking_mode: LockingMode,
    /// Prompt string for the token PIN (default in Russian, defined at runtime).
    pub pkcs11_pin_prompt: Option<String>,
    /// Maximum time `wait_for_token` will block waiting for the user to insert the token (default
    /// 10 s).
    pub pkcs11_slot_wait: Duration,
    /// Accept private keys with `CKA_EXTRACTABLE = TRUE`: `true` turns the refusal into a warning.
    pub pkcs11_allow_extractable_keys: bool,
    /// PKCS#12 path pattern.
    pub pkcs12_path_pattern: Option<String>,
    /// PIN prompt.
    pub pkcs12_pin_prompt: Option<String>,
    /// Optional path to the gost-engine `.so`.
    pub gost_engine_path: Option<String>,
    /// USB wait.
    pub usb_wait: Duration,
    /// Allow-list of USB `(vid, pid)` pairs accepted as the PKCS#12 medium (parsed from
    /// `usb_allowed_devices`).
    pub usb_allowed_devices: Vec<(u16, u16)>,
    /// Maximum number of USB partitions inspected at auth time (1..=64, default 8).
    pub max_usb_partitions: u32,
    /// USB removal action.
    pub on_usb_removed: OnUsbRemoved,
    /// USB removed grace.
    pub usb_removed_grace: Duration,
    /// Suspend grace.
    pub suspend_grace: Duration,
    /// Monitor fail mode.
    pub monitor_fail_mode: MonitorFailMode,
    /// Monitor IPC section (socket path, timeout, effective fail mode).
    pub monitor: MonitorSection,
    /// Trust section.
    pub trust: TrustSection,
    /// Trust overrides.
    pub trust_overrides: Vec<TrustOverride>,
    /// Host identity.
    pub host_identity: HostIdentitySection,
    /// User mappings.
    pub user_mappings: Vec<UserMapping>,
    /// Logging.
    pub logging: LoggingSection,
    /// Hooks.
    pub hooks: Vec<HookConfig>,
    /// MAC integrity policy.
    pub mac: MacPolicy,
    /// Astra fly-dm greeter banner section.
    pub fly_dm_greeter: FlyDmGreeterSection,
    /// Role-format section (`[roles]`).
    pub roles: RolesSection,
    /// Device-tags source section (`[tags]`).
    pub tags: TagsSection,
}

/// Validated `[fly_dm_greeter]` section.
#[derive(Debug)]
pub struct FlyDmGreeterSection {
    /// When true, the daemon bakes the `host_id` banner into the fly-dm wallpaper on start.
    pub update_wallpaper: bool,
    /// Absolute path to the wallpaper image written by the daemon (referenced from `/etc/X11/fly-
    /// dm/fly-modern/settings.ini` `[background].path`).
    pub wallpaper_target: String,
    /// Absolute path to the preserved original wallpaper.
    pub wallpaper_backup: String,
    /// Absolute path to the TrueType font used to render the banner.
    pub wallpaper_font: String,
    /// Font size in pixels.
    pub wallpaper_font_size: u32,
    /// Text colour as RGBA.
    pub wallpaper_text_color: [u8; 4],
    /// Anchor on the image for the banner.
    pub wallpaper_gravity: Gravity,
    /// Horizontal pixel offset added to the gravity anchor.
    pub wallpaper_offset_x: i32,
    /// Vertical pixel offset added to the gravity anchor (upward for south gravity, ImageMagick-
    /// like behaviour).
    pub wallpaper_offset_y: i32,
    /// Russian-locale template.
    pub template_ru: String,
    /// Non-Russian / English template.
    pub template_en: String,
}

/// Gravity / anchor position for the wallpaper banner.
#[derive(Debug, Clone, Copy, PartialEq, Eq, Structural)]
pub enum Gravity {
    /// Top centre.
    North,
    /// Bottom centre.
    South,
    /// Middle right.
    East,
    /// Middle left.
    West,
    /// Image centre.
    Center,
}

/// Validated `[mac]` policy block.
#[derive(Debug)]
pub struct MacPolicy {
    /// Trinary policy for the X.509 `MAX_INTEGRITY` extension on the authenticating certificate.
    pub cert_integrity: CertIntegrityMode,
    /// Fallback upper bound applied when the cert carries no extension and
    /// [`Self::cert_integrity`] is [`CertIntegrityMode::Optional`].
    pub fallback_max_integrity: Option<IntegrityLabel>,
    /// Whether to emit a warning when the resolved process label disagrees with the user's `$HOME`
    /// label at session-open time.
    pub warn_on_homedir_label_mismatch: bool,
    /// Runtime selection for the MAC backend.
    pub runtime: MacRuntimeMode,
}

/// Runtime selection for the MAC backend.
#[derive(Debug, Clone, Copy, PartialEq, Eq, Structural)]
pub enum MacRuntimeMode {
    /// Real backend required; fail-closed where the kernel lacks the subsystem.
    Required,
    /// Probe kernel; real when present, stub otherwise.
    Auto,
    /// Always use the stub backend regardless of kernel state.
    Disabled,
}

/// Validated `[roles]` section.
#[derive(Debug)]
pub struct RolesSection {
    /// Enforcement mode.
    pub enforce: RolesEnforce,
    /// On-device role-store directory.
    pub dir: String,
    /// Global default session TTL, used when neither the certificate nor the role sets one.
    pub default_session_ttl: Duration,
}

/// Migration / enforcement mode for `[roles]`.
#[derive(Debug, Clone, Copy, PartialEq, Eq, Structural)]
pub enum RolesEnforce {
    /// Roles not checked.
    False,
    /// Checked + logged, never denies.
    Warn,
    /// Full enforcement (fail-closed).
    Require,
}

/// Default global session TTL in seconds (12h) for the `[roles]` section.
pub const DEFAULT_ROLE_SESSION_TTL_SECONDS: u64 = 43200;

/// Trinary policy for the X.509 `MAX_INTEGRITY` extension.
#[derive(Debug, Clone, Copy, PartialEq, Eq, Structural)]
pub enum CertIntegrityMode {
    /// Extension MUST be present; missing extension fails authentication.
    Required,
    /// Extension is consulted when present; absent falls back to `fallback_max_integrity` or
    /// admin-default.
    Optional,
    /// Extension is not consulted; integrity comes from admin policy only.
    Ignore,
}

/// Crypto backend.
#[derive(Debug, Clone, Copy, PartialEq, Eq, Structural)]
pub enum CryptoBackend {
    /// OpenSSL.
    Openssl,
    /// Native PKCS#11.
    Pkcs11Native,
}

/// Mode.
#[derive(Debug, Clone, Copy, PartialEq, Eq, Structural)]
pub enum Mode {
    /// PKCS#12.
    Pkcs12,
    /// PKCS#11.
    Pkcs11,
}

/// USB removed action.
#[derive(Debug, Clone, Copy, PartialEq, Eq, Structural)]
pub enum OnUsbRemoved {
    /// Lock.
    Lock,
    /// Logout.
    Logout,
    /// Hook.
    Hook,
    /// Shutdown.
    Shutdown,
}

/// Monitor failure mode.
#[derive(Debug, Clone, Copy, PartialEq, Eq, Structural)]
pub enum MonitorFailMode {
    /// Strict.
    Strict,
    /// Permissive.
    Permissive,
}

/// Validated `[monitor]` section: where to talk to monitord, how long to wait, and how to react to
/// failures.
#[derive(Debug)]
pub struct MonitorSection {
    /// Absolute path to the monitord Unix socket.
    pub socket_path: String,
    /// Per-RPC connect+IO timeout.
    pub timeout: Duration,
    /// Effective fail mode (resolved from `[monitor].fail_mode` or, when absent, the top-level
    /// `monitor_fail_mode`).
    pub fail_mode: MonitorFailMode,
    /// Absolute path to the persisted session-registry JSON.
    pub state_file_path: String,
    /// Action `tessera` should take on a confirmed USB removal past the grace window.
    pub on_usb_removed: OnUsbRemoved,
    /// Grace window between a USB removal event and the configured action.
    pub usb_removed_grace: Duration,
    /// Suspend-grace window: removals within this many seconds after a resume are ignored.
    pub suspend_grace: Duration,
    /// Absolute path to the hook executable invoked when [`MonitorSection::on_usb_removed`] is
    /// [`OnUsbRemoved::Hook`].
    pub on_usb_removed_hook_path: Option<String>,
    /// Per-connection idle timeout for the monitord IPC server.
    pub idle_timeout: Duration,
    /// Maximum number of concurrent client connections accepted by the monitord IPC server.
    pub max_concurrent_connections: u32,
}

/// Trust section.
#[derive(Debug)]
pub struct TrustSection {
    /// Anchors.
    pub anchors: Vec<String>,
    /// Intermediates.
    pub intermediates: Vec<String>,
    /// Revocation.
    pub revocation: RevocationSection,
    /// Signature algorithms.
    pub allowed_signature_algorithms: StringSet,
    /// Trust-anchor SPKI pinning.
    pub pinning: PinningSection,
    /// Maximum chain depth (1..=N).
    pub max_chain_depth: u32,
    /// PKI clock-skew tolerance in seconds.
    pub clock_skew_seconds: u64,
    /// Highest `pam_cert_profile_version` this Engine understands (version-gate ceiling).
    pub max_supported_profile_version: u32,
}

/// Trust mode of the device-tags source (`[tags].mode`).
#[derive(Debug, Clone, Copy, PartialEq, Eq, Structural)]
pub enum TagsMode {
    /// Local file trusted by filesystem permissions.
    Standalone,
    /// Tags ride in the signed `role-store` manifest (shared anti-rollback).
    Managed,
}

/// Validated `[tags]` section.
#[derive(Debug)]
pub struct TagsSection {
    /// Whether to load and apply device tags from [`Self::source`].
    pub enforce: bool,
    /// Trust mode of the source.
    pub mode: TagsMode,
    /// Source path: standalone tags file, or the managed manifest directory.
    pub source: String,
}

/// Validated `[trust.pinning]` section.
#[derive(Debug)]
pub struct PinningSection {
    /// Enabled.
    pub enabled: bool,
    /// SPKI SHA-256 pins, as 64 hexadecimal digits each where pinning is enabled.
    pub allowed_root_spki_sha256: Vec<String>,
}

/// Revocation section.
#[derive(Debug)]
pub struct RevocationSection {
    /// Mode.
    pub mode: RevocationMode,
    /// CRL paths.
    pub crl_paths: Vec<String>,
    /// Maximum accepted CRL age measured from `thisUpdate` (from `crl_max_age_hours`, validated to
    /// 1..=8760).
    pub crl_max_age: Option<Duration>,
    /// OCSP responder URL (from `ocsp_responder_url`, validated to start with `http://` or
    /// `https://`).
    pub ocsp_responder_url: Option<String>,
    /// Overall deadline for one OCSP exchange (connect + write + read), from
    /// `ocsp_timeout_seconds` (validated to 1..=30, default 5).
    pub ocsp_timeout: Duration,
    /// Upper bound on the lifetime of an OCSP cache entry, from `ocsp_cache_ttl_seconds`
    /// (validated to 0..=86400, default 3600).
    pub ocsp_cache_ttl: Duration,
}

/// Revocation mode.
#[derive(Debug, Clone, Copy, PartialEq, Eq, Structural)]
pub enum RevocationMode {
    /// Revocation checking is disabled.
    Off,
    /// CRL.
    Crl,
    /// OCSP.
    Ocsp,
    /// CRL then OCSP.
    CrlThenOcsp,
}

/// Trust override.
#[derive(Debug)]
pub struct TrustOverride {
    /// Host ids.
    pub when_host_id_in: StringSet,
    /// Anchors.
    pub anchors: Vec<String>,
    /// Intermediates.
    pub intermediates: Vec<String>,
}

/// Host identity section.
#[derive(Debug)]
pub struct HostIdentitySection {
    /// Sources.
    pub sources: Vec<HostIdSourceKind>,
    /// Fallback.
    pub fallback: HostIdFallback,
    /// Override.
    pub override_value: Option<String>,
    /// Custom command.
    pub custom_command: Option<String>,
    /// Custom command timeout.
    pub custom_command_timeout: Duration,
}

/// Host id fallback.
#[derive(Debug, Clone, Copy, PartialEq, Eq, Structural)]
pub enum HostIdFallback {
    /// Deny.
    Deny,
    /// Warn.
    Warn,
    /// Allow.
    Allow,
}

/// User mapping.
#[derive(Debug)]
pub struct UserMapping {
    /// PAM user.
    pub pam_user: String,
    /// Criteria.
    pub criteria: UserMatchCriteria,
}

/// User match criteria.
#[derive(Debug)]
pub enum UserMatchCriteria {
    /// Subject CN.
    SubjectCn(String),
    /// SAN email.
    SanEmail(String),
    /// SAN UPN.
    SanUpn(String),
}

/// Logging section.
#[derive(Debug)]
pub struct LoggingSection {
    /// Level applied by the daemon's tracing subscriber; the `TESSERA_LOG` environment variable
    /// takes precedence over this value.
    pub level: LogLevel,
}

/// PKCS#11 locking mode.
#[derive(Debug, Clone, Copy, PartialEq, Eq, Structural)]
pub enum LockingMode {
    /// Native OS thread locking.
    Os,
    /// User-space mutex serialization.
    Mutex,
}

/// How the role core enforces roles.
#[derive(Debug, Clone, Copy, PartialEq, Eq, Structural)]
pub enum RoleEnforce {
    /// Roles are not checked.
    Disabled,
    /// Checked and logged, never denied.
    Warn,
    /// Full enforcement.
    Require,
}

/// Role-store directory where none is configured.
pub const DEFAULT_ROLES_DIR: &'static str = "/var/lib/tessera/roles";

/// Tags file where none is configured.
pub const DEFAULT_TAGS_FILE: &'static str = "/var/lib/tessera/tags.toml";

impl Default for FlyDmGreeterSection {
    fn default() -> (r: FlyDmGreeterSection)
        ensures
            !r.update_wallpaper,
            r.wallpaper_target@ == "/usr/share/wallpapers/fly-default-light.jpg"@,
            r.wallpaper_backup@ == "/var/lib/tessera/wallpaper.orig.jpg"@,
            r.wallpaper_font@ == "/usr/share/fonts/truetype/dejavu/DejaVuSans-Bold.ttf"@,
            r.wallpaper_font_size == 64,
            r.wallpaper_text_color@ == seq![0u8, 0u8, 0u8, 255u8],
            r.wallpaper_gravity == Gravity::South,
            r.wallpaper_offset_x == 0,
            r.wallpaper_offset_y == 120,
            r.template_ru@ == "Устройство %n  host_id={host_id_short} ({source})"@,
            r.template_en@ == "Device %n  host_id={host_id_short} ({source})"@,
    {
        let color: [u8; 4] = [0, 0, 0, 255];
        assert(color@ =~= seq![0u8, 0u8, 0u8, 255u8]);
        FlyDmGreeterSection {
            update_wallpaper: false,
            wallpaper_target: "/usr/share/wallpapers/fly-default-light.jpg".to_owned(),
            wallpaper_backup: "/var/lib/tessera/wallpaper.orig.jpg".to_owned(),
            wallpaper_font: "/usr/share/fonts/truetype/dejavu/DejaVuSans-Bold.ttf".to_owned(),
            wallpaper_font_size: 64,
            wallpaper_text_color: color,
            wallpaper_gravity: Gravity::South,
            wallpaper_offset_x: 0,
            wallpaper_offset_y: 120,
            template_ru: "Устройство %n  host_id={host_id_short} ({source})".to_owned(),
            template_en: "Device %n  host_id={host_id_short} ({source})".to_owned(),
        }
    }
}

impl Default for MacPolicy {
    fn default() -> (r: MacPolicy)
        ensures
            r.cert_integrity == CertIntegrityMode::Optional,
            r.fallback_max_integrity is None,
            r.warn_on_homedir_label_mismatch,
            r.runtime == MacRuntimeMode::Auto,
    {
        MacPolicy {
            cert_integrity: CertIntegrityMode::Optional,
            fallback_max_integrity: None,
            warn_on_homedir_label_mismatch: true,
            runtime: MacRuntimeMode::Auto,
        }
    }
}

impl Default for RolesSection {
    fn default() -> (r: RolesSection)
        ensures
            r.enforce == RolesEnforce::False,
            r.dir@ == DEFAULT_ROLES_DIR@,
            r.default_session_ttl == Duration::of_secs(DEFAULT_ROLE_SESSION_TTL_SECONDS),
    {
        RolesSection {
            enforce: RolesEnforce::False,
            dir: DEFAULT_ROLES_DIR.to_owned(),
            default_session_ttl: Duration::from_secs(DEFAULT_ROLE_SESSION_TTL_SECONDS),
        }
    }
}

impl Default for TagsSection {
    fn default() -> (r: TagsSection)
        ensures
            !r.enforce,
            r.mode == TagsMode::Standalone,
            r.source@ == DEFAULT_TAGS_FILE@,
    {
        TagsSection {
            enforce: false,
            mode: TagsMode::Standalone,
            source: DEFAULT_TAGS_FILE.to_owned(),
        }
    }
}

impl RolesSection {
    /// The enforcement mode in the terms of the role core.
    pub fn enforce_mode(&self) -> (r: RoleEnforce)
        ensures
            r == match self.enforce {
                RolesEnforce::False => RoleEnforce::Disabled,
                RolesEnforce::Warn => RoleEnforce::Warn,
                RolesEnforce::Require => RoleEnforce::Require,
            },
    {
        match self.enforce {
            RolesEnforce::False => RoleEnforce::Disabled,
            RolesEnforce::Warn => RoleEnforce::Warn,
            RolesEnforce::Require => RoleEnforce::Require,
        }
    }
}

/// Whether any of the algorithm names selects a GOST algorithm.
pub open spec fn any_gost(names: Set<Seq<char>>) -> bool {
    exists|s: Seq<char>| names.contains(s) && (#[trigger] alg_named(s)).gost()
}

/// Whether any member of a set of algorithm names selects a GOST algorithm.
pub fn allows_gost(names: &StringSet) -> (r: bool)
    ensures
        r == any_gost(names@),
{
    let mut i: usize = 0;
    let ghost all = crate::collections::texts(names.items@);
    while i < names.items.len()
        invariant
            i <= names.items@.len(),
            all == crate::collections::texts(names.items@),
            forall|k: int| 0 <= k < i ==> !alg_named(#[trigger] all[k]).gost(),
        decreases names.items@.len() - i,
    {
        assert(all[i as int] == names.items@[i as int]@);
        if SignatureAlg::from_oid_string(names.items[i].as_str()).is_gost() {
            assert(names@.contains(all[i as int]));
            return true;
        }
        i = i + 1;
    }
    assert(!any_gost(names@)) by {
        if any_gost(names@) {
            let s = choose|s: Seq<char>| names@.contains(s) && (#[trigger] alg_named(s)).gost();
            let k = choose|k: int| 0 <= k < all.len() && all[k] == s;
            assert(!alg_named(all[k]).gost());
        }
    }
    false
}

impl ValidatedConfig {
    /// Whether the active backend is OpenSSL and some allowed signature algorithm needs the
    /// gost-engine. The native PKCS#11 backend computes in the token and never needs it.
    pub fn needs_gost(&self) -> (r: bool)
        ensures
            r == (self.crypto_backend == CryptoBackend::Openssl && any_gost(
                self.trust.allowed_signature_algorithms@,
            )),
    {
        matches!(self.crypto_backend, CryptoBackend::Openssl) && allows_gost(
            &self.trust.allowed_signature_algorithms,
        )
    }
}

/// One GOST algorithm among those allowed is enough to need the engine; without one it is not
/// needed.
pub proof fn one_gost_name_is_enough(names: Set<Seq<char>>, s: Seq<char>)
    requires
        names.contains(s),
    ensures
        s == "1.2.643.7.1.1.3.2"@ || s == "1.2.643.7.1.1.3.3"@ || s
            == "id-tc26-signwithdigest-gost3410-2012-256"@ || s
            == "id-tc26-signwithdigest-gost3410-2012-512"@ ==> any_gost(names),
        !any_gost(names) ==> !alg_named(s).gost(),
{
    algorithms_go_by_their_names(s);
}

/// Without a GOST algorithm among those allowed the engine is not needed.
pub proof fn no_engine_without_a_gost_name(names: Set<Seq<char>>)
    requires
        forall|s: Seq<char>| names.contains(s) ==> !(#[trigger] alg_named(s)).gost(),
    ensures
        !any_gost(names),
{
}

} // verus!
