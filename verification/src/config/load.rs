//! Validation of a whole configuration.

use crate::audit::{AuditLog, EventModel};
use crate::collections::opt_text;
use crate::config::fault::{
    either, fault_of, first_fault, lemma_first_fault, lemma_no_fault, ConfigFault,
};
use crate::config::identity::{
    clone_opt, deprecation_events, host_identity_fault, host_identity_validated, logging_fault,
    mapping_validated, mappings_fault, validate_host_identity, validate_logging,
    validate_user_mappings,
};
use crate::config::monitor::{
    fail_mode_of, legacy_fail_mode, monitor_fault, monitor_keys, monitor_validated,
    on_usb_removed_of, removal_action, validate_monitor,
};
use crate::config::raw::{
    RawConfig, RawCryptoBackend, RawMode, RawPkcs11LockingMode, RawPkcs12Source, RawTagsMode,
    RawTrustOverride,
};
use crate::config::sections::{
    greeter_fault, greeter_validated, mac_fault, mac_validated, max_partitions_fault, roles_enforce,
    roles_fault, tags_fault, tags_mode, tags_source, text_or, usb_devices_fault, usb_wait_fault,
    validate_fly_dm_greeter, validate_mac, validate_max_usb_partitions, validate_roles,
    validate_tags, validate_usb_allowed_devices, validate_usb_wait_seconds, value_or, vid_pid,
    DEFAULT_MAX_USB_PARTITIONS,
};
use crate::config::token::{
    as_opt_str, check_prompt, gost_path_fault, opt_prompt_fault, path_pattern_fault, pkcs11_fault,
    validate_gost_engine_path, validate_pkcs11_section, validate_pkcs12_path_pattern, PathProbe,
};
use crate::config::trust::{
    allowed_algorithms, check_overlaps, override_fault, override_validated, overlap_fault,
    trust_fault, trust_validated, validate_trust, validate_trust_override, TrustFiles,
};
use crate::config::validated::{
    allows_gost, any_gost, CryptoBackend, LockingMode, Mode, TagsMode, TrustOverride, ValidatedConfig,
    DEFAULT_ROLES_DIR, DEFAULT_ROLE_SESSION_TTL_SECONDS,
};
use crate::error::Error;
use crate::hooks::validator::{hook_fault, hook_validated, validate_hook, HookConfig};
use crate::logging::level_named;
use crate::time::Duration;
use vstd::prelude::*;

verus! {

/// What was found of the files that a configuration names.
#[derive(Debug)]
pub struct ConfigFiles {
    /// Files of the `[trust]` section.
    pub trust: TrustFiles,
    /// Files of the trust overrides, in their order.
    pub overrides: Vec<TrustFiles>,
    /// What lies at `gost_engine_path`.
    pub gost_engine: PathProbe,
}

/// What the build brings along.
#[derive(Debug, Clone, Copy)]
pub struct BuildProfile {
    /// Whether the enforcing MAC backend is part of the build.
    pub mac_backend: bool,
    /// Highest certificate profile version that the build understands.
    pub max_supported_profile_version: u32,
}

/// The crypto backend.
pub open spec fn crypto_backend(b: RawCryptoBackend) -> CryptoBackend {
    match b {
        RawCryptoBackend::Openssl => CryptoBackend::Openssl,
        RawCryptoBackend::Pkcs11Native => CryptoBackend::Pkcs11Native,
    }
}

/// The mode.
pub open spec fn token_mode(m: RawMode) -> Mode {
    match m {
        RawMode::Pkcs12 => Mode::Pkcs12,
        RawMode::Pkcs11 => Mode::Pkcs11,
    }
}

/// Why a hook is refused.
pub open spec fn hook_config_fault(raw: crate::config::raw::RawHook) -> Option<ConfigFault> {
    match hook_fault(raw) {
        Some(f) => Some(ConfigFault::Hook(f)),
        None => None,
    }
}

/// What was found of the anchors of an override; nothing where it is not listed.
pub open spec fn override_anchors(files: Seq<TrustFiles>, i: int) -> Seq<Option<String>> {
    if i < files.len() {
        files[i].anchors@
    } else {
        Seq::empty()
    }
}

/// What was found of the intermediates of an override; nothing where it is not listed.
pub open spec fn override_intermediates(files: Seq<TrustFiles>, i: int) -> Seq<Option<String>> {
    if i < files.len() {
        files[i].intermediates@
    } else {
        Seq::empty()
    }
}

/// Why the trust overrides are refused: the first faulty one, then an overlap.
pub open spec fn overrides_fault(raw: Seq<RawTrustOverride>, files: Seq<TrustFiles>) -> Option<
    ConfigFault,
> {
    either(
        first_fault(
            raw.len(),
            |i: int|
                override_fault(raw[i], override_anchors(files, i), override_intermediates(files, i)),
        ),
        overlap_fault(raw),
    )
}

/// Why a configuration is refused: the first rule that it breaks, section by section.
pub open spec fn config_fault(raw: RawConfig, files: ConfigFiles, build: BuildProfile) -> Option<
    ConfigFault,
> {
    let backend = crypto_backend(raw.crypto_backend);
    let gost = any_gost(allowed_algorithms(raw.trust.allowed_signature_algorithms@));
    if trust_fault(raw.trust, files.trust) is Some {
        trust_fault(raw.trust, files.trust)
    } else if host_identity_fault(raw.host_identity) is Some {
        host_identity_fault(raw.host_identity)
    } else if mappings_fault(raw.user_mapping@) is Some {
        mappings_fault(raw.user_mapping@)
    } else if logging_fault(raw.logging) is Some {
        logging_fault(raw.logging)
    } else if first_fault(raw.hooks@.len(), |i: int| hook_config_fault(raw.hooks@[i])) is Some {
        first_fault(raw.hooks@.len(), |i: int| hook_config_fault(raw.hooks@[i]))
    } else if gost_path_fault(raw.gost_engine_path, backend, gost, files.gost_engine) is Some {
        gost_path_fault(raw.gost_engine_path, backend, gost, files.gost_engine)
    } else if pkcs11_fault(raw, token_mode(raw.mode)) is Some {
        pkcs11_fault(raw, token_mode(raw.mode))
    } else if opt_prompt_fault("pkcs12_pin_prompt"@, raw.pkcs12_pin_prompt) is Some {
        opt_prompt_fault("pkcs12_pin_prompt"@, raw.pkcs12_pin_prompt)
    } else if path_pattern_fault(opt_text(raw.pkcs12_path_pattern)) is Some {
        path_pattern_fault(opt_text(raw.pkcs12_path_pattern))
    } else if usb_wait_fault(raw.usb_wait_seconds) is Some {
        usb_wait_fault(raw.usb_wait_seconds)
    } else if usb_devices_fault(raw.usb_allowed_devices@) is Some {
        usb_devices_fault(raw.usb_allowed_devices@)
    } else if max_partitions_fault(raw.max_usb_partitions) is Some {
        max_partitions_fault(raw.max_usb_partitions)
    } else if monitor_fault(raw, raw.monitor, raw.monitor_fail_mode) is Some {
        monitor_fault(raw, raw.monitor, raw.monitor_fail_mode)
    } else if overrides_fault(raw.trust_override@, files.overrides@) is Some {
        overrides_fault(raw.trust_override@, files.overrides@)
    } else if mac_fault(raw.mac, build.mac_backend) is Some {
        mac_fault(raw.mac, build.mac_backend)
    } else if greeter_fault(raw.fly_dm_greeter) is Some {
        greeter_fault(raw.fly_dm_greeter)
    } else if roles_fault(raw.roles) is Some {
        roles_fault(raw.roles)
    } else {
        tags_fault(raw.tags)
    }
}

/// The warnings of a configuration: those of its `[logging]` section, where no section before it
/// is at fault.
pub open spec fn config_events(raw: RawConfig, files: ConfigFiles) -> Seq<EventModel> {
    if trust_fault(raw.trust, files.trust) is Some || host_identity_fault(raw.host_identity) is Some
        || mappings_fault(raw.user_mapping@) is Some {
        Seq::empty()
    } else {
        deprecation_events(raw.logging)
    }
}

/// Whether the keys about tokens were carried over.
pub open spec fn token_keys_validated(raw: RawConfig, c: ValidatedConfig) -> bool {
    &&& c.crypto_backend == crypto_backend(raw.crypto_backend)
    &&& c.mode == token_mode(raw.mode)
    &&& c.pkcs11_module == raw.pkcs11_module
    &&& c.pkcs11_token_label == raw.pkcs11_token_label
    &&& c.pkcs11_object_label == raw.pkcs11_object_label
    &&& c.pkcs11_max_pin_attempts == raw.pkcs11_max_pin_attempts
    &&& c.pkcs11_locking_mode == match raw.pkcs11_locking_mode {
        RawPkcs11LockingMode::Os => LockingMode::Os,
        RawPkcs11LockingMode::Mutex => LockingMode::Mutex,
    }
    &&& c.pkcs11_pin_prompt == raw.pkcs11_pin_prompt
    &&& c.pkcs11_slot_wait == Duration::of_secs(raw.pkcs11_slot_wait_seconds as u64)
    &&& c.pkcs11_allow_extractable_keys == raw.pkcs11_allow_extractable_keys
    &&& opt_text(c.pkcs12_path_pattern) == opt_text(raw.pkcs12_path_pattern)
    &&& c.pkcs12_pin_prompt == raw.pkcs12_pin_prompt
    &&& c.gost_engine_path == raw.gost_engine_path
}

/// Whether the keys about USB devices were carried over.
pub open spec fn usb_keys_validated(raw: RawConfig, c: ValidatedConfig) -> bool {
    &&& c.usb_wait == Duration::of_secs(raw.usb_wait_seconds)
    &&& c.usb_allowed_devices@.len() == raw.usb_allowed_devices@.len()
    &&& forall|i: int|
        0 <= i < c.usb_allowed_devices@.len() ==> #[trigger] c.usb_allowed_devices@[i] == vid_pid(
            raw.usb_allowed_devices@[i]@,
        )
    &&& c.max_usb_partitions == value_or(raw.max_usb_partitions, DEFAULT_MAX_USB_PARTITIONS)
    &&& c.on_usb_removed == removal_action(raw.on_usb_removed)
    &&& c.usb_removed_grace == Duration::of_secs(raw.usb_removed_grace_seconds)
    &&& c.suspend_grace == Duration::of_secs(raw.suspend_grace_seconds)
    &&& c.monitor_fail_mode == legacy_fail_mode(raw.monitor_fail_mode)
}

/// Whether a configuration is what validation makes of a raw one.
pub open spec fn config_validated(raw: RawConfig, build: BuildProfile, c: ValidatedConfig) -> bool {
    &&& token_keys_validated(raw, c)
    &&& usb_keys_validated(raw, c)
    &&& monitor_validated(
        monitor_keys(raw, raw.monitor, raw.monitor_fail_mode),
        raw.monitor,
        c.monitor,
    )
    &&& trust_validated(raw.trust, build.max_supported_profile_version, c.trust)
    &&& c.trust_overrides@.len() == raw.trust_override@.len()
    &&& forall|i: int|
        0 <= i < c.trust_overrides@.len() ==> override_validated(
            raw.trust_override@[i],
            #[trigger] c.trust_overrides@[i],
        )
    &&& host_identity_validated(raw.host_identity, c.host_identity)
    &&& c.user_mappings@.len() == raw.user_mapping@.len()
    &&& forall|i: int|
        0 <= i < c.user_mappings@.len() ==> mapping_validated(
            raw.user_mapping@[i],
            #[trigger] c.user_mappings@[i],
        )
    &&& level_named(raw.logging.level@) == Some(c.logging.level)
    &&& c.hooks@.len() == raw.hooks@.len()
    &&& forall|i: int|
        0 <= i < c.hooks@.len() ==> hook_validated(raw.hooks@[i], #[trigger] c.hooks@[i])
    &&& mac_validated(raw.mac, c.mac)
    &&& greeter_validated(raw.fly_dm_greeter, c.fly_dm_greeter)
    &&& c.roles.enforce == roles_enforce(raw.roles.enforce)
    &&& c.roles.dir@ == text_or(raw.roles.dir, DEFAULT_ROLES_DIR@)
    &&& c.roles.default_session_ttl == Duration::of_secs(
        value_or(raw.roles.default_session_ttl_seconds, DEFAULT_ROLE_SESSION_TTL_SECONDS),
    )
    &&& c.tags.enforce == raw.tags.enforce
    &&& c.tags.mode == tags_mode(raw.tags.mode)
    &&& c.tags.source@ == tags_source(raw.tags, raw.roles)
}

fn validate_hooks(raw: &Vec<crate::config::raw::RawHook>) -> (r: Result<Vec<HookConfig>, Error>)
    ensures
        r matches Ok(v) ==> first_fault(raw@.len(), |i: int| hook_config_fault(raw@[i])) is None
            && v@.len() == raw@.len() && forall|i: int|
            0 <= i < v@.len() ==> hook_validated(raw@[i], #[trigger] v@[i]),
        r matches Err(e) ==> first_fault(raw@.len(), |i: int| hook_config_fault(raw@[i])) == Some(
            fault_of(e),
        ),
{
    let ghost at = |i: int| hook_config_fault(raw@[i]);
    let mut out: Vec<HookConfig> = Vec::new();
    let mut i: usize = 0;
    while i < raw.len()
        invariant
            i <= raw@.len(),
            at == (|i: int| hook_config_fault(raw@[i])),
            first_fault(i as nat, at) is None,
            out@.len() == i,
            forall|k: int| 0 <= k < i ==> hook_validated(raw@[k], #[trigger] out@[k]),
        decreases raw@.len() - i,
    {
        proof {
            if first_fault((i + 1) as nat, at) is Some {
                lemma_first_fault(raw@.len(), (i + 1) as nat, at);
            }
        }
        match validate_hook(&raw[i]) {
            Ok(h) => {
                out.push(h);
            },
            Err(e) => {
                return Err(Error::HookValidation(e));
            },
        }
        i = i + 1;
    }
    Ok(out)
}

fn validate_overrides(raw: &Vec<RawTrustOverride>, files: &Vec<TrustFiles>) -> (r: Result<
    Vec<TrustOverride>,
    Error,
>)
    ensures
        r matches Ok(v) ==> overrides_fault(raw@, files@) is None && v@.len() == raw@.len()
            && forall|i: int|
            0 <= i < v@.len() ==> override_validated(raw@[i], #[trigger] v@[i]),
        r matches Err(e) ==> overrides_fault(raw@, files@) == Some(fault_of(e)),
{
    let ghost at = |i: int|
        override_fault(raw@[i], override_anchors(files@, i), override_intermediates(files@, i));
    let nothing = TrustFiles { anchors: Vec::new(), intermediates: Vec::new(), crls: Vec::new() };
    let mut out: Vec<TrustOverride> = Vec::new();
    let mut i: usize = 0;
    while i < raw.len()
        invariant
            i <= raw@.len(),
            nothing.anchors@ == Seq::<Option<String>>::empty(),
            nothing.intermediates@ == Seq::<Option<String>>::empty(),
            at == (|i: int|
                override_fault(
                    raw@[i],
                    override_anchors(files@, i),
                    override_intermediates(files@, i),
                )),
            first_fault(i as nat, at) is None,
            out@.len() == i,
            forall|k: int| 0 <= k < i ==> override_validated(raw@[k], #[trigger] out@[k]),
        decreases raw@.len() - i,
    {
        proof {
            if first_fault((i + 1) as nat, at) is Some {
                lemma_first_fault(raw@.len(), (i + 1) as nat, at);
            }
        }
        let found = if i < files.len() {
            &files[i]
        } else {
            &nothing
        };
        match validate_trust_override(&raw[i], found) {
            Ok(o) => {
                out.push(o);
            },
            Err(e) => {
                return Err(e);
            },
        }
        i = i + 1;
    }
    match check_overlaps(raw) {
        Ok(()) => Ok(out),
        Err(e) => Err(e),
    }
}

impl ValidatedConfig {
    /// Validates a configuration against what was found of its files, and records what it warns
    /// of.
    pub fn try_from(
        raw: &RawConfig,
        files: &ConfigFiles,
        build: BuildProfile,
        log: &mut AuditLog,
    ) -> (r: Result<ValidatedConfig, Error>)
        ensures
            final(log)@ == old(log)@ + config_events(*raw, *files),
            r matches Ok(c) ==> config_fault(*raw, *files, build) is None && config_validated(
                *raw,
                build,
                c,
            ),
            r matches Err(e) ==> config_fault(*raw, *files, build) == Some(fault_of(e)),
    {
        assert(log@ + Seq::<EventModel>::empty() =~= log@);
        let trust = match validate_trust(
            &raw.trust,
            &files.trust,
            build.max_supported_profile_version,
        ) {
            Ok(s) => s,
            Err(e) => {
                return Err(e);
            },
        };
        let host_identity = match validate_host_identity(&raw.host_identity) {
            Ok(s) => s,
            Err(e) => {
                return Err(e);
            },
        };
        let user_mappings = match validate_user_mappings(&raw.user_mapping) {
            Ok(s) => s,
            Err(e) => {
                return Err(e);
            },
        };
        let logging = match validate_logging(&raw.logging, log) {
            Ok(s) => s,
            Err(e) => {
                return Err(e);
            },
        };
        let hooks = match validate_hooks(&raw.hooks) {
            Ok(s) => s,
            Err(e) => {
                return Err(e);
            },
        };
        let crypto_backend = match raw.crypto_backend {
            RawCryptoBackend::Openssl => CryptoBackend::Openssl,
            RawCryptoBackend::Pkcs11Native => CryptoBackend::Pkcs11Native,
        };
        let gost_allowed = allows_gost(&trust.allowed_signature_algorithms);
        let gost_engine_path = match validate_gost_engine_path(
            &raw.gost_engine_path,
            crypto_backend,
            gost_allowed,
            &files.gost_engine,
        ) {
            Ok(p) => p,
            Err(e) => {
                return Err(e);
            },
        };
        let mode = match raw.mode {
            RawMode::Pkcs12 => Mode::Pkcs12,
            RawMode::Pkcs11 => Mode::Pkcs11,
        };
        match validate_pkcs11_section(raw, mode) {
            Ok(()) => {},
            Err(e) => {
                return Err(e);
            },
        }
        match check_prompt("pkcs12_pin_prompt", &raw.pkcs12_pin_prompt) {
            Ok(()) => {},
            Err(e) => {
                return Err(e);
            },
        }
        let pkcs12_path_pattern = match validate_pkcs12_path_pattern(
            as_opt_str(&raw.pkcs12_path_pattern),
        ) {
            Ok(p) => p,
            Err(e) => {
                return Err(e);
            },
        };
        let usb_wait = match validate_usb_wait_seconds(raw.usb_wait_seconds) {
            Ok(d) => d,
            Err(e) => {
                return Err(e);
            },
        };
        let usb_allowed_devices = match validate_usb_allowed_devices(&raw.usb_allowed_devices) {
            Ok(v) => v,
            Err(e) => {
                return Err(e);
            },
        };
        let max_usb_partitions: u32 = match validate_max_usb_partitions(raw.max_usb_partitions) {
            Ok(n) => n,
            Err(e) => {
                return Err(e);
            },
        };
        let monitor = match validate_monitor(raw, &raw.monitor, raw.monitor_fail_mode) {
            Ok(s) => s,
            Err(e) => {
                return Err(e);
            },
        };
        let trust_overrides = match validate_overrides(&raw.trust_override, &files.overrides) {
            Ok(v) => v,
            Err(e) => {
                return Err(e);
            },
        };
        let mac = match validate_mac(&raw.mac, build.mac_backend) {
            Ok(s) => s,
            Err(e) => {
                return Err(e);
            },
        };
        let greeter = match &raw.fly_dm_greeter {
            Some(g) => Some(g),
            None => None,
        };
        let fly_dm_greeter = match validate_fly_dm_greeter(greeter) {
            Ok(s) => s,
            Err(e) => {
                return Err(e);
            },
        };
        let roles = match validate_roles(&raw.roles) {
            Ok(s) => s,
            Err(e) => {
                return Err(e);
            },
        };
        let tags = match validate_tags(&raw.tags, &raw.roles) {
            Ok(s) => s,
            Err(e) => {
                return Err(e);
            },
        };
        let pkcs11_locking_mode = match raw.pkcs11_locking_mode {
            RawPkcs11LockingMode::Os => LockingMode::Os,
            RawPkcs11LockingMode::Mutex => LockingMode::Mutex,
        };
        Ok(
            ValidatedConfig {
                crypto_backend,
                mode,
                pkcs11_module: clone_opt(&raw.pkcs11_module),
                pkcs11_token_label: clone_opt(&raw.pkcs11_token_label),
                pkcs11_object_label: clone_opt(&raw.pkcs11_object_label),
                pkcs11_max_pin_attempts: raw.pkcs11_max_pin_attempts,
                pkcs11_locking_mode,
                pkcs11_pin_prompt: clone_opt(&raw.pkcs11_pin_prompt),
                pkcs11_slot_wait: Duration::from_secs(raw.pkcs11_slot_wait_seconds as u64),
                pkcs11_allow_extractable_keys: raw.pkcs11_allow_extractable_keys,
                pkcs12_path_pattern,
                pkcs12_pin_prompt: clone_opt(&raw.pkcs12_pin_prompt),
                gost_engine_path,
                usb_wait,
                usb_allowed_devices,
                max_usb_partitions,
                on_usb_removed: on_usb_removed_of(raw.on_usb_removed),
                usb_removed_grace: Duration::from_secs(raw.usb_removed_grace_seconds),
                suspend_grace: Duration::from_secs(raw.suspend_grace_seconds),
                monitor_fail_mode: fail_mode_of(raw.monitor_fail_mode),
                monitor,
                trust,
                trust_overrides,
                host_identity,
                user_mappings,
                logging,
                hooks,
                mac,
                fly_dm_greeter,
                roles,
                tags,
            },
        )
    }
}

/// Whether a configuration ever loads the PKCS#11 module: a signing token does, and so does a
/// token that only carries the envelope. A USB carrier loads none, even where one is named.
pub open spec fn module_loaded(raw: RawConfig) -> bool {
    raw.mode == RawMode::Pkcs11 || raw.pkcs12_source == RawPkcs12Source::TokenObject
}

/// Whether a configuration ever loads the PKCS#11 module.
pub fn loads_pkcs11_module(raw: &RawConfig) -> (r: bool)
    ensures
        r == module_loaded(*raw),
{
    matches!(raw.mode, RawMode::Pkcs11) || matches!(raw.pkcs12_source, RawPkcs12Source::TokenObject)
}

/// An accepted configuration whose algorithms need the engine names the engine's file.
pub proof fn accepted_config_names_the_engine_it_needs(
    raw: RawConfig,
    files: ConfigFiles,
    build: BuildProfile,
    c: ValidatedConfig,
)
    requires
        config_fault(raw, files, build) is None,
        config_validated(raw, build, c),
    ensures
        c.crypto_backend == CryptoBackend::Openssl && any_gost(
            c.trust.allowed_signature_algorithms@,
        ) ==> c.gost_engine_path is Some && files.gost_engine is File,
        c.gost_engine_path is Some ==> c.crypto_backend == CryptoBackend::Openssl,
{
}

/// In an accepted configuration the two shapes that load the module exclude one another.
pub proof fn accepted_config_has_one_token_role(
    raw: RawConfig,
    files: ConfigFiles,
    build: BuildProfile,
)
    requires
        config_fault(raw, files, build) is None,
    ensures
        !(raw.mode == RawMode::Pkcs11 && raw.pkcs12_source == RawPkcs12Source::TokenObject),
        raw.mode == RawMode::Pkcs11 ==> raw.pkcs11_module is Some,
{
}

/// What each section of a configuration lacks, in the order in which the sections are looked at.
pub open spec fn section_faults(
    raw: RawConfig,
    files: ConfigFiles,
    build: BuildProfile,
) -> Seq<Option<ConfigFault>> {
    seq![
        trust_fault(raw.trust, files.trust),
        host_identity_fault(raw.host_identity),
        mappings_fault(raw.user_mapping@),
        logging_fault(raw.logging),
        first_fault(raw.hooks@.len(), |i: int| hook_config_fault(raw.hooks@[i])),
        gost_path_fault(
            raw.gost_engine_path,
            crypto_backend(raw.crypto_backend),
            any_gost(allowed_algorithms(raw.trust.allowed_signature_algorithms@)),
            files.gost_engine,
        ),
        pkcs11_fault(raw, token_mode(raw.mode)),
        opt_prompt_fault("pkcs12_pin_prompt"@, raw.pkcs12_pin_prompt),
        path_pattern_fault(opt_text(raw.pkcs12_path_pattern)),
        usb_wait_fault(raw.usb_wait_seconds),
        usb_devices_fault(raw.usb_allowed_devices@),
        max_partitions_fault(raw.max_usb_partitions),
        monitor_fault(raw, raw.monitor, raw.monitor_fail_mode),
        overrides_fault(raw.trust_override@, files.overrides@),
        mac_fault(raw.mac, build.mac_backend),
        greeter_fault(raw.fly_dm_greeter),
        roles_fault(raw.roles),
        tags_fault(raw.tags),
    ]
}

/// A configuration is refused for what the first faulty section lacks, and accepted where none
/// lacks anything: no section is passed over.
pub proof fn first_faulty_section_decides(
    raw: RawConfig,
    files: ConfigFiles,
    build: BuildProfile,
    i: int,
)
    requires
        0 <= i < 18,
        forall|j: int|
            0 <= j < i ==> (#[trigger] section_faults(raw, files, build)[j]) is None,
    ensures
        section_faults(raw, files, build).len() == 18,
        section_faults(raw, files, build)[i] is Some ==> config_fault(raw, files, build)
            == section_faults(raw, files, build)[i],
        i == 17 ==> config_fault(raw, files, build) == section_faults(raw, files, build)[17],
{
    let s = section_faults(raw, files, build);
    let _ = (s[0], s[1], s[2], s[3], s[4], s[5]);
    let _ = (s[6], s[7], s[8], s[9], s[10], s[11]);
    let _ = (s[12], s[13], s[14], s[15], s[16], s[17]);
}

/// Every hook and every trust override of an accepted configuration was checked.
pub proof fn every_hook_and_override_is_checked(
    raw: RawConfig,
    files: ConfigFiles,
    build: BuildProfile,
    i: int,
)
    requires
        config_fault(raw, files, build) is None,
    ensures
        0 <= i < raw.hooks@.len() ==> hook_fault(raw.hooks@[i]) is None,
        0 <= i < raw.trust_override@.len() && i < files.overrides@.len() ==> override_fault(
            raw.trust_override@[i],
            files.overrides@[i].anchors@,
            files.overrides@[i].intermediates@,
        ) is None,
        overlap_fault(raw.trust_override@) is None,
{
    if 0 <= i < raw.hooks@.len() {
        lemma_no_fault(raw.hooks@.len(), i, |i: int| hook_config_fault(raw.hooks@[i]));
    }
    if 0 <= i < raw.trust_override@.len() {
        lemma_no_fault(
            raw.trust_override@.len(),
            i,
            |i: int|
                override_fault(
                    raw.trust_override@[i],
                    override_anchors(files.overrides@, i),
                    override_intermediates(files.overrides@, i),
                ),
        );
    }
}

/// The keys on the token and on the USB drive are kept as they are, times in seconds; at most eight
/// partitions are looked at where no number is set.
pub proof fn token_and_usb_keys_are_carried_over(raw: RawConfig, c: ValidatedConfig, i: int)
    requires
        token_keys_validated(raw, c),
        usb_keys_validated(raw, c),
    ensures
        c.crypto_backend == CryptoBackend::Openssl <==> raw.crypto_backend
            == RawCryptoBackend::Openssl,
        c.mode == Mode::Pkcs11 <==> raw.mode == RawMode::Pkcs11,
        c.pkcs11_locking_mode == LockingMode::Os <==> raw.pkcs11_locking_mode
            == RawPkcs11LockingMode::Os,
        c.pkcs11_module == raw.pkcs11_module,
        c.pkcs11_token_label == raw.pkcs11_token_label,
        c.pkcs11_object_label == raw.pkcs11_object_label,
        c.pkcs11_max_pin_attempts == raw.pkcs11_max_pin_attempts,
        c.pkcs11_pin_prompt == raw.pkcs11_pin_prompt,
        c.pkcs11_allow_extractable_keys == raw.pkcs11_allow_extractable_keys,
        c.pkcs11_slot_wait.secs == raw.pkcs11_slot_wait_seconds && c.pkcs11_slot_wait.nanos == 0,
        c.pkcs12_pin_prompt == raw.pkcs12_pin_prompt,
        raw.pkcs12_path_pattern is None ==> c.pkcs12_path_pattern is None,
        raw.pkcs12_path_pattern matches Some(p) ==> (c.pkcs12_path_pattern matches Some(q) && q@
            == p@),
        c.gost_engine_path == raw.gost_engine_path,
        c.usb_wait.secs == raw.usb_wait_seconds && c.usb_wait.nanos == 0,
        c.usb_removed_grace.secs == raw.usb_removed_grace_seconds && c.usb_removed_grace.nanos == 0,
        c.suspend_grace.secs == raw.suspend_grace_seconds && c.suspend_grace.nanos == 0,
        c.usb_allowed_devices@.len() == raw.usb_allowed_devices@.len(),
        0 <= i < raw.usb_allowed_devices@.len() ==> c.usb_allowed_devices@[i] == vid_pid(
            raw.usb_allowed_devices@[i]@,
        ),
        raw.max_usb_partitions is None ==> c.max_usb_partitions == 8,
        raw.max_usb_partitions matches Some(n) ==> c.max_usb_partitions == n,
{
}

/// The keys on roles and tags, with twelve hours and the usual directory where nothing is set.
pub proof fn role_and_tag_keys_are_carried_over(
    raw: RawConfig,
    build: BuildProfile,
    c: ValidatedConfig,
)
    requires
        config_validated(raw, build, c),
    ensures
        raw.roles.dir matches Some(p) ==> c.roles.dir@ == p@,
        raw.roles.dir is None ==> c.roles.dir@ == "/var/lib/tessera/roles"@,
        c.roles.default_session_ttl.nanos == 0,
        raw.roles.default_session_ttl_seconds matches Some(n) ==> c.roles.default_session_ttl.secs
            == n,
        raw.roles.default_session_ttl_seconds is None ==> c.roles.default_session_ttl.secs == 12
            * 3600,
        c.tags.enforce == raw.tags.enforce,
        c.tags.mode == TagsMode::Managed <==> raw.tags.mode == RawTagsMode::Managed,
        raw.tags.source matches Some(p) ==> c.tags.source@ == p@,
{
}

/// Deprecated keys are warned of once the sections before them have passed, and not before.
pub proof fn warnings_wait_for_the_sections_before_them(raw: RawConfig, files: ConfigFiles)
    ensures
        trust_fault(raw.trust, files.trust) is Some || host_identity_fault(raw.host_identity)
            is Some || mappings_fault(raw.user_mapping@) is Some ==> config_events(raw, files).len()
            == 0,
        trust_fault(raw.trust, files.trust) is None && host_identity_fault(raw.host_identity)
            is None && mappings_fault(raw.user_mapping@) is None ==> config_events(raw, files)
            == deprecation_events(raw.logging),
{
}

/// The module is loaded where the token is asked, or the container lies on it, and only there.
pub proof fn module_is_loaded_for_a_token(raw: RawConfig)
    ensures
        raw.mode == RawMode::Pkcs11 ==> module_loaded(raw),
        raw.pkcs12_source == RawPkcs12Source::TokenObject ==> module_loaded(raw),
        module_loaded(raw) ==> raw.mode == RawMode::Pkcs11 || raw.pkcs12_source
            == RawPkcs12Source::TokenObject,
{
}

} // verus!
