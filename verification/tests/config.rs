//! Validation of the configuration.

use tessera_core::audit::{AuditEvent, AuditLevel, AuditLog, AuditValue};
use tessera_core::collections::StringMap;
use tessera_core::config::load::{loads_pkcs11_module, BuildProfile, ConfigFiles};
use tessera_core::config::paths::{
    engine_path_to_load, not_root_controlled_text, privileged_paths, with_canonical_paths,
};
use tessera_core::config::raw::{
    RawCertIntegrityMode, RawConfig, RawCryptoBackend, RawFlyDmGreeter, RawHook, RawHostIdFallback,
    RawHostIdentity, RawIntegrityLabel, RawLogging, RawMacPolicy, RawMacRuntimeMode, RawMode,
    RawMonitor, RawMonitorFailMode, RawOnUsbRemoved, RawPinning, RawPkcs11LockingMode,
    RawPkcs12Source, RawRevocation, RawRevocationMode, RawRoles, RawRolesEnforce, RawTags,
    RawTagsMode, RawTrust, RawTrustOverride, RawUserMapping, DEFAULT_CUSTOM_COMMAND_TIMEOUT_SECONDS,
    DEFAULT_MAX_CHAIN_DEPTH, DEFAULT_PKCS11_MAX_PIN_ATTEMPTS, DEFAULT_PKCS11_SLOT_WAIT_SECONDS,
    DEFAULT_USB_WAIT_SECONDS,
};
use tessera_core::config::sections::{
    parse_gravity, parse_hex_color, validate_fly_dm_greeter, validate_mac,
    validate_max_usb_partitions, validate_roles, validate_tags, validate_usb_allowed_devices,
    validate_usb_wait_seconds,
};
use tessera_core::config::identity::{
    validate_host_identity, validate_logging, validate_user_mappings,
};
use tessera_core::config::monitor::validate_monitor;
use tessera_core::config::token::{
    validate_gost_engine_path, validate_pin_prompt, validate_pkcs11_label, validate_pkcs11_section,
    validate_pkcs12_path_pattern, PathProbe, PIN_PROMPT_MAX_LEN,
};
use tessera_core::config::trust::{
    check_overlaps, validate_revocation, validate_trust, validate_trust_override, TrustFiles,
};
use tessera_core::config::validated::{
    CertIntegrityMode, CryptoBackend, Gravity, HostIdFallback, MacRuntimeMode, Mode,
    MonitorFailMode, OnUsbRemoved, RevocationMode, RoleEnforce, RolesEnforce, TagsMode,
    UserMatchCriteria, ValidatedConfig, DEFAULT_ROLES_DIR, DEFAULT_ROLE_SESSION_TTL_SECONDS,
    DEFAULT_TAGS_FILE,
};
use tessera_core::error::{Error, HookValidationError, TrustError};
use tessera_core::gost::engine::{ensure_loaded, is_available, EngineCell, EngineStep};
use tessera_core::gost::errors::GostEngineError;
use tessera_core::hooks::stage::HookStage;
use tessera_core::host_identity::source::HostIdSourceKind;
use tessera_core::logging::LogLevel;
use tessera_core::time::Duration;

const PEM: &str = "-----BEGIN CERTIFICATE-----\nAAAA\n-----END CERTIFICATE-----\n";

fn raw() -> RawConfig {
    RawConfig {
        crypto_backend: RawCryptoBackend::Openssl,
        mode: RawMode::Pkcs12,
        pkcs11_module: None,
        pkcs11_token_label: None,
        pkcs11_object_label: None,
        pkcs11_max_pin_attempts: DEFAULT_PKCS11_MAX_PIN_ATTEMPTS,
        pkcs11_locking_mode: RawPkcs11LockingMode::Os,
        pkcs11_pin_prompt: None,
        pkcs11_slot_wait_seconds: DEFAULT_PKCS11_SLOT_WAIT_SECONDS,
        pkcs11_allow_extractable_keys: false,
        pkcs12_source: RawPkcs12Source::UsbPartition,
        pkcs12_token_object_label: None,
        pkcs12_path_pattern: Some("user.p12".to_string()),
        pkcs12_pin_prompt: None,
        gost_engine_path: None,
        usb_wait_seconds: DEFAULT_USB_WAIT_SECONDS,
        usb_allowed_devices: Vec::new(),
        max_usb_partitions: None,
        on_usb_removed: RawOnUsbRemoved::Lock,
        usb_removed_grace_seconds: 0,
        suspend_grace_seconds: 30,
        monitor_fail_mode: RawMonitorFailMode::Strict,
        monitor: RawMonitor::default(),
        trust: trust(),
        trust_override: Vec::new(),
        host_identity: host_identity(),
        user_mapping: Vec::new(),
        logging: RawLogging {
            level: "info".to_string(),
            syslog_facility: None,
            journald_priority: None,
        },
        hooks: Vec::new(),
        mac: RawMacPolicy::default(),
        fly_dm_greeter: None,
        roles: RawRoles::default(),
        tags: RawTags::default(),
    }
}

fn trust() -> RawTrust {
    RawTrust {
        anchors: vec!["/etc/tessera/anchors/ca.pem".to_string()],
        intermediates: Vec::new(),
        max_chain_depth: DEFAULT_MAX_CHAIN_DEPTH,
        clock_skew_seconds: 0,
        allowed_signature_algorithms: vec!["sha256WithRSAEncryption".to_string()],
        revocation: Some(revocation(RawRevocationMode::Off)),
        pinning: RawPinning::default(),
        max_supported_profile_version: None,
    }
}

fn revocation(mode: RawRevocationMode) -> RawRevocation {
    RawRevocation {
        mode: Some(mode),
        crl_paths: Vec::new(),
        ocsp_responder_url: None,
        crl_max_age_hours: None,
        ocsp_timeout_seconds: None,
        ocsp_cache_ttl_seconds: None,
    }
}

fn host_identity() -> RawHostIdentity {
    RawHostIdentity {
        sources: vec!["dmi_board_serial".to_string()],
        fallback: RawHostIdFallback::Deny,
        override_value: None,
        custom_command: None,
        custom_command_timeout_seconds: DEFAULT_CUSTOM_COMMAND_TIMEOUT_SECONDS,
    }
}

fn files() -> ConfigFiles {
    ConfigFiles {
        trust: TrustFiles {
            anchors: vec![Some(PEM.to_string())],
            intermediates: Vec::new(),
            crls: Vec::new(),
        },
        overrides: Vec::new(),
        gost_engine: PathProbe::File,
    }
}

fn build() -> BuildProfile {
    BuildProfile { mac_backend: true, max_supported_profile_version: 1 }
}

fn load(raw: &RawConfig) -> Result<ValidatedConfig, Error> {
    ValidatedConfig::try_from(raw, &files(), build(), &mut AuditLog::new())
}

fn reason<T: std::fmt::Debug>(r: Result<T, Error>) -> String {
    match r.unwrap_err() {
        Error::ConfigInvalid { reason } => reason,
        other => panic!("unexpected: {other:?}"),
    }
}

#[test]
fn signing_token_loads_the_module() {
    assert!(loads_pkcs11_module(&RawConfig { mode: RawMode::Pkcs11, ..raw() }));
}

#[test]
fn envelope_carrying_token_loads_the_module() {
    assert!(loads_pkcs11_module(&RawConfig {
        mode: RawMode::Pkcs12,
        pkcs12_source: RawPkcs12Source::TokenObject,
        pkcs12_token_object_label: Some("tessera-credential".to_string()),
        ..raw()
    }));
}

#[test]
fn usb_carrier_does_not_load_the_module() {
    assert!(!loads_pkcs11_module(&RawConfig { mode: RawMode::Pkcs12, ..raw() }));
    assert!(!loads_pkcs11_module(&RawConfig {
        mode: RawMode::Pkcs12,
        pkcs12_source: RawPkcs12Source::UsbPartition,
        ..raw()
    }));
}

#[test]
fn pkcs12_pattern_accepts_relative_paths() {
    assert_eq!(
        validate_pkcs12_path_pattern(Some("certs/user.p12")).unwrap(),
        Some("certs/user.p12".to_owned())
    );
    assert_eq!(
        validate_pkcs12_path_pattern(Some("service.p12")).unwrap(),
        Some("service.p12".to_owned())
    );
    assert_eq!(
        validate_pkcs12_path_pattern(Some("${user}.p12")).unwrap(),
        Some("${user}.p12".to_owned())
    );
}

#[test]
fn pkcs12_pattern_unset_is_none() {
    assert_eq!(validate_pkcs12_path_pattern(None).unwrap(), None);
}

#[test]
fn pkcs12_pattern_rejects_empty() {
    let err = validate_pkcs12_path_pattern(Some("")).unwrap_err();
    match err {
        Error::ConfigInvalid { reason } => assert!(reason.contains("non-empty")),
        other => panic!("unexpected: {other:?}"),
    }
}

#[test]
fn pkcs12_pattern_rejects_absolute_path() {
    let err = validate_pkcs12_path_pattern(Some("/run/cert.p12")).unwrap_err();
    match err {
        Error::ConfigInvalid { reason } => assert!(reason.contains("relative")),
        other => panic!("unexpected: {other:?}"),
    }
}

#[test]
fn pkcs12_pattern_rejects_parent_segment() {
    let err = validate_pkcs12_path_pattern(Some("certs/../etc/cert.p12")).unwrap_err();
    match err {
        Error::ConfigInvalid { reason } => assert!(reason.contains("'..'")),
        other => panic!("unexpected: {other:?}"),
    }
}

#[test]
fn pkcs12_pattern_rejects_dot_segment() {
    let err = validate_pkcs12_path_pattern(Some("./cert.p12")).unwrap_err();
    match err {
        Error::ConfigInvalid { reason } => assert!(reason.contains("'..'")),
        other => panic!("unexpected: {other:?}"),
    }
}

#[test]
fn usb_wait_seconds_accepts_range_bounds() {
    assert_eq!(validate_usb_wait_seconds(0).unwrap(), Duration::from_secs(0));
    assert_eq!(validate_usb_wait_seconds(300).unwrap(), Duration::from_secs(5 * 60));
}

#[test]
fn usb_wait_seconds_rejects_above_max() {
    let err = validate_usb_wait_seconds(301).unwrap_err();
    match err {
        Error::ConfigInvalid { reason } => {
            assert!(reason.contains("usb_wait_seconds"));
            assert!(reason.contains("301"));
        }
        other => panic!("unexpected: {other:?}"),
    }
}

#[test]
fn usb_allowed_devices_parses_hex_pairs() {
    let raw = vec!["0951:1666".to_string(), "ABCD:0001".to_string()];
    let parsed = validate_usb_allowed_devices(&raw).unwrap();
    assert_eq!(parsed, vec![(0x0951, 0x1666), (0xABCD, 0x0001)]);
}

#[test]
fn usb_allowed_devices_empty_means_no_filter() {
    assert!(validate_usb_allowed_devices(&vec![]).unwrap().is_empty());
}

#[test]
fn usb_allowed_devices_rejects_malformed_entries() {
    for bad in [
        "0951", "951:1666", "0951:16661", "xyz1:1666", "+951:1666", "0951:", ":1666", "",
    ] {
        let err = validate_usb_allowed_devices(&vec![bad.to_string()]).unwrap_err();
        match err {
            Error::ConfigInvalid { reason } => {
                assert!(reason.contains("usb_allowed_devices"), "entry {bad:?}");
            }
            other => panic!("unexpected for {bad:?}: {other:?}"),
        }
    }
}

#[test]
fn pin_prompt_accepts_reasonable_values() {
    validate_pin_prompt("pkcs11_pin_prompt", "Введите PIN токена: ").unwrap();
    validate_pin_prompt("pkcs12_pin_prompt", "Smart-card PIN: ").unwrap();
    validate_pin_prompt("pkcs12_pin_prompt", &"x".repeat(PIN_PROMPT_MAX_LEN)).unwrap();
}

#[test]
fn pin_prompt_rejects_empty() {
    let err = validate_pin_prompt("pkcs12_pin_prompt", "").unwrap_err();
    match err {
        Error::ConfigInvalid { reason } => {
            assert!(reason.contains("pkcs12_pin_prompt"));
            assert!(reason.contains("non-empty"));
        }
        other => panic!("unexpected: {other:?}"),
    }
}

#[test]
fn pin_prompt_rejects_too_long() {
    let err = validate_pin_prompt("pkcs12_pin_prompt", &"x".repeat(PIN_PROMPT_MAX_LEN + 1))
        .unwrap_err();
    match err {
        Error::ConfigInvalid { reason } => {
            assert!(reason.contains("pkcs12_pin_prompt"));
            assert!(reason.contains("at most"));
        }
        other => panic!("unexpected: {other:?}"),
    }
}

#[test]
fn fly_dm_greeter_defaults_when_section_absent() {
    let s = validate_fly_dm_greeter(None).expect("ok");
    assert!(!s.update_wallpaper);
    assert_eq!(s.wallpaper_target, "/usr/share/wallpapers/fly-default-light.jpg");
    assert_eq!(s.wallpaper_backup, "/var/lib/tessera/wallpaper.orig.jpg");
    assert_eq!(s.wallpaper_gravity, Gravity::South);
    assert_eq!(s.wallpaper_font_size, 64);
    assert_eq!(s.wallpaper_text_color, [0, 0, 0, 255]);
    assert_eq!(s.wallpaper_offset_y, 120);
    assert!(s.template_en.contains("{host_id_short}"));
    assert!(s.template_ru.contains("{host_id_short}"));
}

#[test]
fn fly_dm_greeter_partial_section_fills_defaults() {
    let raw = RawFlyDmGreeter {
        update_wallpaper: Some(true),
        wallpaper_target: None,
        wallpaper_backup: None,
        wallpaper_font: None,
        wallpaper_font_size: Some(96),
        wallpaper_text_color: Some("#FFEEDD".to_string()),
        wallpaper_gravity: Some("center".to_string()),
        wallpaper_offset_x: Some(-10),
        wallpaper_offset_y: None,
        template_ru: Some("custom ru {host_id_short}".to_string()),
        template_en: None,
    };
    let s = validate_fly_dm_greeter(Some(&raw)).expect("ok");
    assert!(s.update_wallpaper);
    assert_eq!(s.wallpaper_font_size, 96);
    assert_eq!(s.wallpaper_text_color, [0xFF, 0xEE, 0xDD, 0xFF]);
    assert_eq!(s.wallpaper_gravity, Gravity::Center);
    assert_eq!(s.wallpaper_offset_x, -10);
    assert_eq!(s.wallpaper_offset_y, 120);
    assert!(s.template_en.contains("{host_id_short}"));
    assert_eq!(s.template_ru, "custom ru {host_id_short}");
}

#[test]
fn fly_dm_greeter_rejects_relative_wallpaper_target() {
    let raw = RawFlyDmGreeter {
        update_wallpaper: Some(true),
        wallpaper_target: Some("share/wallpapers/foo.jpg".to_string()),
        ..Default::default()
    };
    let err = validate_fly_dm_greeter(Some(&raw)).unwrap_err();
    match err {
        Error::ConfigInvalid { reason } => assert!(reason.contains("absolute")),
        other => panic!("unexpected: {other:?}"),
    }
}

#[test]
fn fly_dm_greeter_rejects_invalid_hex_color() {
    let raw = RawFlyDmGreeter {
        update_wallpaper: Some(true),
        wallpaper_text_color: Some("not-a-color".to_string()),
        ..Default::default()
    };
    let err = validate_fly_dm_greeter(Some(&raw)).unwrap_err();
    match err {
        Error::ConfigInvalid { reason } => assert!(reason.contains("wallpaper_text_color")),
        other => panic!("unexpected: {other:?}"),
    }
}

#[test]
fn fly_dm_greeter_accepts_8_digit_hex_color_with_alpha() {
    let raw = RawFlyDmGreeter {
        update_wallpaper: Some(true),
        wallpaper_text_color: Some("#11223344".to_string()),
        ..Default::default()
    };
    let s = validate_fly_dm_greeter(Some(&raw)).expect("ok");
    assert_eq!(s.wallpaper_text_color, [0x11, 0x22, 0x33, 0x44]);
}

#[test]
fn fly_dm_greeter_rejects_unknown_gravity() {
    let raw = RawFlyDmGreeter {
        update_wallpaper: Some(true),
        wallpaper_gravity: Some("upside_down".to_string()),
        ..Default::default()
    };
    let err = validate_fly_dm_greeter(Some(&raw)).unwrap_err();
    match err {
        Error::ConfigInvalid { reason } => assert!(reason.contains("wallpaper_gravity")),
        other => panic!("unexpected: {other:?}"),
    }
}

#[test]
fn roles_defaults_when_section_absent() {
    let s = validate_roles(&RawRoles::default()).expect("ok");
    assert_eq!(s.enforce, RolesEnforce::False);
    assert_eq!(s.dir, DEFAULT_ROLES_DIR);
    assert_eq!(s.default_session_ttl, Duration::from_secs(DEFAULT_ROLE_SESSION_TTL_SECONDS));
    assert_eq!(s.enforce_mode(), RoleEnforce::Disabled);
}

#[test]
fn roles_enforce_modes_map_through() {
    for (raw, want_cfg, want_core) in [
        (RawRolesEnforce::False, RolesEnforce::False, RoleEnforce::Disabled),
        (RawRolesEnforce::Warn, RolesEnforce::Warn, RoleEnforce::Warn),
        (RawRolesEnforce::Require, RolesEnforce::Require, RoleEnforce::Require),
    ] {
        let s = validate_roles(&RawRoles { enforce: raw, ..Default::default() }).expect("ok");
        assert_eq!(s.enforce, want_cfg);
        assert_eq!(s.enforce_mode(), want_core);
    }
}

#[test]
fn roles_custom_dir_and_ttl() {
    let s = validate_roles(&RawRoles {
        enforce: RawRolesEnforce::Require,
        dir: Some("/srv/roles".to_string()),
        default_session_ttl_seconds: Some(3600),
    })
    .expect("ok");
    assert_eq!(s.dir, "/srv/roles");
    assert_eq!(s.default_session_ttl, Duration::from_secs(60 * 60));
}

#[test]
fn roles_rejects_relative_dir() {
    let err = validate_roles(&RawRoles { dir: Some("roles".to_string()), ..Default::default() })
        .unwrap_err();
    match err {
        Error::ConfigInvalid { reason } => assert!(reason.contains("[roles].dir")),
        other => panic!("unexpected: {other:?}"),
    }
}

#[test]
fn roles_rejects_zero_ttl() {
    let err = validate_roles(&RawRoles {
        default_session_ttl_seconds: Some(0),
        ..Default::default()
    })
    .unwrap_err();
    match err {
        Error::ConfigInvalid { reason } => {
            assert!(reason.contains("default_session_ttl_seconds"));
        }
        other => panic!("unexpected: {other:?}"),
    }
}

#[test]
fn roles_parses_from_full_raw_config_toml() {
    let raw = RawConfig {
        roles: RawRoles {
            enforce: RawRolesEnforce::Require,
            dir: Some("/var/lib/tessera/roles".to_string()),
            default_session_ttl_seconds: Some(7200),
        },
        ..raw()
    };
    let roles = validate_roles(&raw.roles).expect("validate roles");
    assert_eq!(roles.enforce, RolesEnforce::Require);
    assert_eq!(roles.dir, "/var/lib/tessera/roles");
    assert_eq!(roles.default_session_ttl, Duration::from_secs(2 * 60 * 60));
}

#[test]
fn tags_come_from_the_file_or_from_the_role_base() {
    let roles = RawRoles { dir: Some("/srv/roles".to_string()), ..Default::default() };
    let alone = validate_tags(&RawTags::default(), &roles).unwrap();
    assert_eq!(alone.mode, TagsMode::Standalone);
    assert_eq!(alone.source, DEFAULT_TAGS_FILE);
    let managed = validate_tags(
        &RawTags { enforce: true, mode: RawTagsMode::Managed, source: None },
        &roles,
    )
    .unwrap();
    assert!(managed.enforce);
    assert_eq!(managed.source, "/srv/roles");
    let own = validate_tags(
        &RawTags {
            enforce: false,
            mode: RawTagsMode::Managed,
            source: Some("/srv/tags.toml".to_string()),
        },
        &roles,
    )
    .unwrap();
    assert_eq!(own.source, "/srv/tags.toml");
    let relative = RawTags { source: Some("tags.toml".to_string()), ..Default::default() };
    assert!(reason(validate_tags(&relative, &roles)).contains("[tags].source"));
}

#[test]
fn colors_and_gravities() {
    assert_eq!(parse_hex_color("#000000"), Some([0, 0, 0, 255]));
    assert_eq!(parse_hex_color("#12aBcD"), Some([0x12, 0xab, 0xcd, 255]));
    assert_eq!(parse_hex_color("123456"), None);
    assert_eq!(parse_hex_color("#12345"), None);
    assert_eq!(parse_hex_color("#12345g"), None);
    assert_eq!(parse_gravity("north"), Some(Gravity::North));
    assert_eq!(parse_gravity("West"), Some(Gravity::West));
    assert_eq!(parse_gravity("centre"), Some(Gravity::Center));
    assert_eq!(parse_gravity("up"), None);
}

#[test]
fn mac_policy_needs_its_backend() {
    let p = validate_mac(&RawMacPolicy::default(), true).unwrap();
    assert!(p.fallback_max_integrity.is_none());
    let required = RawMacPolicy {
        cert_integrity: Some(RawCertIntegrityMode::Required),
        fallback_max_integrity: Some(RawIntegrityLabel {
            level: 2,
            categories: "00000000000000ff".to_string(),
        }),
        warn_on_homedir_label_mismatch: Some(false),
        runtime: Some(RawMacRuntimeMode::Auto),
    };
    let p = validate_mac(&required, true).unwrap();
    assert_eq!(p.cert_integrity, CertIntegrityMode::Required);
    assert_eq!(p.runtime, MacRuntimeMode::Auto);
    assert!(!p.warn_on_homedir_label_mismatch);
    let label = p.fallback_max_integrity.unwrap();
    assert_eq!((label.level, label.categories), (2, 0xff));
    assert!(validate_mac(&required, false).is_err());
}

#[test]
fn at_least_one_usb_partition_is_looked_at() {
    assert!(validate_max_usb_partitions(None).unwrap() > 0);
    assert_eq!(validate_max_usb_partitions(Some(1)).unwrap(), 1);
    assert!(reason(validate_max_usb_partitions(Some(0))).contains("max_usb_partitions"));
}

#[test]
fn logging_levels_are_named() {
    let of = |level: &str| {
        let raw = RawLogging {
            level: level.to_string(),
            syslog_facility: None,
            journald_priority: None,
        };
        validate_logging(&raw, &mut AuditLog::new())
    };
    assert_eq!(of("warn").unwrap().level, LogLevel::Warn);
    assert!(reason(of("loud")).contains("loud"));
}

fn messages(log: &AuditLog) -> Vec<String> {
    let text = |e: &AuditEvent| match &e.fields[0] {
        (name, AuditValue::Text(t)) if name == "message" => t.clone(),
        other => panic!("unexpected: {other:?}"),
    };
    log.events.iter().map(text).collect()
}

#[test]
fn deprecated_logging_keys_are_warned_of() {
    let section = |level: &str, facility: Option<&str>, priority: Option<bool>| RawLogging {
        level: level.to_string(),
        syslog_facility: facility.map(str::to_string),
        journald_priority: priority,
    };
    let mut log = AuditLog::new();
    validate_logging(&section("info", Some("auth"), Some(true)), &mut log).unwrap();
    let said = messages(&log);
    assert_eq!(said.len(), 2);
    assert!(said[0].starts_with("[logging].syslog_facility is deprecated and ignored: the PAM"));
    assert_eq!(
        said[1],
        "[logging].journald_priority is deprecated and ignored; remove the key from config.toml"
    );
    assert!(log.events.iter().all(|e| e.target == "tessera.config"));
    assert!(log.events.iter().all(|e| e.level == AuditLevel::Warn));
    let mut log = AuditLog::new();
    assert!(validate_logging(&section("loud", None, Some(false)), &mut log).is_err());
    assert_eq!(messages(&log).len(), 1);
    let mut log = AuditLog::new();
    assert!(validate_logging(&section("info", Some("nowhere"), Some(true)), &mut log).is_err());
    assert!(log.events.is_empty());
}

#[test]
fn a_configuration_warns_though_a_later_section_is_at_fault() {
    let mut raw = raw();
    raw.logging.journald_priority = Some(true);
    raw.max_usb_partitions = Some(0);
    let mut log = AuditLog::new();
    assert!(ValidatedConfig::try_from(&raw, &files(), build(), &mut log).is_err());
    assert_eq!(log.events.len(), 1);
    raw.host_identity.sources.clear();
    let mut log = AuditLog::new();
    assert!(ValidatedConfig::try_from(&raw, &files(), build(), &mut log).is_err());
    assert!(log.events.is_empty());
}

#[test]
fn host_identity_sources_are_named() {
    let s = validate_host_identity(&host_identity()).unwrap();
    assert_eq!(s.sources, vec![HostIdSourceKind::DmiBoardSerial]);
    assert_eq!(s.fallback, HostIdFallback::Deny);
    assert_eq!(s.custom_command_timeout, Duration::from_secs(5));
    assert!(validate_host_identity(&RawHostIdentity { sources: vec![], ..host_identity() }).is_err());
    assert!(validate_host_identity(&RawHostIdentity {
        sources: vec!["phase_of_moon".to_string()],
        ..host_identity()
    })
    .is_err());
    assert!(reason(validate_host_identity(&RawHostIdentity {
        custom_command: Some("host-id".to_string()),
        ..host_identity()
    }))
    .contains("host_identity.custom_command must be an absolute path (got host-id)"));
    let custom = validate_host_identity(&RawHostIdentity {
        sources: vec!["custom_command".to_string()],
        custom_command: Some("/usr/bin/host-id".to_string()),
        custom_command_timeout_seconds: 99,
        ..host_identity()
    })
    .unwrap();
    assert_eq!(custom.custom_command.as_deref(), Some("/usr/bin/host-id"));
    assert_eq!(custom.custom_command_timeout, Duration::from_secs(30));
}

#[test]
fn a_user_mapping_has_one_criterion() {
    let mapping = |cn: Option<&str>, email: Option<&str>, upn: Option<&str>| {
        validate_user_mappings(&vec![RawUserMapping {
            pam_user: "ivan".to_string(),
            cert_subject_cn: cn.map(|s| s.to_string()),
            cert_san_email: email.map(|s| s.to_string()),
            cert_san_upn: upn.map(|s| s.to_string()),
        }])
    };
    let v = mapping(Some("Ivan"), None, None).unwrap();
    assert!(matches!(&v[0].criteria, UserMatchCriteria::SubjectCn(s) if s == "Ivan"));
    let v = mapping(None, Some("i@x"), None).unwrap();
    assert!(matches!(&v[0].criteria, UserMatchCriteria::SanEmail(s) if s == "i@x"));
    assert!(mapping(None, None, None).is_err());
    assert!(mapping(Some("Ivan"), Some("i@x"), None).is_err());
    let users = |names: &[&str]| {
        validate_user_mappings(
            &names
                .iter()
                .map(|name| RawUserMapping {
                    pam_user: name.to_string(),
                    cert_subject_cn: Some("Ivan".to_string()),
                    cert_san_email: None,
                    cert_san_upn: None,
                })
                .collect(),
        )
    };
    assert!(users(&["_svc-1", "a", &"b".repeat(32)]).is_ok());
    for bad in ["", "Ivan", "1a", "-a", "a.b", "a\n", &"b".repeat(33)] {
        assert_eq!(reason(users(&[bad])), "invalid or duplicate pam_user");
    }
    assert_eq!(reason(users(&["ivan", "ivan"])), "invalid or duplicate pam_user");
}

#[test]
fn monitor_defaults_and_bounds() {
    let top = raw();
    let s = validate_monitor(&top, &RawMonitor::default(), RawMonitorFailMode::Strict).unwrap();
    assert_eq!(s.fail_mode, MonitorFailMode::Strict);
    assert_eq!(s.suspend_grace, Duration::from_secs(30));
    assert_eq!(s.on_usb_removed, OnUsbRemoved::Lock);
    assert!(s.socket_path.starts_with('/'));
    let with = |m: RawMonitor| validate_monitor(&raw(), &m, RawMonitorFailMode::Strict);
    let degraded = with(RawMonitor { fail_mode: Some("degraded".to_string()), ..Default::default() });
    assert_eq!(degraded.unwrap().fail_mode, MonitorFailMode::Permissive);
    assert!(reason(with(RawMonitor { timeout_ms: Some(99), ..Default::default() }))
        .contains("(got 99)"));
    assert!(reason(with(RawMonitor { fail_mode: Some("soft".to_string()), ..Default::default() }))
        .contains("\"soft\""));
    assert!(reason(with(RawMonitor {
        on_usb_removed: Some(RawOnUsbRemoved::Hook),
        ..Default::default()
    }))
    .contains("requires monitor.on_usb_removed_hook_path"));
    assert!(reason(with(RawMonitor {
        on_usb_removed_hook_path: Some("/x".to_string()),
        ..Default::default()
    }))
    .contains("is only valid"));
    assert!(reason(with(RawMonitor { socket_path: Some("x".to_string()), ..Default::default() }))
        .contains("monitor.socket_path"));
    assert!(reason(with(RawMonitor { suspend_grace_seconds: Some(601), ..Default::default() }))
        .contains("(got 601)"));
    assert!(reason(with(RawMonitor { idle_timeout_seconds: Some(0), ..Default::default() }))
        .contains("(got 0)"));
    assert!(reason(with(RawMonitor {
        max_concurrent_connections: Some(4097),
        ..Default::default()
    }))
    .contains("(got 4097)"));
}

#[test]
fn pkcs11_settings_belong_to_their_mode() {
    assert!(validate_pkcs11_section(&raw(), Mode::Pkcs12).is_ok());
    let token = RawConfig {
        mode: RawMode::Pkcs11,
        pkcs11_module: Some("/usr/lib/librtpkcs11ecp.so".to_string()),
        pkcs12_path_pattern: None,
        ..raw()
    };
    assert!(validate_pkcs11_section(&token, Mode::Pkcs11).is_ok());
    assert!(validate_pkcs11_section(&RawConfig { pkcs11_module: None, ..token }, Mode::Pkcs11)
        .is_err());
    assert!(validate_pkcs11_label("pkcs11_token_label", "card").is_ok());
    assert!(validate_pkcs11_label("pkcs11_token_label", "").is_err());
}

#[test]
fn the_engine_path_is_a_file_and_goes_with_openssl() {
    let path = Some("/usr/lib/engines/gost.so".to_string());
    let ok = validate_gost_engine_path(&path, CryptoBackend::Openssl, true, &PathProbe::File);
    assert_eq!(ok.unwrap(), path);
    assert!(matches!(
        validate_gost_engine_path(&path, CryptoBackend::Pkcs11Native, true, &PathProbe::File),
        Err(Error::GostEnginePathRequiresOpenssl)
    ));
    assert!(matches!(
        validate_gost_engine_path(&path, CryptoBackend::Openssl, true, &PathProbe::NotAFile),
        Err(Error::GostEnginePathUnreadable { .. })
    ));
    assert!(validate_gost_engine_path(&None, CryptoBackend::Openssl, true, &PathProbe::File).is_err());
    assert_eq!(
        validate_gost_engine_path(&None, CryptoBackend::Openssl, false, &PathProbe::File).unwrap(),
        None
    );
}

#[test]
fn trust_faults_come_as_their_errors() {
    let of = |raw: RawTrust| validate_trust(&raw, &files().trust, 1);
    assert!(of(trust()).is_ok());
    assert!(matches!(
        of(RawTrust { anchors: vec![], ..trust() }),
        Err(Error::Trust(TrustError::AnchorsEmpty))
    ));
    assert!(matches!(
        of(RawTrust { max_chain_depth: 0, ..trust() }),
        Err(Error::Trust(TrustError::MaxChainDepthZero))
    ));
    assert!(matches!(
        of(RawTrust { clock_skew_seconds: 1_000_000, ..trust() }),
        Err(Error::Trust(TrustError::ClockSkewTooLarge))
    ));
    let missing = TrustFiles { anchors: vec![None], intermediates: vec![], crls: vec![] };
    assert!(matches!(
        validate_trust(&trust(), &missing, 1),
        Err(Error::Trust(TrustError::AnchorMissing { .. }))
    ));
    let not_pem = TrustFiles {
        anchors: vec![Some("nonsense".to_string())],
        intermediates: vec![],
        crls: vec![],
    };
    assert!(matches!(
        validate_trust(&trust(), &not_pem, 1),
        Err(Error::Trust(TrustError::AnchorNotPem { .. }))
    ));
    assert!(matches!(
        of(RawTrust {
            pinning: RawPinning {
                enabled: true,
                allowed_root_spki_sha256: vec!["zz".to_string()],
            },
            ..trust()
        }),
        Err(Error::Trust(TrustError::PinningHashInvalid { .. }))
    ));
}

#[test]
fn revocation_is_chosen_in_words() {
    assert!(reason(validate_revocation(&None, &vec![])).contains("trust.revocation.mode"));
    let off = validate_revocation(&Some(revocation(RawRevocationMode::Off)), &vec![]).unwrap();
    assert_eq!(off.mode, RevocationMode::Off);
    assert!(matches!(
        validate_revocation(&Some(revocation(RawRevocationMode::Crl)), &vec![]),
        Err(Error::Trust(TrustError::CrlPathsEmpty))
    ));
    let crl = RawRevocation {
        crl_paths: vec!["/etc/tessera/ca.crl".to_string()],
        ..revocation(RawRevocationMode::Crl)
    };
    assert!(matches!(
        validate_revocation(&Some(crl), &vec![false]),
        Err(Error::Trust(TrustError::CrlPathMissing { .. }))
    ));
    let crl = RawRevocation {
        crl_paths: vec!["/etc/tessera/ca.crl".to_string()],
        crl_max_age_hours: Some(24),
        ..revocation(RawRevocationMode::Crl)
    };
    let section = validate_revocation(&Some(crl), &vec![true]).unwrap();
    assert_eq!(section.crl_max_age, Some(Duration::from_secs(24 * 3600)));
    assert!(matches!(
        validate_revocation(&Some(revocation(RawRevocationMode::Ocsp)), &vec![]),
        Err(Error::Trust(TrustError::OcspResponderInvalid { .. }))
    ));
}

#[test]
fn overrides_name_hosts_and_do_not_overlap() {
    let over = |host: &str| RawTrustOverride {
        when_host_id_in: vec![host.to_string()],
        anchors: vec!["/etc/tessera/a.pem".to_string()],
        intermediates: vec![],
    };
    let found =
        || TrustFiles { anchors: vec![Some(PEM.to_string())], intermediates: vec![], crls: vec![] };
    let one = validate_trust_override(&over("h1"), &found()).unwrap();
    assert!(one.when_host_id_in.contains("h1"));
    assert!(matches!(
        validate_trust_override(&RawTrustOverride { anchors: vec![], ..over("h1") }, &found()),
        Err(Error::Trust(TrustError::TrustOverrideAnchorsEmpty))
    ));
    assert!(matches!(
        validate_trust_override(&over(""), &found()),
        Err(Error::Trust(TrustError::TrustOverrideHostIdEmpty { .. }))
    ));
    assert!(check_overlaps(&vec![over("h1"), over("h2")]).is_ok());
    assert!(matches!(
        check_overlaps(&vec![over("h1"), over("h1")]),
        Err(Error::Trust(TrustError::TrustOverrideHostIdOverlap { .. }))
    ));
}

#[test]
fn a_whole_configuration_is_validated() {
    let cfg = load(&raw()).unwrap();
    assert_eq!(cfg.crypto_backend, CryptoBackend::Openssl);
    assert_eq!(cfg.mode, Mode::Pkcs12);
    assert_eq!(cfg.usb_wait, Duration::from_secs(10));
    assert_eq!(cfg.trust.max_supported_profile_version, 1);
    assert_eq!(cfg.logging.level, LogLevel::Info);
    assert!(!cfg.needs_gost());
}

#[test]
fn a_configuration_that_allows_gost_names_the_engine() {
    let gost = || RawTrust {
        allowed_signature_algorithms: vec![
            "id-tc26-signwithdigest-gost3410-2012-256".to_string(),
        ],
        ..trust()
    };
    assert!(load(&RawConfig { trust: gost(), ..raw() }).is_err());
    let cfg = load(&RawConfig {
        trust: gost(),
        gost_engine_path: Some("/usr/lib/engines/gost.so".to_string()),
        ..raw()
    })
    .unwrap();
    assert!(cfg.needs_gost());
    assert_eq!(cfg.gost_engine_path.as_deref(), Some("/usr/lib/engines/gost.so"));
}

#[test]
fn a_config_without_an_engine_path_never_loads_one() {
    let cfg = load(&raw()).unwrap();
    let cell = EngineCell::new();
    let res = ensure_loaded(&cell, &cfg);
    assert!(
        matches!(res, EngineStep::Settled(Err(GostEngineError::PathNotConfigured))),
        "expected a refusal, got {res:?}",
    );
    assert!(!is_available(&cell));
}

#[test]
fn a_token_has_one_role() {
    let both = RawConfig {
        mode: RawMode::Pkcs11,
        pkcs11_module: Some("/usr/lib/module.so".to_string()),
        pkcs12_source: RawPkcs12Source::TokenObject,
        pkcs12_token_object_label: Some("tessera-credential".to_string()),
        pkcs12_path_pattern: None,
        ..raw()
    };
    assert!(load(&both).is_err());
}

#[test]
fn a_hook_fault_refuses_the_configuration() {
    let hook = RawHook {
        stage: HookStage::PreAuth,
        command: vec![],
        timeout_seconds: 10,
        on_failure: None,
        run_as: None,
        env: StringMap::new(),
    };
    assert!(matches!(
        load(&RawConfig { hooks: vec![hook], ..raw() }),
        Err(Error::HookValidation(HookValidationError::EmptyCommand { .. }))
    ));
}

#[test]
fn privileged_paths_are_listed_and_replaced() {
    let cfg = RawConfig {
        gost_engine_path: Some("/lib/gost.so".to_string()),
        ..raw()
    };
    let listed: Vec<String> = privileged_paths(&cfg).iter().map(|p| p.path.clone()).collect();
    assert_eq!(engine_path_to_load(&cfg).as_deref(), Some("/lib/gost.so"));
    let native = RawConfig { crypto_backend: RawCryptoBackend::Pkcs11Native, ..cfg };
    assert_eq!(engine_path_to_load(&native), None);
    let cfg = RawConfig { crypto_backend: RawCryptoBackend::Openssl, ..native };
    let renamed: Vec<String> = listed.iter().map(|p| format!("/real{p}")).collect();
    assert!(listed.contains(&"/lib/gost.so".to_string()));
    let cfg = with_canonical_paths(cfg, &renamed);
    assert_eq!(cfg.gost_engine_path.as_deref(), Some("/real/lib/gost.so"));
    assert_eq!(cfg.trust.anchors, vec!["/real/etc/tessera/anchors/ca.pem".to_string()]);
    assert!(not_root_controlled_text("gost_engine_path", "/lib/gost.so").contains("/lib/gost.so"));
}
