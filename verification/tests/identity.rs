//! Host identity, host binding, user mapping and logging levels.

use tessera_core::audit::{AuditLevel, AuditLog, AuditValue};
use tessera_core::config::validated::{
    HostIdFallback, HostIdentitySection, UserMapping, UserMatchCriteria,
};
use tessera_core::error::{Error, HostIdentityError};
use tessera_core::host_binding::{
    sha256_hex, verify_host_binding, HostBindingError, HostBindingExtError, HostDescriptor,
};
use tessera_core::host_identity::chain::{
    normalize_host_id, HostIdentityResolver, ResolveStep, ResolvedHostId,
};
use tessera_core::host_identity::custom_command::{
    CommandAction, CommandPoll, CommandWait, CustomCommandSource,
};
use tessera_core::host_identity::source::{
    CommandEnd, HostIdSource, HostIdSourceKind, SourceReply, SourceRequest,
};
use tessera_core::logging::{LogLevel, SyslogFacility};
use tessera_core::mapping::{match_user, MappingError, MatchReason};
use tessera_core::time::Duration;
use tessera_core::x509::{Certificate, SignatureAlg};

fn bound(host: &[&str]) -> Result<Vec<HostDescriptor>, HostBindingExtError> {
    Ok(host.iter().map(|h| HostDescriptor::from_str(h)).collect())
}

#[test]
fn exact_host_match_ok() {
    let host_hash = sha256_hex("machine-A");
    verify_host_binding(bound(&["machine-A"]), &host_hash, &mut AuditLog::new()).unwrap();
}

#[test]
fn wildcard_host_ok() {
    verify_host_binding(bound(&["*"]), "any-host-hash", &mut AuditLog::new()).unwrap();
}

#[test]
fn host_mismatch_rejected() {
    let host_hash = sha256_hex("machine-A");
    let mut log = AuditLog::new();
    let err = verify_host_binding(bound(&["machine-B"]), &host_hash, &mut log).unwrap_err();
    assert_eq!(log.events.len(), 1);
    assert_eq!(log.events[0].target, "tessera.host_binding");
    assert_eq!(log.events[0].name, "host_binding_violation");
    assert_eq!(log.events[0].level, AuditLevel::Warn);
    assert_eq!(
        log.events[0].fields[0],
        ("host_id_hash_prefix".to_string(), AuditValue::Text(host_hash[..8].to_string()))
    );
    match err {
        HostBindingError::HostNotAllowed { host_id_hash_prefix } => {
            assert_eq!(host_id_hash_prefix.len(), 8);
            assert!(host_hash.starts_with(&host_id_hash_prefix));
        }
        other => panic!("expected HostNotAllowed, got {other:?}"),
    }
}

#[test]
fn missing_host_extension_rejected() {
    let mut log = AuditLog::new();
    let missing = Err(HostBindingExtError::Missing);
    let err = verify_host_binding(missing, "h", &mut log).unwrap_err();
    assert!(matches!(err, HostBindingError::HostExtensionMissing));
    let malformed = Err(HostBindingExtError::Malformed("x".to_string()));
    let err = verify_host_binding(malformed, "h", &mut log).unwrap_err();
    assert!(log.events.is_empty());
    assert!(matches!(&err, HostBindingError::HostExtensionMalformed(_)));
    assert!(err.message().contains('x'));
}

#[test]
fn raw_machine_id_is_hashed_and_matched() {
    let raw = "raw-machine-id-xyz";
    let host_hash = sha256_hex(raw);
    verify_host_binding(bound(&[raw]), &host_hash, &mut AuditLog::new()).unwrap();
}

#[test]
fn sha256_hex_descriptor_matches_case_insensitively() {
    let host_hash = sha256_hex("zzz");
    let entry = format!("sha256:{}", host_hash.to_uppercase());
    verify_host_binding(bound(&[&entry]), &host_hash, &mut AuditLog::new()).unwrap();
}

#[test]
fn hashes_are_sha256_in_lower_case() {
    assert_eq!(
        sha256_hex("abc"),
        "ba7816bf8f01cfea414140de5dae2223b00361a396177a9cb410ff61f20015ad"
    );
}

fn cfg(sources: Vec<HostIdSourceKind>, fallback: HostIdFallback) -> HostIdentitySection {
    HostIdentitySection {
        sources,
        fallback,
        override_value: None,
        custom_command: None,
        custom_command_timeout: Duration::from_secs(5),
    }
}

fn file(text: &str) -> SourceReply {
    SourceReply::File(Ok(text.to_string()))
}

fn missing() -> SourceReply {
    SourceReply::File(Err("No such file or directory (os error 2)".to_string()))
}

#[test]
fn hash_prefix_returns_first_8_hex_chars() {
    let resolver = HostIdentityResolver::from_validated(
        &cfg(vec![HostIdSourceKind::MachineId], HostIdFallback::Deny),
        "/".to_string(),
    );
    let r = resolver.resolve(vec![file("raw")]).unwrap();
    assert_eq!(r.hash_prefix().len(), 8);
    assert_eq!(r.hash_prefix(), &r.hash_hex[..8]);
    assert_eq!(r.hash_hex, sha256_hex("raw"));
}

#[test]
fn hash_prefix_is_shorter_when_hash_is_shorter() {
    let r = ResolvedHostId {
        source_kind: HostIdSourceKind::MachineId,
        raw: String::new(),
        normalized: String::new(),
        hash_hex: "abc".to_string(),
    };
    assert_eq!(r.hash_prefix(), "abc");
}

#[test]
fn probe_all_returns_all_sources_with_outcomes() {
    let resolver = HostIdentityResolver::from_validated(
        &cfg(
            vec![HostIdSourceKind::MachineId, HostIdSourceKind::DmiBoardSerial],
            HostIdFallback::Deny,
        ),
        "/tmp/root".to_string(),
    );
    let asked = resolver.requests();
    assert!(matches!(&asked[0], SourceRequest::ReadFile(p) if p == "/tmp/root/etc/machine-id"));
    let probes = resolver.probe_all(vec![file("abc123\n"), missing()]);
    assert_eq!(probes.len(), 2);
    assert_eq!(probes[0].source, HostIdSourceKind::MachineId);
    assert!(probes[0].outcome.is_ok());
    assert_eq!(probes[1].source, HostIdSourceKind::DmiBoardSerial);
    assert!(probes[1].outcome.is_err());
}

#[test]
fn probe_all_does_not_affect_resolve_first_working_policy() {
    let resolver = HostIdentityResolver::from_validated(
        &cfg(
            vec![HostIdSourceKind::MachineId, HostIdSourceKind::Hostname],
            HostIdFallback::Deny,
        ),
        "/tmp/root".to_string(),
    );
    let probes = resolver.probe_all(vec![missing(), file("ironman\n")]);
    assert_eq!(probes.len(), 2);
    assert!(probes[0].outcome.is_err());
    assert!(probes[1].outcome.is_ok());
    let id = resolver.resolve(vec![missing(), file("ironman\n")]).expect("hostname works");
    assert_eq!(id.source_kind, HostIdSourceKind::Hostname);
    assert_eq!(id.raw, "ironman");
}

#[test]
fn a_resolved_identity_says_where_it_came_from() {
    let text = |s: &str| AuditValue::Text(s.to_string());
    let resolver = |fallback| {
        let section = cfg(vec![HostIdSourceKind::Hostname], fallback);
        HostIdentityResolver::from_validated(&section, "/".to_string())
    };
    let known = resolver(HostIdFallback::Warn).resolve(vec![file("pc-1")]).unwrap();
    let e = known.event(HostIdFallback::Warn);
    assert_eq!((e.target.as_str(), e.level), ("tessera.host_identity", AuditLevel::Info));
    assert_eq!(e.fields[0], ("source".to_string(), text("Hostname")));
    assert_eq!(e.fields[2], ("host_id_hash".to_string(), text(&sha256_hex("pc-1"))));
    assert_eq!(e.fields[3], ("message".to_string(), text("host_id resolved")));
    let unknown = resolver(HostIdFallback::Allow).resolve(vec![missing()]).unwrap();
    let e = unknown.event(HostIdFallback::Allow);
    assert_eq!(e.fields[1], ("raw".to_string(), text("unknown")));
    assert_eq!(e.fields[3], ("fallback".to_string(), text("Allow")));
    assert_eq!(e.fields[4], ("message".to_string(), text("host_id fallback to unknown")));
}

#[test]
fn resolving_asks_one_source_after_the_other() {
    let resolver = HostIdentityResolver::from_validated(
        &cfg(
            vec![HostIdSourceKind::MachineId, HostIdSourceKind::Hostname],
            HostIdFallback::Deny,
        ),
        "/".to_string(),
    );
    let walk = match resolver.begin() {
        ResolveStep::Fetch(walk, SourceRequest::ReadFile(p)) => {
            assert_eq!(p, "/etc/machine-id");
            walk
        }
        other => panic!("unexpected: {other:?}"),
    };
    let walk = match resolver.step(walk, missing()) {
        ResolveStep::Fetch(walk, SourceRequest::ReadFile(p)) => {
            assert_eq!(p, "/etc/hostname");
            walk
        }
        other => panic!("unexpected: {other:?}"),
    };
    assert!(matches!(resolver.step(walk, file("pc-1")), ResolveStep::Done(Ok(_))));
    assert!(matches!(
        resolver.resolve(vec![missing(), file("")]),
        Err(HostIdentityError::AllSourcesFailed { .. })
    ));
}

#[test]
fn identities_are_normalized() {
    assert_eq!(normalize_host_id("  AB-cd:EF 01 "), "ab-cdef01");
    let once = normalize_host_id("Serial: 42");
    assert_eq!(normalize_host_id(&once), once);
    assert_eq!(normalize_host_id("ПРИВЕТ"), "привет");
}

#[test]
fn timeout_kills_long_running_child_and_reaps_promptly() {
    let ms = 1_000_000;
    let wait = CommandWait::new(0, Duration::from_millis(100));
    assert!(matches!(wait.on_poll(CommandPoll::Running, 50 * ms), CommandAction::SleepAndPoll(_)));
    assert!(matches!(
        wait.on_poll(CommandPoll::Running, 101 * ms),
        CommandAction::KillAndReport(CommandEnd::TimedOut)
    ));
    assert!(matches!(wait.on_poll(CommandPoll::Exited, 50 * ms), CommandAction::Collect));
    let src = CustomCommandSource::new("/bin/loop".to_string(), Duration::from_millis(100));
    let result = src.value("/", SourceReply::Command(CommandEnd::TimedOut));
    assert!(matches!(result, Err(HostIdentityError::CommandTimeout)));
}

#[test]
fn successful_command_returns_trimmed_stdout() {
    let src = CustomCommandSource::new("/bin/ok".to_string(), Duration::from_secs(2));
    let ended = |success: bool| {
        SourceReply::Command(CommandEnd::Exited {
            success,
            code: Some(if success { 0 } else { 3 }),
            stdout: b"host-xyz\n".to_vec(),
            stderr: b" bad \n".to_vec(),
        })
    };
    assert_eq!(src.value("/", ended(true)).expect("ok"), "host-xyz");
    assert!(matches!(
        src.value("/", ended(false)),
        Err(HostIdentityError::CommandFailed { stderr, code: Some(3) }) if stderr == "bad"
    ));
}

#[test]
fn source_kinds_have_names() {
    for name in [
        "machine_id",
        "dmi_board_serial",
        "dmi_system_uuid",
        "dmi_system_serial",
        "hostname",
        "custom_command",
        "override",
    ] {
        assert_eq!(HostIdSourceKind::from_str(name).unwrap().as_str(), name);
    }
    assert!(HostIdSourceKind::from_str("mac").is_err());
}

#[test]
fn log_level_as_str_round_trips_through_from_str() {
    for level in [
        LogLevel::Trace,
        LogLevel::Debug,
        LogLevel::Info,
        LogLevel::Warn,
        LogLevel::Error,
    ] {
        let parsed: LogLevel = LogLevel::from_str(level.as_str()).expect("canonical name parses");
        assert_eq!(parsed, level);
    }
    assert!(LogLevel::from_str("INFO ").is_err());
    assert!(SyslogFacility::from_str("auth").is_ok());
    assert!(SyslogFacility::from_str("kern").is_err());
}

#[test]
fn error_display_includes_source_chain() {
    let err = Error::Io { context: "anchor".to_string(), source: "missing".to_string() };
    let s = err.message();
    assert!(s.contains("anchor"));
    assert!(s.contains("missing"));
}

fn cn_mapping(user: &str, cn: &str) -> UserMapping {
    UserMapping {
        pam_user: user.to_string(),
        criteria: UserMatchCriteria::SubjectCn(cn.to_string()),
    }
}

fn email_mapping(user: &str, email: &str) -> UserMapping {
    UserMapping {
        pam_user: user.to_string(),
        criteria: UserMatchCriteria::SanEmail(email.to_string()),
    }
}

fn upn_mapping(user: &str, upn: &str) -> UserMapping {
    UserMapping {
        pam_user: user.to_string(),
        criteria: UserMatchCriteria::SanUpn(upn.to_string()),
    }
}

fn leaf() -> Certificate {
    Certificate {
        serial_hex: "42".to_string(),
        subject_dn: None,
        issuer_dn: None,
        signature_alg: SignatureAlg::RsaWithSha256,
        public_key: Vec::new(),
        subject_cn: Some("alice".to_string()),
        san_emails: vec!["alice@example.org".to_string()],
    }
}

#[test]
fn matches_subject_cn() {
    let cert = leaf();
    let m = match_user(&cert, "alice", &vec![cn_mapping("alice", "alice")]).unwrap();
    assert_eq!(m.pam_user, "alice");
    assert_eq!(m.matched_by, MatchReason::CnExact);
}

#[test]
fn matches_san_email() {
    let cert = leaf();
    let m = match_user(&cert, "alice", &vec![email_mapping("alice", "alice@example.org")]).unwrap();
    assert_eq!(m.matched_by, MatchReason::SanEmail);
}

#[test]
fn rejects_when_pam_user_has_no_mapping() {
    let cert = leaf();
    let err = match_user(&cert, "bob", &vec![cn_mapping("alice", "alice")]).unwrap_err();
    assert_eq!(err.message(), "no [[user_mapping]] entry exists for pam_user=\"bob\"");
    match err {
        MappingError::NoMappingForUser(u) => assert_eq!(u, "bob"),
        other => panic!("unexpected: {other:?}"),
    }
}

#[test]
fn rejects_when_no_criterion_matches() {
    let cert = leaf();
    let err = match_user(&cert, "alice", &vec![cn_mapping("alice", "eve")]).unwrap_err();
    assert_eq!(
        err.message(),
        "subject mismatch for pam_user=\"alice\": expected_cn=Some(\"eve\") \
         found_cn=Some(\"alice\") expected_email=None found_emails=[\"alice@example.org\"]"
    );
    match err {
        MappingError::SubjectMismatch { pam_user, expected_cn, found_cn, .. } => {
            assert_eq!(pam_user, "alice");
            assert_eq!(expected_cn.as_deref(), Some("eve"));
            assert_eq!(found_cn.as_deref(), Some("alice"));
        }
        other => panic!("unexpected: {other:?}"),
    }
}

#[test]
fn email_mismatch_surfaces_found_emails() {
    let cert = leaf();
    let err = match_user(&cert, "alice", &vec![email_mapping("alice", "wrong@example.org")])
        .unwrap_err();
    match err {
        MappingError::SubjectMismatch { expected_email, found_emails, .. } => {
            assert_eq!(expected_email.as_deref(), Some("wrong@example.org"));
            assert!(found_emails.contains(&"alice@example.org".to_string()));
        }
        other => panic!("unexpected: {other:?}"),
    }
}

#[test]
fn upn_only_mapping_yields_empty_mapping_error() {
    let cert = leaf();
    let err = match_user(&cert, "alice", &vec![upn_mapping("alice", "alice@AD")]).unwrap_err();
    assert!(matches!(err, MappingError::EmptyMapping(_)));
}

#[test]
fn first_matching_criterion_wins_when_multiple_cover_user() {
    let cert = leaf();
    let mappings = vec![
        cn_mapping("alice", "ghost"),
        email_mapping("alice", "alice@example.org"),
    ];
    let m = match_user(&cert, "alice", &mappings).unwrap();
    assert_eq!(m.matched_by, MatchReason::SanEmail);
}
