//! Integrity labels, the session policy and the rate limit of its reports.

use tessera_core::audit::{AuditLog, AuditValue};
use tessera_core::config::validated::{CertIntegrityMode, MacPolicy, MacRuntimeMode};
use tessera_core::mac::audit::{
    emit_caps_missing, emit_cert_ext_parse_failed, emit_mask_exceeds_ceiling,
    emit_runtime_disabled, emit_runtime_fallback, emit_sessions_file_warn, emit_socket_label,
    reset_parse_failed_cache, should_emit_parse_failed, ParseFailCache, EVENT_CERT_LACKS_EXT,
    EVENT_INTEGRITY_APPLIED, EVENT_INTEGRITY_CAPPED, EVENT_MAC_APPLY_FAILED,
    EVENT_MAC_CAPS_MISSING, EVENT_MAC_FALLBACK_USED, EVENT_MAC_RUNTIME_DISABLED,
    EVENT_MAC_RUNTIME_FALLBACK, EVENT_MAC_RUNTIME_REQUIRED, EVENT_MAC_SESSIONS_FILE_WARN,
    EVENT_MAC_SKIPPED, EVENT_MAC_SOCKET_LABEL, EVENT_MAC_USER_UNKNOWN, EVENT_MASK_EXCEEDS_CEILING,
    PARSE_FAIL_CACHE_CAP, PARSE_FAIL_RATE_WINDOW_NANOS,
};
use tessera_core::mac::backend::{MacBackend, MacError, MacRuntime, StubBackend};
use tessera_core::mac::label::{IntegrityLabel, LabelDerError};
use tessera_core::mac::orchestrator::{
    apply_session_policy, effective_label, is_interactive_service, OrchestratorError, Outcome,
    OutcomeKind, SessionContext,
};
use tessera_core::x509::CertIdent;

fn label(level: i8, categories: u64) -> IntegrityLabel {
    IntegrityLabel { level, categories }
}

fn decode(der: &[u8]) -> Result<IntegrityLabel, LabelDerError> {
    IntegrityLabel::from_der(der, &mut AuditLog::new())
}

#[test]
fn labels_are_written_and_read_back() {
    let l = label(2, 0x0102);
    let der = l.to_der().unwrap();
    assert_eq!(der, vec![0x30, 8, 0x02, 1, 2, 0x03, 3, 0, 1, 2]);
    assert_eq!(decode(&der).unwrap(), l);
    for l in [label(-128, 0), label(127, u64::MAX), label(0, 1), label(-1, 1 << 40)] {
        assert_eq!(decode(&l.to_der().unwrap()).unwrap(), l);
    }
    assert!(matches!(decode(&[]), Err(LabelDerError::Malformed("not a SEQUENCE"))));
    assert!(matches!(
        decode(&[0x30, 3, 0x02, 1, 2, 9]),
        Err(LabelDerError::Malformed("trailing bytes after SEQUENCE"))
    ));
    assert!(matches!(
        decode(&[0x30, 4, 0x02, 2, 1, 0]),
        Err(LabelDerError::LevelOutOfRange)
    ));
}

#[test]
fn categories_beyond_the_kernel_are_noted() {
    let mut log = AuditLog::new();
    let der = label(0, 1 << 32).to_der().unwrap();
    IntegrityLabel::from_der(&der, &mut log).unwrap();
    assert_eq!(log.events.len(), 1);
    let der = label(0, u64::from(u32::MAX)).to_der().unwrap();
    IntegrityLabel::from_der(&der, &mut log).unwrap();
    assert_eq!(log.events.len(), 1);
}

#[test]
fn labels_meet() {
    assert_eq!(label(2, 0b110).intersect(&label(1, 0b011)), label(1, 0b010));
    assert_eq!(label(1, 0b011).intersect(&label(2, 0b110)), label(1, 0b010));
    assert!(label(1, 0b01).strictly_below(&label(1, 0b11)));
    assert!(label(0, 0b01).strictly_below(&label(1, 0b01)));
    assert!(!label(1, 0b01).strictly_below(&label(1, 0b01)));
    assert!(!label(0, 0b10).strictly_below(&label(1, 0b01)));
    let user = label(2, 0b11);
    let capped = label(5, 0b101).intersect_cert_with_user(&user);
    assert!(capped.level <= user.level);
    assert_eq!(capped.categories & !user.categories, 0);
}

struct Backend {
    runtime: MacRuntime,
    user: Option<IntegrityLabel>,
    home: Option<IntegrityLabel>,
    refuses: bool,
    asked: Vec<String>,
}

impl MacBackend for Backend {
    fn probe(&mut self) -> MacRuntime {
        self.asked.push("probe".to_string());
        self.runtime
    }

    fn get_user_mnkc(&mut self, user: &str) -> Result<IntegrityLabel, MacError> {
        self.asked.push(format!("user {user}"));
        self.user.ok_or(MacError::UserUnknown { user: format!("x{user}") })
    }

    fn apply_session(&mut self, label: IntegrityLabel) -> Result<(), MacError> {
        self.asked.push(format!("apply {} {}", label.level, label.categories));
        if self.refuses {
            Err(MacError::CapMissing)
        } else {
            Ok(())
        }
    }

    fn get_file_label(&mut self, path: &str) -> Result<IntegrityLabel, MacError> {
        self.asked.push(format!("file {path}"));
        self.home.ok_or(MacError::Unavailable)
    }

    fn set_file_label(&mut self, _: &str, _: IntegrityLabel, _: bool) -> Result<(), MacError> {
        self.asked.push("set file".to_string());
        Ok(())
    }

    fn set_fd_label(&mut self, _: i32, _: IntegrityLabel, _: bool) -> Result<(), MacError> {
        self.asked.push("set fd".to_string());
        Ok(())
    }
}

fn backend() -> Backend {
    Backend {
        runtime: MacRuntime::Active,
        user: Some(label(3, 0b11)),
        home: None,
        refuses: false,
        asked: vec![],
    }
}

fn ident(fingerprint: &str) -> CertIdent {
    CertIdent {
        serial: "42".to_string(),
        issuer: "CN=ca".to_string(),
        cn: "alice".to_string(),
        fingerprint: fingerprint.to_string(),
    }
}

fn ctx() -> SessionContext {
    SessionContext {
        pam_user: "alice".to_string(),
        pam_service: "sshd".to_string(),
        cert_ident: ident("aa"),
        home_dir: Some("/home/alice".to_string()),
    }
}

fn policy(cert_integrity: CertIntegrityMode) -> MacPolicy {
    MacPolicy {
        cert_integrity,
        fallback_max_integrity: None,
        warn_on_homedir_label_mismatch: true,
        runtime: MacRuntimeMode::Auto,
    }
}

fn names(log: &AuditLog) -> Vec<String> {
    log.events.iter().map(|e| e.name.clone()).collect()
}

#[test]
fn a_session_gets_the_bound_of_its_certificate() {
    let mut log = AuditLog::new();
    let p = policy(CertIntegrityMode::Required);
    let mut b = backend();
    let out = apply_session_policy(&mut b, &p, Some(label(1, 0b01)), &ctx(), &mut log).unwrap();
    assert!(matches!(out.kind, OutcomeKind::Applied(l) if l == label(1, 0b01)));
    assert_eq!(b.asked, vec!["probe", "user alice", "file /home/alice", "apply 1 1"]);
    assert_eq!(names(&log), vec![EVENT_INTEGRITY_CAPPED, EVENT_INTEGRITY_APPLIED]);
    assert!(log.events[1]
        .fields
        .iter()
        .any(|f| f.0 == "F_pam_user" && matches!(&f.1, AuditValue::Text(s) if s == "alice")));
    assert_eq!(
        effective_label(&p, Some(label(9, 0b01)), label(3, 0b11)).level,
        3
    );
}

#[test]
fn a_session_without_a_bound_gets_the_fallback() {
    let mut log = AuditLog::new();
    let p = MacPolicy {
        fallback_max_integrity: Some(label(0, 0b01)),
        ..policy(CertIntegrityMode::Optional)
    };
    let mut b = Backend { home: Some(label(2, 0)), ..backend() };
    let out = apply_session_policy(&mut b, &p, None, &ctx(), &mut log).unwrap();
    assert!(matches!(out.kind, OutcomeKind::Applied(l) if l.level == 0));
    assert_eq!(b.asked.last().map(String::as_str), Some("apply 0 1"));
    assert_eq!(b.asked.iter().filter(|a| a.starts_with("apply")).count(), 1);
    assert_eq!(names(&log)[0], EVENT_MAC_FALLBACK_USED);
}

fn run(
    mut b: Backend,
    p: &MacPolicy,
    max: Option<IntegrityLabel>,
) -> (Result<Outcome, OrchestratorError>, Vec<String>, Vec<String>) {
    let mut log = AuditLog::new();
    let r = apply_session_policy(&mut b, p, max, &ctx(), &mut log);
    (r, names(&log), b.asked)
}

#[test]
fn refusals_of_a_session_are_reported() {
    let required = policy(CertIntegrityMode::Required);
    let (r, log, asked) = run(backend(), &required, None);
    assert!(matches!(r, Err(OrchestratorError::CertLacksExt)));
    assert_eq!(log, vec![EVENT_CERT_LACKS_EXT]);
    assert_eq!(asked, vec!["probe"]);
    let off = || Backend { runtime: MacRuntime::Disabled, ..backend() };
    let (r, log, asked) = run(off(), &required, Some(label(0, 0)));
    assert!(matches!(r, Err(OrchestratorError::RuntimeRequired(MacRuntime::Disabled))));
    assert_eq!(log, vec![EVENT_MAC_RUNTIME_REQUIRED]);
    assert_eq!(asked, vec!["probe"]);
    let (r, log, asked) = run(off(), &policy(CertIntegrityMode::Optional), None);
    assert!(matches!(r.unwrap().kind, OutcomeKind::Skipped("runtime_inactive")));
    assert_eq!(log, vec![EVENT_MAC_SKIPPED]);
    assert_eq!(asked, vec!["probe"]);
    let (r, _, asked) = run(backend(), &policy(CertIntegrityMode::Ignore), None);
    assert!(matches!(r.unwrap().kind, OutcomeKind::Skipped("policy_ignore")));
    assert!(asked.is_empty());
    let unknown = Backend { user: None, ..backend() };
    let (r, log, asked) = run(unknown, &required, Some(label(0, 0)));
    assert!(matches!(
        r,
        Err(OrchestratorError::ApplyFailed(MacError::UserUnknown { user })) if user == "alice"
    ));
    assert_eq!(log, vec![EVENT_MAC_USER_UNKNOWN]);
    assert_eq!(asked, vec!["probe", "user alice"]);
    let refusing = Backend { refuses: true, ..backend() };
    let (r, log, _) = run(refusing, &required, Some(label(3, 0b11)));
    assert!(matches!(r, Err(OrchestratorError::ApplyFailed(MacError::CapMissing))));
    assert_eq!(log, vec![EVENT_MAC_APPLY_FAILED]);
}

#[test]
fn a_stub_backend_does_nothing() {
    let mut stub = StubBackend::new();
    assert_eq!(stub.probe(), MacRuntime::Unavailable);
    assert_eq!(stub.get_user_mnkc("u").unwrap(), label(127, u64::MAX));
    assert_eq!(stub.get_file_label("/x").unwrap(), label(0, 0));
    assert!(is_interactive_service("sshd"));
    assert!(!is_interactive_service("cron"));
}

#[test]
fn a_report_is_made_once_a_minute() {
    let mut cache = ParseFailCache::new();
    assert!(should_emit_parse_failed(&mut cache, "aa", 0));
    assert!(!should_emit_parse_failed(&mut cache, "aa", PARSE_FAIL_RATE_WINDOW_NANOS - 1));
    assert!(should_emit_parse_failed(&mut cache, "bb", 5));
    assert!(should_emit_parse_failed(&mut cache, "aa", PARSE_FAIL_RATE_WINDOW_NANOS));
    reset_parse_failed_cache(&mut cache);
    assert!(should_emit_parse_failed(&mut cache, "bb", 6));
    let mut log = AuditLog::new();
    emit_cert_ext_parse_failed(&mut cache, &mut log, 7, "alice", &ident("bb"), "bad");
    assert!(log.events.is_empty());
    emit_cert_ext_parse_failed(&mut cache, &mut log, 7, "alice", &ident("cc"), "bad");
    assert_eq!(log.events.len(), 1);
}

#[test]
fn a_report_is_suppressed_while_others_are_made() {
    let mut cache = ParseFailCache::new();
    assert!(should_emit_parse_failed(&mut cache, "aa", 0));
    for i in 1..PARSE_FAIL_CACHE_CAP {
        assert!(should_emit_parse_failed(&mut cache, &format!("f{i}"), i as u64));
        assert!(!should_emit_parse_failed(&mut cache, "aa", i as u64));
    }
    let mut log = AuditLog::new();
    let late = PARSE_FAIL_RATE_WINDOW_NANOS - 1;
    emit_cert_ext_parse_failed(&mut cache, &mut log, late, "bob", &ident("aa"), "other");
    assert!(log.events.is_empty());
    emit_cert_ext_parse_failed(&mut cache, &mut log, late + 1, "bob", &ident("aa"), "other");
    assert_eq!(log.events.len(), 1);
}

fn field(log: &AuditLog, name: &str) -> Option<String> {
    log.events.last()?.fields.iter().find(|f| f.0 == name).map(|f| match &f.1 {
        AuditValue::Text(s) => s.clone(),
        AuditValue::Int(n) => n.to_string(),
    })
}

#[test]
fn reports_carry_their_fields() {
    let mut log = AuditLog::new();
    emit_caps_missing(&mut log, "CHMAC");
    assert_eq!(names(&log), vec![EVENT_MAC_CAPS_MISSING]);
    emit_runtime_fallback(&mut log, "kernel");
    assert_eq!(log.events[1].name, EVENT_MAC_RUNTIME_FALLBACK);
    emit_runtime_disabled(&mut log);
    assert_eq!(log.events[2].name, EVENT_MAC_RUNTIME_DISABLED);
    emit_socket_label(&mut log, "/run/tessera.sock");
    assert_eq!(log.events[3].name, EVENT_MAC_SOCKET_LABEL);
    emit_sessions_file_warn(&mut log, "/run/sessions", Some("EPERM"));
    assert_eq!(log.events[4].name, EVENT_MAC_SESSIONS_FILE_WARN);
    let (asked, ceiling) = (label(3, 0xff), label(1, 0x0f));
    emit_mask_exceeds_ceiling(&mut log, &ident("aa"), "alice", "sshd", asked, ceiling);
    assert_eq!(log.events[5].name, EVENT_MASK_EXCEEDS_CEILING);
    assert_eq!(field(&log, "F_cert_serial").as_deref(), Some("42"));
    assert_eq!(field(&log, "F_pam_service").as_deref(), Some("sshd"));
}

#[test]
fn the_oldest_report_gives_way() {
    let mut cache = ParseFailCache::new();
    for i in 0..PARSE_FAIL_CACHE_CAP {
        assert!(should_emit_parse_failed(&mut cache, &format!("f{i}"), i as u64));
    }
    assert!(should_emit_parse_failed(&mut cache, "one more", 1000));
    assert!(should_emit_parse_failed(&mut cache, "f0", 1001));
    assert!(!should_emit_parse_failed(&mut cache, "f2", 1002));
}
