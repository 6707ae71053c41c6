//! Hooks: their templates, environment, plan, supervision and outcome.

use tessera_core::audit::{AuditLevel, AuditLog, AuditValue};
use tessera_core::collections::StringMap;
use tessera_core::config::load::{BuildProfile, ConfigFiles};
use tessera_core::config::raw::{
    RawConfig, RawCryptoBackend, RawHook, RawHostIdFallback, RawHostIdentity, RawLogging,
    RawMacPolicy, RawMode, RawMonitor, RawMonitorFailMode, RawOnUsbRemoved, RawPinning,
    RawPkcs11LockingMode, RawPkcs12Source, RawRevocation, RawRevocationMode, RawRoles, RawTags,
    RawTrust,
};
use tessera_core::config::token::PathProbe;
use tessera_core::config::trust::TrustFiles;
use tessera_core::config::ValidatedConfig;
use tessera_core::error::HookValidationError;
use tessera_core::hooks::child_setup::{
    child_steps, close_loop_bound, failure_message, ChildStep,
};
use tessera_core::hooks::env::{build_env_vector, forbidden_control_reason, DEFAULT_PATH};
use tessera_core::hooks::executor::{
    apply_on_failure, failure_event, HookExecutor, NoopExecutor,
};
use tessera_core::hooks::fork_exec::{
    basename, build_groups_box, check_exec_path_security, hook_outcome, paths_to_examine, plan_hook,
    user_to_look_up, FileMode, ForkExecExecutor, PathComponent,
};
use tessera_core::hooks::pipe_reader::{PipeReader, PipeStream, MAX_LINE_BYTES};
use tessera_core::hooks::placeholder::{PlaceholderVar, Template, TemplatePart};
use tessera_core::hooks::result::{HookError, HookOutcome};
use tessera_core::hooks::rlimit::default_caps_for_timeout;
use tessera_core::hooks::runner::{
    after_hook, begin_stage, count_for_stage, run_hooks_for_stage, StageStep,
};
use tessera_core::hooks::stage::HookStage;
use tessera_core::hooks::user::{lookup_user, UserEntry, UserInfo, UserLookup};
use tessera_core::hooks::validator::{
    is_var_allowed, validate_hook, HookConfig, OnFailure, RunAs,
};
use tessera_core::hooks::vars::HookVars;
use tessera_core::hooks::wait::{
    ChildReply, ExitStatus, HookWait, SignalReply, WaitAction, WaitOutcome, WaitStatus,
};
use tessera_core::host_binding::sha256_hex;
use tessera_core::host_identity::source::HostIdSourceKind;
use tessera_core::pam_data::AuthContext;
use tessera_core::time::Duration;

fn hook_with(stage: HookStage, env: Vec<(String, Template)>) -> HookConfig {
    HookConfig {
        stage,
        command: vec!["/bin/true".to_string()],
        timeout: Duration::from_secs(5),
        on_failure: OnFailure::Abort,
        run_as: RunAs::Root,
        env,
    }
}

fn entry<'a>(env: &'a [String], key: &str) -> Option<&'a str> {
    env.iter().find_map(|s| s.strip_prefix(&format!("{key}=")))
}

fn alice() -> UserInfo {
    UserInfo {
        name: "alice".to_string(),
        uid: 1001,
        gid: 1001,
        groups: vec![1001],
        home: "/home/alice".to_string(),
    }
}

#[test]
fn whitelist_present_for_root() {
    let hook = hook_with(HookStage::PreAuth, Vec::new());
    let vars = HookVars::empty().with_pam_user("u").with_pam_service("s");
    let envv = build_env_vector(&hook, &vars, None).expect("build env");
    assert_eq!(entry(&envv, "PATH"), Some(DEFAULT_PATH));
    assert_eq!(entry(&envv, "HOME"), Some("/root"));
    assert_eq!(entry(&envv, "USER"), Some("root"));
    assert_eq!(entry(&envv, "LOGNAME"), Some("root"));
    assert_eq!(entry(&envv, "LANG"), Some("C.UTF-8"));
}

#[test]
fn whitelist_uses_user_home_when_run_as_user() {
    let hook = hook_with(HookStage::SessionOpen, Vec::new());
    let vars = HookVars::empty().with_pam_user("alice");
    let envv = build_env_vector(&hook, &vars, Some(&alice())).expect("build env");
    assert_eq!(entry(&envv, "HOME"), Some("/home/alice"));
    assert_eq!(entry(&envv, "USER"), Some("alice"));
    assert_eq!(entry(&envv, "LOGNAME"), Some("alice"));
}

#[test]
fn tessera_set_for_some_and_empty_for_none() {
    let hook = hook_with(HookStage::PostAuthSuccess, Vec::new());
    let vars = HookVars::empty()
        .with_pam_user("alice")
        .with_pam_service("login")
        .with_host_id("hid")
        .with_cert_cn("CN");
    let envv = build_env_vector(&hook, &vars, None).expect("build env");
    assert_eq!(entry(&envv, "TESSERA_USER"), Some("alice"));
    assert_eq!(entry(&envv, "TESSERA_SERVICE"), Some("login"));
    assert_eq!(entry(&envv, "TESSERA_HOST_ID"), Some("hid"));
    assert_eq!(entry(&envv, "TESSERA_CERT_CN"), Some("CN"));
    assert_eq!(entry(&envv, "TESSERA_HOST_ID_HASH"), Some(""));
    assert_eq!(entry(&envv, "TESSERA_HOST_ID_SOURCE"), Some(""));
    assert_eq!(entry(&envv, "TESSERA_CERT_SERIAL"), Some(""));
    assert_eq!(entry(&envv, "TESSERA_USB_SERIAL"), Some(""));
    assert_eq!(entry(&envv, "TESSERA_USB_VID_PID"), Some(""));
    assert_eq!(entry(&envv, "TESSERA_SESSION_ID"), Some(""));
    assert_eq!(entry(&envv, "TESSERA_STAGE"), Some("post_auth_success"));
}

#[test]
fn custom_env_renders_template() {
    let env = vec![("MY_USER".to_string(), Template::parse("u=${pam_user}").unwrap())];
    let hook = hook_with(HookStage::PreAuth, env);
    let vars = HookVars::empty().with_pam_user("bob");
    let envv = build_env_vector(&hook, &vars, None).expect("build env");
    assert_eq!(entry(&envv, "MY_USER"), Some("u=bob"));
}

#[test]
fn custom_env_overrides_whitelist() {
    let env = vec![("PATH".to_string(), Template::parse("/usr/local/bin").unwrap())];
    let hook = hook_with(HookStage::PreAuth, env);
    let vars = HookVars::empty().with_pam_user("u").with_pam_service("s");
    let envv = build_env_vector(&hook, &vars, None).expect("build env");
    assert_eq!(entry(&envv, "PATH"), Some("/usr/local/bin"));
    let count = envv.iter().filter(|s| s.starts_with("PATH=")).count();
    assert_eq!(count, 1);
}

#[test]
fn unresolved_var_returns_error() {
    let env = vec![("X".to_string(), Template::parse("cn=${cert_cn}").unwrap())];
    let hook = hook_with(HookStage::PostAuthSuccess, env);
    let vars = HookVars::empty().with_pam_user("u");
    let r = build_env_vector(&hook, &vars, None);
    assert!(matches!(r, Err(HookError::UnresolvedVar { var: PlaceholderVar::CertCn })));
}

#[test]
fn newline_in_cert_cn_is_rejected() {
    let hook = hook_with(HookStage::PostAuthSuccess, Vec::new());
    let vars = HookVars::empty().with_pam_user("u").with_cert_cn("alice\nFOO=evil");
    let r = build_env_vector(&hook, &vars, None);
    assert!(
        matches!(
            r,
            Err(HookError::EnvValueRejected { ref var, .. }) if var == "TESSERA_CERT_CN"
        ),
        "got {r:?}"
    );
}

#[test]
fn carriage_return_in_custom_env_is_rejected() {
    let env = vec![("MY_VAR".to_string(), Template::parse("line1\rline2").unwrap())];
    let hook = hook_with(HookStage::PreAuth, env);
    let vars = HookVars::empty().with_pam_user("u");
    let r = build_env_vector(&hook, &vars, None);
    assert!(
        matches!(r, Err(HookError::EnvValueRejected { ref var, .. }) if var == "MY_VAR"),
        "got {r:?}"
    );
}

#[test]
fn escape_dollar_sign_in_template_yields_literal() {
    let env = vec![("LIT".to_string(), Template::parse("$$").unwrap())];
    let hook = hook_with(HookStage::PreAuth, env);
    let vars = HookVars::empty().with_pam_user("u");
    let envv = build_env_vector(&hook, &vars, None).expect("build env");
    assert_eq!(entry(&envv, "LIT"), Some("$"));
}

#[test]
fn the_environment_is_sorted_and_control_characters_are_named() {
    let hook = hook_with(HookStage::PreAuth, Vec::new());
    let envv = build_env_vector(&hook, &HookVars::empty(), None).unwrap();
    let keys: Vec<&str> = envv.iter().map(|s| s.split('=').next().unwrap()).collect();
    let mut sorted = keys.clone();
    sorted.sort_unstable();
    assert_eq!(keys, sorted);
    assert_eq!(forbidden_control_reason("plain text"), None);
    assert_eq!(forbidden_control_reason("a\tb"), Some("contains control byte (< 0x20)"));
    assert!(forbidden_control_reason("a\nb").is_some());
    assert!(forbidden_control_reason("a\u{1b}b").is_some());
    assert_eq!(forbidden_control_reason("a\0b"), None);
}

#[test]
fn a_nul_in_an_environment_value_is_a_setup_error() {
    let hook = hook_with(HookStage::PostAuthSuccess, Vec::new());
    let vars = HookVars::empty().with_pam_user("u").with_cert_cn("a\0b");
    let r = build_env_vector(&hook, &vars, None);
    assert!(
        matches!(
            r,
            Err(HookError::ChildSetup { ref message }) if message == "env value contains NUL byte"
        ),
        "got {r:?}"
    );
    let both = HookVars::empty().with_pam_user("u").with_cert_cn("a\0b\n");
    assert!(matches!(
        build_env_vector(&hook, &both, None),
        Err(HookError::EnvValueRejected { var, .. }) if var == "TESSERA_CERT_CN"
    ));
}

fn outcome(stage: HookStage, code: i32, killed: bool) -> HookOutcome {
    HookOutcome {
        stage,
        command: vec!["/bin/true".to_string()],
        exit_code: code,
        killed_by_timeout: killed,
        duration: Duration::from_millis(123),
        timeout: Duration::from_secs(5),
        stdout_lines: 0,
        stderr_lines: 0,
    }
}

#[test]
fn noop_default_returns_zero_exit() {
    let mut exec = NoopExecutor::new();
    let hook = hook_with(HookStage::PreAuth, Vec::new());
    let out = exec.execute(&hook, &HookVars::empty()).expect("noop never errors by default");
    assert_eq!(out.exit_code, 0);
    assert!(!out.killed_by_timeout);
    assert_eq!(out.command, vec!["/bin/true".to_string()]);
}

#[test]
fn noop_records_calls() {
    let mut exec = NoopExecutor::new();
    let h1 = hook_with(HookStage::PreAuth, Vec::new());
    let h2 = hook_with(HookStage::SessionOpen, Vec::new());
    let _ = exec.execute(&h1, &HookVars::empty()).unwrap();
    let _ = exec.execute(&h2, &HookVars::empty()).unwrap();
    let calls = exec.calls();
    assert_eq!(calls.len(), 2);
    assert_eq!(calls[0].0, HookStage::PreAuth);
    assert_eq!(calls[1].0, HookStage::SessionOpen);
}

#[test]
fn noop_with_outcome_returns_canned() {
    let canned = outcome(HookStage::PreAuth, 7, false);
    let mut exec = NoopExecutor::with_outcome(canned.clone());
    let hook = hook_with(HookStage::PreAuth, Vec::new());
    let out = exec.execute(&hook, &HookVars::empty()).unwrap();
    assert_eq!(out.exit_code, 7);
}

#[test]
fn noop_with_outcomes_drains_in_order_then_default() {
    let mut exec = NoopExecutor::with_outcomes(vec![
        Ok(outcome(HookStage::PreAuth, 1, false)),
        Err(HookError::CommandUnusable { path: "/x".to_string() }),
    ]);
    let hook = hook_with(HookStage::PreAuth, Vec::new());
    let r1 = exec.execute(&hook, &HookVars::empty()).unwrap();
    assert_eq!(r1.exit_code, 1);
    let r2 = exec.execute(&hook, &HookVars::empty());
    assert!(matches!(r2, Err(HookError::CommandUnusable { .. })));
    let r3 = exec.execute(&hook, &HookVars::empty()).unwrap();
    assert_eq!(r3.exit_code, 0);
}

#[test]
fn afp_ok0_abort_ok() {
    assert!(apply_on_failure(Ok(outcome(HookStage::PreAuth, 0, false)), OnFailure::Abort).is_ok());
}

#[test]
fn afp_ok0_warn_ok() {
    assert!(apply_on_failure(Ok(outcome(HookStage::PreAuth, 0, false)), OnFailure::Warn).is_ok());
}

#[test]
fn afp_ok0_ignore_ok() {
    assert!(apply_on_failure(Ok(outcome(HookStage::PreAuth, 0, false)), OnFailure::Ignore).is_ok());
}

#[test]
fn afp_oknonzero_abort_err() {
    let r = apply_on_failure(Ok(outcome(HookStage::PreAuth, 7, false)), OnFailure::Abort);
    assert!(matches!(r, Err(HookError::NonZeroExit { exit_code: 7 })));
}

#[test]
fn afp_oknonzero_warn_ok() {
    assert!(apply_on_failure(Ok(outcome(HookStage::PreAuth, 7, false)), OnFailure::Warn).is_ok());
}

#[test]
fn afp_oknonzero_ignore_ok() {
    assert!(apply_on_failure(Ok(outcome(HookStage::PreAuth, 7, false)), OnFailure::Ignore).is_ok());
}

#[test]
fn afp_timeout_abort_err() {
    let r = apply_on_failure(Ok(outcome(HookStage::PreAuth, 137, true)), OnFailure::Abort);
    assert!(matches!(r, Err(HookError::Timeout { .. })));
}

#[test]
fn afp_timeout_warn_err() {
    let r = apply_on_failure(Ok(outcome(HookStage::PreAuth, 137, true)), OnFailure::Warn);
    assert!(matches!(r, Err(HookError::Timeout { .. })));
}

#[test]
fn afp_timeout_ignore_ok() {
    assert!(apply_on_failure(Ok(outcome(HookStage::PreAuth, 137, true)), OnFailure::Ignore).is_ok());
}

#[test]
fn a_timeout_error_carries_the_configured_timeout() {
    let killed = outcome(HookStage::PreAuth, 137, true);
    assert_eq!(killed.duration, Duration::from_millis(123));
    let r = apply_on_failure(Ok(killed), OnFailure::Abort);
    assert!(matches!(r, Err(HookError::Timeout { timeout_ms: 5000 })));
}

#[test]
fn a_tolerated_failure_is_worth_an_event() {
    let text = |s: &str| AuditValue::Text(s.to_string());
    let failed = || Ok(outcome(HookStage::PreAuth, 7, false));
    let e = failure_event(&failed(), OnFailure::Warn).unwrap();
    assert_eq!((e.target.as_str(), e.level), ("tessera.hook.failed", AuditLevel::Warn));
    assert_eq!(
        e.fields,
        vec![
            ("stage".to_string(), text("pre_auth")),
            ("exit_code".to_string(), AuditValue::Int(7)),
            ("message".to_string(), text("hook exited non-zero (on_failure=warn)")),
        ]
    );
    let e = failure_event(&failed(), OnFailure::Ignore).unwrap();
    assert_eq!((e.target.as_str(), e.level), ("tessera.hook.failed", AuditLevel::Debug));
    assert!(failure_event(&failed(), OnFailure::Abort).is_none());
    let killed = || Ok(outcome(HookStage::PreAuth, 137, true));
    let e = failure_event(&killed(), OnFailure::Ignore).unwrap();
    assert_eq!((e.target.as_str(), e.level), ("tessera.hook.timeout", AuditLevel::Debug));
    assert_eq!(e.fields[1], ("duration_ms".to_string(), AuditValue::Int(123)));
    assert!(failure_event(&killed(), OnFailure::Warn).is_none());
    assert!(failure_event(&killed(), OnFailure::Abort).is_none());
    let broken = || Err(HookError::Fork("EAGAIN".to_string()));
    let e = failure_event(&broken(), OnFailure::Warn).unwrap();
    assert_eq!((e.target.as_str(), e.level), ("tessera.hook.failed", AuditLevel::Warn));
    assert_eq!(e.fields[0], ("error".to_string(), text("fork failed: EAGAIN")));
    let e = failure_event(&broken(), OnFailure::Ignore).unwrap();
    assert_eq!(e.level, AuditLevel::Debug);
    assert!(failure_event(&broken(), OnFailure::Abort).is_none());
    assert!(failure_event(&Ok(outcome(HookStage::PreAuth, 0, false)), OnFailure::Warn).is_none());
}

#[test]
fn afp_err_abort_passes_through() {
    let r = apply_on_failure(
        Err(HookError::CommandUnusable { path: "/x".to_string() }),
        OnFailure::Abort,
    );
    assert!(matches!(r, Err(HookError::CommandUnusable { .. })));
}

#[test]
fn afp_err_warn_ok() {
    let r = apply_on_failure(
        Err(HookError::CommandUnusable { path: "/x".to_string() }),
        OnFailure::Warn,
    );
    assert!(r.is_ok());
}

#[test]
fn afp_err_ignore_ok() {
    let r = apply_on_failure(
        Err(HookError::CommandUnusable { path: "/x".to_string() }),
        OnFailure::Ignore,
    );
    assert!(r.is_ok());
}

#[test]
fn executor_constructs_via_new() {
    let exec = ForkExecExecutor::new();
    let _ = exec;
}

#[test]
fn executor_default() {
    let _ = ForkExecExecutor;
}

#[test]
fn build_groups_box_handles_root_run_as() {
    let b = build_groups_box(None);
    assert!(b.is_empty(), "Root run_as ⇒ empty supplementary groups");
}

#[test]
fn build_groups_box_preserves_order_and_layout() {
    let u = UserInfo {
        name: "alice".to_string(),
        uid: 1000,
        gid: 1000,
        groups: vec![1000, 27, 4, 1001],
        home: "/home/alice".to_string(),
    };
    let b = build_groups_box(Some(&u));
    assert_eq!(b.len(), 4);
    assert_eq!(&*b, &[1000 as libc::gid_t, 27, 4, 1001]);
}

fn component(path: &str, mode: u32, gid: u32) -> PathComponent {
    PathComponent { path: path.to_string(), found: Some(FileMode { mode, gid }) }
}

#[test]
fn world_writable_hook_is_rejected() {
    let found = Some(vec![component("/opt/hook.sh", 0o777, 0), component("/opt", 0o755, 0)]);
    let res = check_exec_path_security("/opt/hook.sh", &found, 0);
    assert!(
        matches!(res, Err(HookError::CommandUnusable { .. })),
        "world-writable hook must be rejected, got {res:?}"
    );
}

#[test]
fn group_writable_untrusted_group_is_rejected_when_gid_nonzero() {
    let found = |gid: u32| {
        Some(vec![component("/opt/hook.sh", 0o770, gid), component("/opt", 0o755, 0)])
    };
    let egid: u32 = 5;
    let res = check_exec_path_security("/opt/hook.sh", &found(1000), egid);
    assert!(
        matches!(res, Err(HookError::CommandUnusable { .. })),
        "group-writable by untrusted group must be rejected, got {res:?}"
    );
    assert!(check_exec_path_security("/opt/hook.sh", &found(0), egid).is_ok());
    assert!(check_exec_path_security("/opt/hook.sh", &found(5), egid).is_ok());
}

#[test]
fn a_program_needs_an_absolute_path_and_known_ancestors() {
    let good = Some(vec![component("/bin/true", 0o755, 0)]);
    assert!(check_exec_path_security("bin/true", &good, 0).is_err());
    assert!(check_exec_path_security("/bin/true", &None, 0).is_err());
    let gone = Some(vec![PathComponent { path: "/bin/true".to_string(), found: None }]);
    assert!(check_exec_path_security("/bin/true", &gone, 0).is_err());
    assert!(check_exec_path_security("/bin/true", &good, 0).is_ok());
    assert_eq!(paths_to_examine("/usr/bin/true"), vec!["/usr/bin/true", "/usr/bin", "/usr", "/"]);
    assert_eq!(basename("/usr/bin/true"), "true");
}

#[test]
fn a_hook_is_planned_before_the_fork() {
    let hook = hook_with(HookStage::PreAuth, Vec::new());
    let safe = Some(vec![component("/bin/true", 0o755, 0)]);
    let plan = plan_hook(&hook, &HookVars::empty(), Some(&alice()), &safe, 0).unwrap();
    assert_eq!(plan.argv, vec!["/bin/true".to_string()]);
    assert_eq!(plan.groups, vec![1001]);
    assert_eq!(plan.caps.cpu_seconds, 10);
    assert_eq!(plan.basename, "true");
    let nul = HookConfig { command: vec!["/bin/true".to_string(), "a\0b".to_string()], ..hook };
    assert!(matches!(
        plan_hook(&nul, &HookVars::empty(), None, &safe, 0),
        Err(HookError::ChildSetup { .. })
    ));
    let none = HookConfig { command: vec![], ..nul };
    assert!(matches!(
        plan_hook(&none, &HookVars::empty(), None, &safe, 0),
        Err(HookError::CommandUnusable { .. })
    ));
}

#[test]
fn the_user_of_a_hook_is_the_pam_user() {
    let root = hook_with(HookStage::PreAuth, Vec::new());
    assert_eq!(user_to_look_up(&root, &HookVars::empty()).unwrap(), None);
    let user = HookConfig { run_as: RunAs::User, ..root };
    assert_eq!(
        user_to_look_up(&user, &HookVars::empty().with_pam_user("bob")).unwrap().as_deref(),
        Some("bob")
    );
    assert!(user_to_look_up(&user, &HookVars::empty()).is_err());
}

#[test]
fn the_outcome_of_a_hook_says_how_it_ended() {
    let hook = hook_with(HookStage::SessionOpen, Vec::new());
    let ended = WaitOutcome {
        status: ExitStatus { code: None, signal: Some(15) },
        killed_by_timeout: true,
        elapsed: Duration::from_millis(9),
    };
    let o = hook_outcome(&hook, ended, Duration::from_millis(11), 2, 3);
    assert_eq!(o.exit_code, 143);
    assert!(o.killed_by_timeout);
    assert_eq!(o.duration, Duration::from_millis(11));
    assert_eq!((o.stdout_lines, o.stderr_lines), (2, 3));
}

#[test]
fn the_child_drops_its_privileges_last() {
    let caps = default_caps_for_timeout(Duration::from_secs(5));
    let steps = child_steps(Some(&alice()), caps, 7, 8);
    let n = steps.len();
    assert_eq!(steps[n - 1], ChildStep::Exec);
    assert_eq!(steps[n - 2], ChildStep::SetUid(1001));
    assert_eq!(steps[n - 3], ChildStep::SetGid(1001));
    assert_eq!(steps[n - 4], ChildStep::SetGroups);
    assert_eq!(steps[0], ChildStep::SetProcessGroup);
    let root = child_steps(None, caps, 1, 2);
    assert!(!root.contains(&ChildStep::SetGroups));
    assert!(!root.contains(&ChildStep::CloseFd(1)));
    assert_eq!(failure_message(ChildStep::Exec), Some("hook child: execve failed\n"));
    assert_eq!(failure_message(ChildStep::DetachSession), None);
    assert_eq!(close_loop_bound(Some(10)), 10);
    assert_eq!(close_loop_bound(Some(1 << 40)), 65536);
    assert_eq!(close_loop_bound(None), 1024);
}

fn reader(stream: PipeStream) -> PipeReader {
    PipeReader::new(HookStage::PreAuth, "test".to_string(), stream)
}

#[test]
fn streams_two_complete_lines() {
    let mut reader = reader(PipeStream::Stdout);
    let report = reader.process_chunk(b"hello\nworld\nthird\n");
    assert_eq!(report.lines, vec!["hello", "world", "third"]);
    assert_eq!(reader.finish(), None);
    assert_eq!(reader.line_count(), 3);
}

#[test]
fn partial_line_flushed_on_drain() {
    let mut reader = reader(PipeStream::Stderr);
    reader.process_chunk(b"first line\nno-trailing-nl");
    assert_eq!(reader.finish().as_deref(), Some("no-trailing-nl"));
    assert_eq!(reader.line_count(), 2);
}

#[test]
fn long_line_is_truncated() {
    let mut reader = reader(PipeStream::Stdout);
    let big = vec![b'A'; MAX_LINE_BYTES + 2000];
    reader.process_chunk(&big);
    let report = reader.process_chunk(b"\n");
    assert_eq!(reader.finish(), None);
    assert_eq!(reader.line_count(), 1);
    assert!(report.lines[0].len() < MAX_LINE_BYTES + 2000);
    assert!(report.lines[0].starts_with("AAAA"));
}

#[test]
fn pipe_stream_display() {
    assert_eq!(PipeStream::Stdout.as_str(), "stdout");
    assert_eq!(PipeStream::Stderr.as_str(), "stderr");
}

#[test]
fn output_past_cap_is_silently_drained() {
    let mut reader = reader(PipeStream::Stdout);
    let mut line = vec![b'A'; 1023];
    line.push(b'\n');
    let mut crossed = 0;
    for _ in 0..2048 {
        if reader.process_chunk(&line).cap_crossed {
            crossed += 1;
        }
    }
    assert!(
        reader.line_count() <= 1024,
        "line count {} exceeds cap-window expectation",
        reader.line_count()
    );
    assert_eq!(crossed, 1);
}

#[test]
fn read_available_handles_chunked_writes() {
    let mut reader = reader(PipeStream::Stdout);
    reader.process_chunk(b"line one\nline two");
    assert_eq!(reader.line_count(), 1);
    let report = reader.process_chunk(b" continued\n");
    assert_eq!(report.lines, vec!["line two continued"]);
    reader.finish();
    assert_eq!(reader.line_count(), 2);
}

#[test]
fn logged_bytes_that_are_no_text_are_replaced() {
    let mut reader = reader(PipeStream::Stdout);
    let report = reader.process_chunk(b"a\xffb\n");
    assert_eq!(report.lines, vec!["a\u{fffd}b"]);
    assert_eq!(reader.describe(), (HookStage::PreAuth, "test", PipeStream::Stdout));
}

#[test]
fn outcome_is_clone_and_eq() {
    let o = HookOutcome {
        stage: HookStage::PreAuth,
        command: vec!["/bin/true".to_string()],
        exit_code: 0,
        killed_by_timeout: false,
        duration: Duration::from_millis(7),
        timeout: Duration::from_secs(5),
        stdout_lines: 3,
        stderr_lines: 1,
    };
    let o2 = o.clone();
    assert_eq!(o, o2);
}

#[test]
fn timeout_error_includes_ms_in_display() {
    let e = HookError::Timeout { timeout_ms: 1234 };
    assert_eq!(e.message(), "hook timed out after 1234 ms");
}

#[test]
fn command_unusable_includes_path() {
    let e = HookError::CommandUnusable { path: "/no/such".to_string() };
    let s = e.message();
    assert!(s.contains("/no/such"), "got {s}");
}

#[test]
fn nonzero_exit_includes_code() {
    let e = HookError::NonZeroExit { exit_code: 7 };
    assert_eq!(e.message(), "hook exited with non-zero status 7");
}

#[test]
fn unresolved_var_includes_variant() {
    let e = HookError::UnresolvedVar { var: PlaceholderVar::CertCn };
    let s = e.message();
    assert!(s.contains("CertCn"), "got {s}");
}

#[test]
fn signal_variant_displays() {
    let e = HookError::Signal { signal: 15 };
    assert_eq!(e.message(), "hook killed by signal 15");
}

#[test]
fn pipe_fork_wait_render_errno() {
    let e = HookError::Pipe(nix::errno::Errno::EMFILE.to_string());
    assert!(e.message().contains("pipe creation failed"));
    let e = HookError::Fork(nix::errno::Errno::EAGAIN.to_string());
    assert!(e.message().contains("fork failed"));
    let e = HookError::Wait(nix::errno::Errno::ECHILD.to_string());
    assert!(e.message().contains("waitpid/kill failed"));
}

#[test]
fn child_setup_includes_message() {
    let e = HookError::ChildSetup { message: "execve failed (code 9)".to_string() };
    assert!(e.message().contains("execve failed (code 9)"));
}

#[test]
fn user_resolution_includes_username() {
    let e = HookError::UserResolution {
        user: "ghost".to_string(),
        source: nix::errno::Errno::ENOENT.to_string(),
    };
    let s = e.message();
    assert!(s.contains("ghost"), "got {s}");
}

#[test]
fn cpu_is_double_timeout() {
    let c = default_caps_for_timeout(Duration::from_secs(10));
    assert_eq!(c.cpu_seconds, 20);
}

#[test]
fn cpu_floor_is_two_seconds() {
    let c = default_caps_for_timeout(Duration::from_secs(0));
    assert_eq!(c.cpu_seconds, 2);
}

#[test]
fn defaults_are_constants() {
    let c = default_caps_for_timeout(Duration::from_secs(5));
    assert_eq!(c.max_open_files, 256);
    assert_eq!(c.max_processes, 64);
    assert_eq!(c.max_file_size_bytes, 1024 * 1024);
}

fn stage_hook(stage: HookStage, on_failure: OnFailure, command: &str) -> HookConfig {
    HookConfig {
        command: vec![command.to_string()],
        on_failure,
        ..hook_with(stage, Vec::new())
    }
}

fn cfg_with_hooks(hooks: Vec<HookConfig>) -> ValidatedConfig {
    let raw = RawConfig {
        crypto_backend: RawCryptoBackend::Openssl,
        mode: RawMode::Pkcs12,
        pkcs11_module: None,
        pkcs11_token_label: None,
        pkcs11_object_label: None,
        pkcs11_max_pin_attempts: 3,
        pkcs11_locking_mode: RawPkcs11LockingMode::Os,
        pkcs11_pin_prompt: None,
        pkcs11_slot_wait_seconds: 10,
        pkcs11_allow_extractable_keys: false,
        pkcs12_source: RawPkcs12Source::UsbPartition,
        pkcs12_token_object_label: None,
        pkcs12_path_pattern: Some("certs/user.p12".to_string()),
        pkcs12_pin_prompt: Some("PIN: ".to_string()),
        gost_engine_path: None,
        usb_wait_seconds: 5,
        usb_allowed_devices: Vec::new(),
        max_usb_partitions: None,
        on_usb_removed: RawOnUsbRemoved::Lock,
        usb_removed_grace_seconds: 5,
        suspend_grace_seconds: 30,
        monitor_fail_mode: RawMonitorFailMode::Permissive,
        monitor: RawMonitor::default(),
        trust: RawTrust {
            anchors: vec!["/etc/tessera/ca.pem".to_string()],
            intermediates: Vec::new(),
            max_chain_depth: 4,
            clock_skew_seconds: 60,
            allowed_signature_algorithms: Vec::new(),
            revocation: Some(RawRevocation {
                mode: Some(RawRevocationMode::Off),
                crl_paths: Vec::new(),
                ocsp_responder_url: None,
                crl_max_age_hours: None,
                ocsp_timeout_seconds: None,
                ocsp_cache_ttl_seconds: None,
            }),
            pinning: RawPinning::default(),
            max_supported_profile_version: None,
        },
        trust_override: Vec::new(),
        host_identity: RawHostIdentity {
            sources: vec!["override".to_string()],
            fallback: RawHostIdFallback::Deny,
            override_value: Some("host-T".to_string()),
            custom_command: None,
            custom_command_timeout_seconds: 5,
        },
        user_mapping: Vec::new(),
        logging: RawLogging {
            level: "info".to_string(),
            syslog_facility: Some("auth".to_string()),
            journald_priority: Some(false),
        },
        hooks: Vec::new(),
        mac: RawMacPolicy::default(),
        fly_dm_greeter: None,
        roles: RawRoles::default(),
        tags: RawTags::default(),
    };
    let files = ConfigFiles {
        trust: TrustFiles {
            anchors: vec![Some("-----BEGIN CERTIFICATE-----\n".to_string())],
            intermediates: Vec::new(),
            crls: Vec::new(),
        },
        overrides: Vec::new(),
        gost_engine: PathProbe::File,
    };
    let build = BuildProfile { mac_backend: true, max_supported_profile_version: 1 };
    let mut cfg = ValidatedConfig::try_from(&raw, &files, build, &mut AuditLog::new()).unwrap();
    cfg.hooks = hooks;
    cfg
}

#[test]
fn empty_hooks_list_returns_ok_without_executing() {
    let cfg = cfg_with_hooks(Vec::new());
    let mut exec = NoopExecutor::with_outcomes(Vec::new());
    let vars = HookVars::empty();
    let r = run_hooks_for_stage(&cfg, HookStage::PreAuth, &mut exec, &vars, &mut AuditLog::new());
    assert!(r.is_ok());
    assert!(exec.calls().is_empty());
}

struct Refusing(usize);

impl HookExecutor for Refusing {
    fn execute(&mut self, hook: &HookConfig, vars: &HookVars) -> Result<HookOutcome, HookError> {
        assert_eq!(vars.pam_user.as_deref(), Some("u"));
        self.0 += 1;
        Err(HookError::Pipe(hook.command[0].clone()))
    }
}

#[test]
fn an_executor_of_ones_own_is_asked_up_to_the_first_failure_that_counts() {
    let cfg = cfg_with_hooks(vec![
        stage_hook(HookStage::PreAuth, OnFailure::Warn, "/first"),
        stage_hook(HookStage::SessionOpen, OnFailure::Abort, "/elsewhere"),
        stage_hook(HookStage::PreAuth, OnFailure::Abort, "/second"),
        stage_hook(HookStage::PreAuth, OnFailure::Abort, "/third"),
    ]);
    let vars = HookVars::empty().with_pam_user("u");
    let mut exec = Refusing(0);
    let mut log = AuditLog::new();
    let r = run_hooks_for_stage(&cfg, HookStage::PreAuth, &mut exec, &vars, &mut log);
    assert!(matches!(r, Err(HookError::Pipe(command)) if command == "/second"));
    assert_eq!(exec.0, 2);
    assert_eq!(log.events.len(), 1);
    assert_eq!(
        log.events[0].fields[0],
        ("error".to_string(), AuditValue::Text("pipe creation failed: /first".to_string()))
    );
}

#[test]
fn count_for_stage_returns_correct_number() {
    let cfg = cfg_with_hooks(vec![
        stage_hook(HookStage::PreAuth, OnFailure::Abort, "/h1"),
        stage_hook(HookStage::PreAuth, OnFailure::Warn, "/h2"),
        stage_hook(HookStage::SessionOpen, OnFailure::Warn, "/h3"),
    ]);
    assert_eq!(count_for_stage(&cfg, HookStage::PreAuth), 2);
    assert_eq!(count_for_stage(&cfg, HookStage::SessionOpen), 1);
    assert_eq!(count_for_stage(&cfg, HookStage::PostAuthSuccess), 0);
}

#[test]
fn multiple_hooks_for_one_stage_all_run_in_order() {
    let cfg = cfg_with_hooks(vec![
        stage_hook(HookStage::PreAuth, OnFailure::Abort, "/first"),
        stage_hook(HookStage::PreAuth, OnFailure::Abort, "/second"),
        stage_hook(HookStage::PreAuth, OnFailure::Abort, "/third"),
    ]);
    let mut exec = NoopExecutor::with_outcomes(vec![
        Ok(outcome(HookStage::PreAuth, 0, false)),
        Ok(outcome(HookStage::PreAuth, 0, false)),
        Ok(outcome(HookStage::PreAuth, 0, false)),
    ]);
    run_hooks_for_stage(&cfg, HookStage::PreAuth, &mut exec, &HookVars::empty(), &mut AuditLog::new()).unwrap();
    let calls = exec.calls();
    assert_eq!(calls.len(), 3);
    assert_eq!(calls[0].1, vec!["/first".to_string()]);
    assert_eq!(calls[1].1, vec!["/second".to_string()]);
    assert_eq!(calls[2].1, vec!["/third".to_string()]);
}

#[test]
fn abort_on_first_nonzero_exit_skips_subsequent_hooks() {
    let cfg = cfg_with_hooks(vec![
        stage_hook(HookStage::PreAuth, OnFailure::Abort, "/first"),
        stage_hook(HookStage::PreAuth, OnFailure::Abort, "/second"),
    ]);
    let mut exec = NoopExecutor::with_outcomes(vec![Ok(outcome(HookStage::PreAuth, 5, false))]);
    let r = run_hooks_for_stage(&cfg, HookStage::PreAuth, &mut exec, &HookVars::empty(), &mut AuditLog::new());
    assert!(matches!(r, Err(HookError::NonZeroExit { exit_code: 5 })));
    let calls = exec.calls();
    assert_eq!(calls.len(), 1);
    assert_eq!(calls[0].1, vec!["/first".to_string()]);
}

#[test]
fn warn_continues_after_nonzero_exit() {
    let cfg = cfg_with_hooks(vec![
        stage_hook(HookStage::PreAuth, OnFailure::Warn, "/first"),
        stage_hook(HookStage::PreAuth, OnFailure::Abort, "/second"),
    ]);
    let mut exec = NoopExecutor::with_outcomes(vec![
        Ok(outcome(HookStage::PreAuth, 5, false)),
        Ok(outcome(HookStage::PreAuth, 0, false)),
    ]);
    let r = run_hooks_for_stage(&cfg, HookStage::PreAuth, &mut exec, &HookVars::empty(), &mut AuditLog::new());
    assert!(r.is_ok());
    assert_eq!(exec.calls().len(), 2);
}

#[test]
fn ignore_continues_after_executor_error() {
    let cfg = cfg_with_hooks(vec![
        stage_hook(HookStage::PreAuth, OnFailure::Ignore, "/first"),
        stage_hook(HookStage::PreAuth, OnFailure::Abort, "/second"),
    ]);
    let mut exec = NoopExecutor::with_outcomes(vec![
        Err(HookError::CommandUnusable { path: "/x".to_string() }),
        Ok(outcome(HookStage::PreAuth, 0, false)),
    ]);
    let r = run_hooks_for_stage(&cfg, HookStage::PreAuth, &mut exec, &HookVars::empty(), &mut AuditLog::new());
    assert!(r.is_ok());
    assert_eq!(exec.calls().len(), 2);
}

#[test]
fn only_hooks_for_requested_stage_are_executed() {
    let cfg = cfg_with_hooks(vec![
        stage_hook(HookStage::PreAuth, OnFailure::Abort, "/pre1"),
        stage_hook(HookStage::SessionOpen, OnFailure::Abort, "/open1"),
        stage_hook(HookStage::SessionClose, OnFailure::Abort, "/close1"),
        stage_hook(HookStage::PreAuth, OnFailure::Abort, "/pre2"),
    ]);
    let mut exec = NoopExecutor::with_outcomes(Vec::new());
    run_hooks_for_stage(&cfg, HookStage::PreAuth, &mut exec, &HookVars::empty(), &mut AuditLog::new()).unwrap();
    let calls = exec.calls();
    assert_eq!(calls.len(), 2);
    assert_eq!(calls[0].1, vec!["/pre1".to_string()]);
    assert_eq!(calls[1].1, vec!["/pre2".to_string()]);
}

#[test]
fn session_open_iter_uses_session_open_stage_only() {
    let cfg = cfg_with_hooks(vec![
        stage_hook(HookStage::SessionOpen, OnFailure::Abort, "/open"),
        stage_hook(HookStage::SessionClose, OnFailure::Abort, "/close"),
    ]);
    let mut exec = NoopExecutor::with_outcomes(Vec::new());
    run_hooks_for_stage(&cfg, HookStage::SessionOpen, &mut exec, &HookVars::empty(), &mut AuditLog::new()).unwrap();
    let calls = exec.calls();
    assert_eq!(calls.len(), 1);
    assert_eq!(calls[0].0, HookStage::SessionOpen);
    assert_eq!(calls[0].1, vec!["/open".to_string()]);
}

#[test]
fn a_stage_can_be_walked_hook_by_hook() {
    let hooks = vec![
        stage_hook(HookStage::SessionOpen, OnFailure::Abort, "/open"),
        stage_hook(HookStage::PreAuth, OnFailure::Warn, "/first"),
        stage_hook(HookStage::PreAuth, OnFailure::Abort, "/second"),
    ];
    let bad = || Ok(outcome(HookStage::PreAuth, 5, false));
    let mut log = AuditLog::new();
    let mut after = |at: usize, ended| after_hook(&hooks, HookStage::PreAuth, at, ended, &mut log);
    assert!(matches!(begin_stage(&hooks, HookStage::PreAuth), StageStep::Run(1)));
    assert!(matches!(after(1, bad()), StageStep::Run(2)));
    assert!(matches!(
        after(2, bad()),
        StageStep::Done(Err(HookError::NonZeroExit { exit_code: 5 }))
    ));
    let good = Ok(outcome(HookStage::PreAuth, 0, false));
    assert!(matches!(after(2, good), StageStep::Done(Ok(()))));
    assert_eq!(log.events.len(), 1);
    assert!(matches!(begin_stage(&hooks, HookStage::SessionClose), StageStep::Done(Ok(()))));
}

fn absent() -> UserLookup {
    UserLookup::Absent("No such file or directory".to_string())
}

#[test]
fn empty_name_is_child_setup_error() {
    let r = lookup_user("", absent(), Ok(vec![]));
    assert!(matches!(r, Err(HookError::ChildSetup { .. })));
}

#[test]
fn name_with_nul_is_child_setup_error() {
    let r = lookup_user("a\0b", absent(), Ok(vec![]));
    assert!(matches!(r, Err(HookError::ChildSetup { .. })));
}

#[test]
fn missing_user_returns_user_resolution() {
    let r = lookup_user("definitely_not_a_user_xx0123456789xx", absent(), Ok(vec![]));
    match r {
        Err(HookError::UserResolution { user, .. }) => {
            assert!(user.contains("definitely_not_a_user"));
        }
        other => panic!("expected UserResolution, got {other:?}"),
    }
}

#[test]
fn root_lookup_succeeds() {
    let found = UserLookup::Found(UserEntry {
        name: "root".to_string(),
        uid: 0,
        gid: 0,
        home: "/root".to_string(),
    });
    let info = lookup_user("root", found, Ok(vec![0])).expect("root lookup");
    assert_eq!(info.name, "root");
    assert_eq!(info.uid, 0);
    assert_eq!(info.gid, 0);
    assert!(!info.home.is_empty());
}

fn raw_hook_with_run_as(run_as: Option<&str>) -> RawHook {
    RawHook {
        stage: HookStage::PostAuthSuccess,
        command: vec!["/usr/local/sbin/hook".to_string()],
        timeout_seconds: 5,
        on_failure: None,
        run_as: run_as.map(str::to_string),
        env: StringMap::new(),
    }
}

#[test]
fn run_as_defaults_to_root_when_unset() {
    let cfg = validate_hook(&raw_hook_with_run_as(None)).expect("valid");
    assert_eq!(cfg.run_as, RunAs::Root);
}

#[test]
fn run_as_root_and_user_are_accepted() {
    assert_eq!(
        validate_hook(&raw_hook_with_run_as(Some("root"))).expect("root").run_as,
        RunAs::Root
    );
    assert_eq!(
        validate_hook(&raw_hook_with_run_as(Some("user"))).expect("user").run_as,
        RunAs::User
    );
    assert_eq!(
        validate_hook(&raw_hook_with_run_as(Some("pam_user"))).expect("pam_user").run_as,
        RunAs::User
    );
}

#[test]
fn unknown_run_as_is_rejected_not_silently_root() {
    for value in ["audit", "nobody", "roo", "User", ""] {
        let err = validate_hook(&raw_hook_with_run_as(Some(value)))
            .expect_err("unknown run_as must be rejected");
        assert!(
            matches!(err, HookValidationError::InvalidRunAs { value: ref v } if v == value),
            "expected InvalidRunAs for {value:?}, got {err:?}"
        );
    }
}

#[test]
fn hook_faults_come_as_their_errors() {
    let base = || raw_hook_with_run_as(None);
    assert!(matches!(
        validate_hook(&RawHook { command: vec![], ..base() }),
        Err(HookValidationError::EmptyCommand { .. })
    ));
    assert!(matches!(
        validate_hook(&RawHook { command: vec!["hook".to_string()], ..base() }),
        Err(HookValidationError::InvalidCommandPath { .. })
    ));
    assert!(matches!(
        validate_hook(&RawHook { timeout_seconds: 0, ..base() }),
        Err(HookValidationError::InvalidTimeout { .. })
    ));
    let mut env = StringMap::new();
    env.insert("X".to_string(), "${cert_cn}".to_string());
    let early = RawHook { stage: HookStage::PreAuth, env, ..base() };
    assert!(matches!(
        validate_hook(&early),
        Err(HookValidationError::PlaceholderNotAllowedAtStage { .. })
    ));
    assert!(is_var_allowed(HookStage::PreAuth, PlaceholderVar::PamUser));
    assert!(!is_var_allowed(HookStage::PreAuth, PlaceholderVar::CertCn));
    let mut env = StringMap::new();
    env.insert("X".to_string(), "${cert_cn".to_string());
    assert!(validate_hook(&RawHook { env, ..base() }).is_err());
}

#[test]
fn templates_are_read_and_rendered() {
    let t = Template::parse("a$$${pam_user}-${host_id}").unwrap();
    assert_eq!(t.parts().len(), 4);
    assert!(matches!(&t.parts()[0], TemplatePart::Literal(s) if s == "a$"));
    assert!(matches!(&t.parts()[1], TemplatePart::Var(PlaceholderVar::PamUser)));
    assert!(Template::parse("${").is_err());
    assert!(Template::parse("${}").is_err());
    assert!(Template::parse("${nobody}").is_err());
    assert_eq!(Template::parse("5$").unwrap().parts().len(), 1);
    let name = PlaceholderVar::from_str("usb_vid_pid").unwrap();
    assert_eq!(name, PlaceholderVar::UsbVidPid);
    assert_eq!(name.variant_name(), "UsbVidPid");
}

#[test]
fn a_template_is_rendered_with_a_resolver() {
    let t = Template::parse("user=${pam_user}$$").unwrap();
    let alice = |v: &PlaceholderVar| match v {
        PlaceholderVar::PamUser => Some("alice".to_string()),
        _ => None,
    };
    assert_eq!(t.render(alice).unwrap(), "user=alice$");
    let err = t.render(|_: &PlaceholderVar| None).unwrap_err();
    assert!(err.message().contains("missing placeholder value: PamUser"));
}

#[test]
fn stages_have_names() {
    for (stage, name) in [
        (HookStage::PreAuth, "pre_auth"),
        (HookStage::PostAuthSuccess, "post_auth_success"),
        (HookStage::SessionOpen, "session_open"),
        (HookStage::SessionClose, "session_close"),
    ] {
        assert_eq!(stage.as_str(), name);
        assert_eq!(HookStage::from_str(name).unwrap(), stage);
    }
    assert!(HookStage::from_str("pre-auth").is_err());
}

#[test]
fn empty_has_all_none() {
    let v = HookVars::empty();
    assert_eq!(v.stage, HookStage::PreAuth);
    assert!(v.pam_user.is_none());
    assert!(v.pam_service.is_none());
    assert!(v.host_id.is_none());
    assert!(v.host_id_hash.is_none());
    assert!(v.host_id_source.is_none());
    assert!(v.cert_cn.is_none());
    assert!(v.cert_serial.is_none());
    assert!(v.usb_serial.is_none());
    assert!(v.usb_vid_pid.is_none());
    assert!(v.session_id.is_none());
}

#[test]
fn builder_sets_fields() {
    let v = HookVars::empty()
        .with_stage(HookStage::PostAuthSuccess)
        .with_pam_user("alice")
        .with_pam_service("login")
        .with_host_id("hid")
        .with_host_id_hash("hidhash")
        .with_host_id_source("dmi")
        .with_cert_cn("Alice CN")
        .with_cert_serial("0xDEAD")
        .with_usb_serial("USB-123")
        .with_usb_vid_pid("0951:1666")
        .with_session_id("sid-1");
    assert_eq!(v.stage, HookStage::PostAuthSuccess);
    assert_eq!(v.pam_user.as_deref(), Some("alice"));
    assert_eq!(v.pam_service.as_deref(), Some("login"));
    assert_eq!(v.host_id.as_deref(), Some("hid"));
    assert_eq!(v.host_id_hash.as_deref(), Some("hidhash"));
    assert_eq!(v.host_id_source.as_deref(), Some("dmi"));
    assert_eq!(v.cert_cn.as_deref(), Some("Alice CN"));
    assert_eq!(v.cert_serial.as_deref(), Some("0xDEAD"));
    assert_eq!(v.usb_serial.as_deref(), Some("USB-123"));
    assert_eq!(v.usb_vid_pid.as_deref(), Some("0951:1666"));
    assert_eq!(v.session_id.as_deref(), Some("sid-1"));
}

#[test]
fn resolve_returns_correct_field_for_every_variant() {
    let v = HookVars::empty()
        .with_pam_user("u")
        .with_pam_service("s")
        .with_host_id("hid")
        .with_host_id_hash("hh")
        .with_host_id_source("hs")
        .with_cert_cn("cn")
        .with_cert_serial("ser")
        .with_usb_serial("us")
        .with_usb_vid_pid("v:p")
        .with_session_id("sid");
    assert_eq!(v.resolve(PlaceholderVar::PamUser), Some("u"));
    assert_eq!(v.resolve(PlaceholderVar::PamService), Some("s"));
    assert_eq!(v.resolve(PlaceholderVar::HostId), Some("hid"));
    assert_eq!(v.resolve(PlaceholderVar::HostIdHash), Some("hh"));
    assert_eq!(v.resolve(PlaceholderVar::HostIdSource), Some("hs"));
    assert_eq!(v.resolve(PlaceholderVar::CertCn), Some("cn"));
    assert_eq!(v.resolve(PlaceholderVar::CertSerial), Some("ser"));
    assert_eq!(v.resolve(PlaceholderVar::UsbSerial), Some("us"));
    assert_eq!(v.resolve(PlaceholderVar::UsbVidPid), Some("v:p"));
    assert_eq!(v.resolve(PlaceholderVar::SessionId), Some("sid"));
}

#[test]
fn for_pre_auth_sets_stage_and_pam_host_fields_only() {
    let v = HookVars::for_pre_auth("alice", "ssh", "host-id", "hidhash", "override");
    assert_eq!(v.stage, HookStage::PreAuth);
    assert_eq!(v.pam_user.as_deref(), Some("alice"));
    assert_eq!(v.pam_service.as_deref(), Some("ssh"));
    assert_eq!(v.host_id.as_deref(), Some("host-id"));
    assert_eq!(v.host_id_hash.as_deref(), Some("hidhash"));
    assert_eq!(v.host_id_source.as_deref(), Some("override"));
    assert!(v.cert_cn.is_none());
    assert!(v.usb_serial.is_none());
    assert!(v.session_id.is_none());
}

#[test]
fn for_session_open_pulls_full_context() {
    let ctx = AuthContext {
        session_id: "sid-1".to_string(),
        cert_cn: Some("alice".to_string()),
        cert_serial: Some("01ab".to_string()),
        usb_serial: Some("USB-9".to_string()),
        usb_vid_pid: Some("0951:1666".to_string()),
        pam_service: "ssh".to_string(),
        host_id: "h-id".to_string(),
        host_id_source: HostIdSourceKind::Override,
        authenticated_at: 0,
        cert_not_after: None,
        clock_skew_seconds: 0,
        cert_max_integrity: None,
        cert_ident: None,
        home_dir: None,
    };
    let v = HookVars::for_session_open("alice", &ctx);
    assert_eq!(v.stage, HookStage::SessionOpen);
    assert_eq!(v.pam_user.as_deref(), Some("alice"));
    assert_eq!(v.pam_service.as_deref(), Some("ssh"));
    assert_eq!(v.session_id.as_deref(), Some("sid-1"));
    assert_eq!(v.cert_cn.as_deref(), Some("alice"));
    assert_eq!(v.usb_serial.as_deref(), Some("USB-9"));
    assert_eq!(v.usb_vid_pid.as_deref(), Some("0951:1666"));
    assert_eq!(v.host_id_source.as_deref(), Some("override"));
    assert_eq!(v.host_id.as_deref(), Some("h-id"));
    assert_eq!(v.host_id_hash, Some(sha256_hex("h-id")));
}

#[test]
fn the_hash_of_a_host_identity_is_a_digest() {
    let mut ctx = AuthContext::new("sid".to_string(), "ssh".to_string());
    ctx.host_id = "abc".to_string();
    let v = HookVars::for_post_auth_success("carol", &ctx);
    assert_eq!(v.resolve(PlaceholderVar::HostId), Some("abc"));
    assert_eq!(
        v.resolve(PlaceholderVar::HostIdHash),
        Some("ba7816bf8f01cfea414140de5dae2223b00361a396177a9cb410ff61f20015ad")
    );
}

#[test]
fn for_session_close_uses_session_close_stage() {
    let ctx = AuthContext::new("sid".to_string(), "ssh".to_string());
    let _ = HostIdSourceKind::Override;
    let v = HookVars::for_session_close("bob", &ctx);
    assert_eq!(v.stage, HookStage::SessionClose);
    assert_eq!(v.pam_user.as_deref(), Some("bob"));
}

#[test]
fn for_post_auth_success_uses_post_stage() {
    let ctx = AuthContext::new("sid".to_string(), "ssh".to_string());
    let v = HookVars::for_post_auth_success("carol", &ctx);
    assert_eq!(v.stage, HookStage::PostAuthSuccess);
    assert_eq!(v.pam_user.as_deref(), Some("carol"));
}

#[test]
fn resolve_returns_none_when_field_absent() {
    let v = HookVars::empty().with_pam_user("u");
    assert!(v.resolve(PlaceholderVar::CertCn).is_none());
    assert!(v.resolve(PlaceholderVar::SessionId).is_none());
}

#[test]
fn from_wait_status_maps_exited() {
    let ws = WaitStatus::Exited(1, 7);
    let s = ExitStatus::from_wait_status(ws);
    assert_eq!(s.code, Some(7));
    assert_eq!(s.signal, None);
}

#[test]
fn from_wait_status_maps_signaled() {
    let ws = WaitStatus::Signaled(1, 9, false);
    let s = ExitStatus::from_wait_status(ws);
    assert_eq!(s.code, None);
    assert_eq!(s.signal, Some(9));
}

#[test]
fn conventional_code_for_exit() {
    let s = ExitStatus { code: Some(7), signal: None };
    assert_eq!(s.conventional_code(), 7);
}

#[test]
fn conventional_code_for_signal() {
    let s = ExitStatus { code: None, signal: Some(9) };
    assert_eq!(s.conventional_code(), 137);
}

#[test]
fn waits_for_quick_child() {
    let mut wait = HookWait::new(1000, Duration::from_secs(5));
    let next = wait.on_poll(ChildReply::Status(WaitStatus::StillAlive), 2000);
    assert!(matches!(next, WaitAction::SleepAndPoll(d) if d == Duration::from_millis(50)));
    match wait.on_poll(ChildReply::Status(WaitStatus::Exited(1, 0)), 3000) {
        WaitAction::Done(result) => {
            assert_eq!(result.status.code, Some(0));
            assert!(!result.killed_by_timeout);
            assert_eq!(result.elapsed, Duration::from_nanos(2000));
        }
        other => panic!("unexpected: {other:?}"),
    }
}

#[test]
fn times_out_long_running_child() {
    let second = 1_000_000_000;
    let mut wait = HookWait::new(0, Duration::from_millis(500));
    let alive = || ChildReply::Status(WaitStatus::StillAlive);
    assert!(matches!(wait.on_poll(alive(), second / 2), WaitAction::Terminate));
    assert!(matches!(wait.on_signal(SignalReply::Delivered, second / 2), WaitAction::Poll));
    assert!(matches!(wait.on_poll(alive(), second), WaitAction::SleepAndPoll(_)));
    assert!(matches!(wait.on_poll(alive(), 5 * second / 2), WaitAction::Kill));
    assert!(matches!(wait.on_signal(SignalReply::NoSuchGroup, 3 * second), WaitAction::Reap));
    match wait.on_poll(ChildReply::Status(WaitStatus::Signaled(1, 9, false)), 3 * second) {
        WaitAction::Done(result) => {
            assert!(result.killed_by_timeout, "expected killed_by_timeout");
            assert_eq!(result.status.conventional_code(), 137);
        }
        other => panic!("unexpected: {other:?}"),
    }
    let mut broken = HookWait::new(0, Duration::from_secs(1));
    assert!(matches!(
        broken.on_poll(ChildReply::Failed("ECHILD".to_string()), 1),
        WaitAction::Fail(HookError::Wait(_))
    ));
    assert!(matches!(broken.on_poll(ChildReply::Interrupted, 1), WaitAction::Poll));
}
