//! Session policy: which label a session gets, or why it gets none.

use crate::audit::{event_if, AuditLog, EventModel};
use crate::config::validated::{CertIntegrityMode, MacPolicy};
use crate::mac::audit::{
    apply_failed_event, cert_lacks_ext_event, emit_apply_failed, emit_cert_lacks_ext,
    emit_fallback_used, emit_homedir_label_above, emit_integrity_applied, emit_integrity_capped,
    emit_mac_runtime_required, emit_mac_skipped, emit_user_unknown, fallback_used_event,
    homedir_label_above_event, integrity_applied_event, integrity_capped_event,
    mac_runtime_required_event, mac_skipped_event, user_unknown_event,
};
use crate::mac::backend::{BackendCall, MacBackend, MacError, MacRuntime};
use crate::mac::label::{below, cert_never_exceeds_user, cert_within_user, within, IntegrityLabel};
use crate::text::{cat2, str_eq};
use crate::x509::CertIdent;
use vstd::prelude::*;

verus! {

/// What is known of a session.
#[derive(Debug)]
pub struct SessionContext {
    /// PAM user being authenticated.
    pub pam_user: String,
    /// PAM service name (e.g. `login`, `sudo`).
    pub pam_service: String,
    /// Cert identifiers, for audit events.
    pub cert_ident: CertIdent,
    /// Home directory, where it is known.
    pub home_dir: Option<String>,
}

/// What happened inside [`apply_session_policy`].
#[derive(Debug)]
pub struct Outcome {
    /// Kind of outcome.
    pub kind: OutcomeKind,
}

/// Kind of an [`Outcome`].
#[derive(Debug)]
pub enum OutcomeKind {
    /// The backend accepted the label.
    Applied(IntegrityLabel),
    /// The backend was not asked to apply anything, for the reason named by a stable tag.
    Skipped(&'static str),
}

/// Failures that must refuse the authentication.
#[derive(Debug)]
pub enum OrchestratorError {
    /// The policy requires the extension and the certificate lacks it.
    CertLacksExt,
    /// The policy requires the backend and it is not active.
    RuntimeRequired(MacRuntime),
    /// The backend failed.
    ApplyFailed(MacError),
}

impl OrchestratorError {
    /// The text shown for the error.
    pub open spec fn message_text(&self) -> Seq<char> {
        match self {
            OrchestratorError::CertLacksExt => "cert lacks MAX_INTEGRITY extension"@,
            OrchestratorError::RuntimeRequired(r) => "MAC runtime required but not active: "@
                + r.variant(),
            OrchestratorError::ApplyFailed(e) => "MAC backend failure: "@ + e.message_text(),
        }
    }

    /// The text shown for the error.
    pub fn message(&self) -> (r: String)
        ensures
            r@ == self.message_text(),
    {
        match self {
            OrchestratorError::CertLacksExt => "cert lacks MAX_INTEGRITY extension".to_owned(),
            OrchestratorError::RuntimeRequired(r) => cat2(
                "MAC runtime required but not active: ",
                r.variant_name(),
            ),
            OrchestratorError::ApplyFailed(e) => cat2("MAC backend failure: ", e.message().as_str()),
        }
    }
}

/// Whether a service opens an interactive session.
pub open spec fn interactive(svc: Seq<char>) -> bool {
    svc == "login"@ || svc == "gdm-password"@ || svc == "lightdm"@ || svc == "sddm"@ || svc
        == "kdm"@ || svc == "sshd"@ || svc == "fly-dm"@
}

/// Whether a service opens an interactive session, for which the home label is checked.
pub fn is_interactive_service(svc: &str) -> (r: bool)
    ensures
        r == interactive(svc@),
{
    str_eq(svc, "login") || str_eq(svc, "gdm-password") || str_eq(svc, "lightdm") || str_eq(
        svc,
        "sddm",
    ) || str_eq(svc, "kdm") || str_eq(svc, "sshd") || str_eq(svc, "fly-dm")
}

/// The label of a session: the certificate's bound, else the configured one, within the user's
/// maximum; the maximum itself where there is no bound.
pub open spec fn effective(
    policy: MacPolicy,
    cert_max: Option<IntegrityLabel>,
    user: IntegrityLabel,
) -> IntegrityLabel {
    match cert_max {
        Some(bound) => cert_within_user(bound, user),
        None => match policy.fallback_max_integrity {
            Some(bound) => cert_within_user(bound, user),
            None => user,
        },
    }
}

/// The label of a session.
pub fn effective_label(
    policy: &MacPolicy,
    cert_max: Option<IntegrityLabel>,
    user: IntegrityLabel,
) -> (r: IntegrityLabel)
    ensures
        r == effective(*policy, cert_max, user),
{
    match cert_max {
        Some(bound) => bound.intersect_cert_with_user(&user),
        None => match policy.fallback_max_integrity {
            Some(bound) => bound.intersect_cert_with_user(&user),
            None => user,
        },
    }
}

/// What the backend answered in one session. An answer counts only where it was asked for.
pub ghost struct Replies {
    /// The state of the backend.
    pub runtime: MacRuntime,
    /// The user's maximum.
    pub mnkc: Result<IntegrityLabel, MacError>,
    /// The label of the home directory.
    pub home: Result<IntegrityLabel, MacError>,
    /// Whether the label was accepted.
    pub applied: Result<(), MacError>,
}

/// How a session policy ends.
pub ghost enum Verdict {
    /// The label was applied.
    Applied(IntegrityLabel),
    /// Nothing was applied.
    Skipped(Seq<char>),
    /// The certificate lacks the extension.
    CertLacksExt,
    /// The backend is not active.
    RuntimeRequired(MacRuntime),
    /// The backend failed.
    ApplyFailed(MacError),
}

/// The verdict that a result reports.
pub open spec fn verdict_of(r: Result<Outcome, OrchestratorError>) -> Verdict {
    match r {
        Ok(o) => match o.kind {
            OutcomeKind::Applied(l) => Verdict::Applied(l),
            OutcomeKind::Skipped(why) => Verdict::Skipped(why@),
        },
        Err(OrchestratorError::CertLacksExt) => Verdict::CertLacksExt,
        Err(OrchestratorError::RuntimeRequired(x)) => Verdict::RuntimeRequired(x),
        Err(OrchestratorError::ApplyFailed(e)) => Verdict::ApplyFailed(e),
    }
}

/// Whether the user's maximum is asked for.
pub open spec fn asks_mnkc(
    policy: MacPolicy,
    cert_max: Option<IntegrityLabel>,
    runtime: MacRuntime,
) -> bool {
    &&& policy.cert_integrity != CertIntegrityMode::Ignore
    &&& runtime == MacRuntime::Active
    &&& !(cert_max is None && policy.cert_integrity == CertIntegrityMode::Required)
}

/// Whether the label of the home directory is asked for.
pub open spec fn asks_home(policy: MacPolicy, ctx: SessionContext) -> bool {
    policy.warn_on_homedir_label_mismatch && interactive(ctx.pam_service@) && ctx.home_dir is Some
}

/// The verdict on a session, from the backend's answers. An unknown user is reported under the
/// name of the session's user.
pub open spec fn session_verdict(
    policy: MacPolicy,
    cert_max: Option<IntegrityLabel>,
    ctx: SessionContext,
    rep: Replies,
) -> Verdict {
    if policy.cert_integrity == CertIntegrityMode::Ignore {
        Verdict::Skipped("policy_ignore"@)
    } else if rep.runtime != MacRuntime::Active {
        if policy.cert_integrity == CertIntegrityMode::Required {
            Verdict::RuntimeRequired(rep.runtime)
        } else {
            Verdict::Skipped("runtime_inactive"@)
        }
    } else if cert_max is None && policy.cert_integrity == CertIntegrityMode::Required {
        Verdict::CertLacksExt
    } else {
        match rep.mnkc {
            Err(MacError::UserUnknown { user: _ }) => Verdict::ApplyFailed(
                MacError::UserUnknown { user: ctx.pam_user },
            ),
            Err(e) => Verdict::ApplyFailed(e),
            Ok(user) => match rep.applied {
                Ok(()) => Verdict::Applied(effective(policy, cert_max, user)),
                Err(e) => Verdict::ApplyFailed(e),
            },
        }
    }
}

/// The events recorded once a label was found.
pub open spec fn label_events(
    policy: MacPolicy,
    cert_max: Option<IntegrityLabel>,
    ctx: SessionContext,
    rep: Replies,
    user: IntegrityLabel,
) -> Seq<EventModel> {
    let label = effective(policy, cert_max, user);
    let who = ctx.pam_user@;
    let service = ctx.pam_service@;
    event_if(
        cert_max is None && policy.fallback_max_integrity is Some,
        fallback_used_event(who, service, policy.fallback_max_integrity->0),
    ) + event_if(
        below(label, user),
        integrity_capped_event(ctx.cert_ident, who, service, label, user),
    ) + event_if(
        asks_home(policy, ctx) && rep.home is Ok && rep.home->Ok_0.level > label.level,
        homedir_label_above_event(who, service, ctx.home_dir->0@, rep.home->Ok_0, label),
    ) + match rep.applied {
        Ok(()) => seq![integrity_applied_event(ctx.cert_ident, who, service, label)],
        Err(e) => seq![apply_failed_event(ctx.cert_ident, who, service, e.message_text())],
    }
}

/// The events recorded for a session, from the backend's answers.
pub open spec fn session_events(
    policy: MacPolicy,
    cert_max: Option<IntegrityLabel>,
    ctx: SessionContext,
    rep: Replies,
) -> Seq<EventModel> {
    if policy.cert_integrity == CertIntegrityMode::Ignore {
        seq![mac_skipped_event("policy_ignore"@)]
    } else if rep.runtime != MacRuntime::Active {
        if policy.cert_integrity == CertIntegrityMode::Required {
            seq![mac_runtime_required_event(rep.runtime.variant())]
        } else {
            seq![mac_skipped_event("runtime_inactive"@)]
        }
    } else if cert_max is None && policy.cert_integrity == CertIntegrityMode::Required {
        seq![cert_lacks_ext_event(ctx.cert_ident, ctx.pam_user@, ctx.pam_service@)]
    } else {
        match rep.mnkc {
            Err(e) => event_if(e is UserUnknown, user_unknown_event(ctx.pam_user@, ctx.pam_service@)),
            Ok(user) => label_events(policy, cert_max, ctx, rep, user),
        }
    }
}

/// One call, or none.
pub open spec fn call_if(cond: bool, c: BackendCall) -> Seq<BackendCall> {
    if cond {
        seq![c]
    } else {
        Seq::empty()
    }
}

/// What the backend is asked for a session, with the answers it gave: nothing where the policy
/// ignores it, only its state where the session stops there, and at last one label to apply.
pub open spec fn session_calls(
    policy: MacPolicy,
    cert_max: Option<IntegrityLabel>,
    ctx: SessionContext,
    rep: Replies,
) -> Seq<BackendCall> {
    if policy.cert_integrity == CertIntegrityMode::Ignore {
        Seq::empty()
    } else if !asks_mnkc(policy, cert_max, rep.runtime) {
        seq![BackendCall::Probe(rep.runtime)]
    } else {
        seq![
            BackendCall::Probe(rep.runtime),
            BackendCall::UserMnkc(ctx.pam_user@, rep.mnkc),
        ] + match rep.mnkc {
            Err(_) => Seq::empty(),
            Ok(user) => call_if(
                asks_home(policy, ctx),
                BackendCall::FileLabel(ctx.home_dir->0@, rep.home),
            ).push(BackendCall::ApplySession(effective(policy, cert_max, user), rep.applied)),
        }
    }
}

fn warn_on_home<B: MacBackend>(
    backend: &mut B,
    policy: &MacPolicy,
    ctx: &SessionContext,
    label: IntegrityLabel,
    log: &mut AuditLog,
) -> (reply: Ghost<Result<IntegrityLabel, MacError>>)
    ensures
        final(backend).calls() == old(backend).calls() + call_if(
            asks_home(*policy, *ctx),
            BackendCall::FileLabel(ctx.home_dir->0@, reply@),
        ),
        final(log)@ == old(log)@ + event_if(
            asks_home(*policy, *ctx) && reply@ is Ok && reply@->Ok_0.level > label.level,
            homedir_label_above_event(
                ctx.pam_user@,
                ctx.pam_service@,
                ctx.home_dir->0@,
                reply@->Ok_0,
                label,
            ),
        ),
{
    let ghost before = log@;
    let ghost asked = backend.calls();
    if policy.warn_on_homedir_label_mismatch && is_interactive_service(ctx.pam_service.as_str()) {
        if let Some(home) = &ctx.home_dir {
            let path = home.as_str();
            let found = backend.get_file_label(path);
            let ghost answer = found;
            if let Ok(home_label) = found {
                if home_label.level > label.level {
                    emit_homedir_label_above(
                        log,
                        ctx.pam_user.as_str(),
                        ctx.pam_service.as_str(),
                        path,
                        home_label,
                        label,
                    );
                }
            }
            assert(log@ =~= before + event_if(
                answer is Ok && answer->Ok_0.level > label.level,
                homedir_label_above_event(
                    ctx.pam_user@,
                    ctx.pam_service@,
                    ctx.home_dir->0@,
                    answer->Ok_0,
                    label,
                ),
            ));
            assert(backend.calls() =~= asked + call_if(
                true,
                BackendCall::FileLabel(ctx.home_dir->0@, answer),
            ));
            return Ghost(answer);
        }
    }
    assert(log@ =~= before + Seq::<EventModel>::empty());
    assert(backend.calls() =~= asked + Seq::<BackendCall>::empty());
    Ghost(Err(MacError::Unavailable))
}

/// Whether a session ended so: the backend was asked what the session asks of it and nothing
/// else, and result and record are what its answers come to.
pub open spec fn is_session(
    policy: MacPolicy,
    cert_max: Option<IntegrityLabel>,
    ctx: SessionContext,
    calls: Seq<BackendCall>,
    events: Seq<EventModel>,
    r: Result<Outcome, OrchestratorError>,
) -> bool {
    exists|rep: Replies|
        calls == #[trigger] session_calls(policy, cert_max, ctx, rep) && events == session_events(
            policy,
            cert_max,
            ctx,
            rep,
        ) && verdict_of(r) == session_verdict(policy, cert_max, ctx, rep)
}

/// Resolves and applies the label of a session.
pub fn apply_session_policy<B: MacBackend>(
    backend: &mut B,
    policy: &MacPolicy,
    cert_max: Option<IntegrityLabel>,
    ctx: &SessionContext,
    log: &mut AuditLog,
) -> (r: Result<Outcome, OrchestratorError>)
    ensures
        exists|calls: Seq<BackendCall>, events: Seq<EventModel>|
            final(backend).calls() == old(backend).calls() + calls && final(log)@ == old(log)@
                + events && #[trigger] is_session(*policy, cert_max, *ctx, calls, events, r),
{
    let ghost before = log@;
    let ghost asked = backend.calls();
    let ghost none: Result<IntegrityLabel, MacError> = Err(MacError::Unavailable);
    let ghost done: Result<(), MacError> = Ok(());
    let user = ctx.pam_user.as_str();
    let service = ctx.pam_service.as_str();
    if matches!(policy.cert_integrity, CertIntegrityMode::Ignore) {
        emit_mac_skipped(log, "policy_ignore");
        let r: Result<Outcome, OrchestratorError> = Ok(
            Outcome { kind: OutcomeKind::Skipped("policy_ignore") },
        );
        proof {
            let runtime = MacRuntime::Unavailable;
            let rep = Replies { runtime, mnkc: none, home: none, applied: done };
            let calls = session_calls(*policy, cert_max, *ctx, rep);
            let events = session_events(*policy, cert_max, *ctx, rep);
            assert(backend.calls() =~= asked + calls);
            assert(log@ =~= before + events);
            assert(is_session(*policy, cert_max, *ctx, calls, events, r));
        }
        return r;
    }
    let runtime = backend.probe();
    if runtime != MacRuntime::Active {
        let ghost rep = Replies { runtime, mnkc: none, home: none, applied: done };
        let ghost calls = session_calls(*policy, cert_max, *ctx, rep);
        let ghost events = session_events(*policy, cert_max, *ctx, rep);
        assert(backend.calls() =~= asked + calls);
        if matches!(policy.cert_integrity, CertIntegrityMode::Required) {
            emit_mac_runtime_required(log, runtime.variant_name());
            let r: Result<Outcome, OrchestratorError> = Err(
                OrchestratorError::RuntimeRequired(runtime),
            );
            assert(log@ =~= before + events);
            assert(is_session(*policy, cert_max, *ctx, calls, events, r));
            return r;
        }
        emit_mac_skipped(log, "runtime_inactive");
        let r: Result<Outcome, OrchestratorError> = Ok(
            Outcome { kind: OutcomeKind::Skipped("runtime_inactive") },
        );
        assert(log@ =~= before + events);
        assert(is_session(*policy, cert_max, *ctx, calls, events, r));
        return r;
    }
    if cert_max.is_none() && matches!(policy.cert_integrity, CertIntegrityMode::Required) {
        emit_cert_lacks_ext(log, &ctx.cert_ident, user, service);
        let r: Result<Outcome, OrchestratorError> = Err(OrchestratorError::CertLacksExt);
        proof {
            let rep = Replies { runtime, mnkc: none, home: none, applied: done };
            let calls = session_calls(*policy, cert_max, *ctx, rep);
            let events = session_events(*policy, cert_max, *ctx, rep);
            assert(backend.calls() =~= asked + calls);
            assert(log@ =~= before + events);
            assert(is_session(*policy, cert_max, *ctx, calls, events, r));
        }
        return r;
    }
    let found = backend.get_user_mnkc(user);
    let ghost failed = Replies { runtime, mnkc: found, home: none, applied: done };
    let ghost failed_calls = session_calls(*policy, cert_max, *ctx, failed);
    let ghost failed_events = session_events(*policy, cert_max, *ctx, failed);
    let user_mnkc = match found {
        Ok(m) => m,
        Err(MacError::UserUnknown { user: _ }) => {
            emit_user_unknown(log, user, service);
            let e = MacError::UserUnknown { user: ctx.pam_user.clone() };
            let r: Result<Outcome, OrchestratorError> = Err(OrchestratorError::ApplyFailed(e));
            assert(backend.calls() =~= asked + failed_calls);
            assert(log@ =~= before + failed_events);
            assert(is_session(*policy, cert_max, *ctx, failed_calls, failed_events, r));
            return r;
        },
        Err(e) => {
            let r: Result<Outcome, OrchestratorError> = Err(OrchestratorError::ApplyFailed(e));
            assert(backend.calls() =~= asked + failed_calls);
            assert(log@ =~= before + failed_events);
            assert(is_session(*policy, cert_max, *ctx, failed_calls, failed_events, r));
            return r;
        },
    };
    let label = effective_label(policy, cert_max, user_mnkc);
    if cert_max.is_none() {
        if let Some(bound) = policy.fallback_max_integrity {
            emit_fallback_used(log, user, service, bound);
        }
    }
    let ghost e1 = event_if(
        cert_max is None && policy.fallback_max_integrity is Some,
        fallback_used_event(user@, service@, policy.fallback_max_integrity->0),
    );
    assert(log@ =~= before + e1);
    if label.strictly_below(&user_mnkc) {
        emit_integrity_capped(log, &ctx.cert_ident, user, service, label, user_mnkc);
    }
    let ghost e2 = event_if(
        below(label, user_mnkc),
        integrity_capped_event(ctx.cert_ident, user@, service@, label, user_mnkc),
    );
    assert(log@ =~= before + e1 + e2);
    let home = warn_on_home(backend, policy, ctx, label, log);
    let applied = backend.apply_session(label);
    let ghost rep = Replies { runtime, mnkc: Ok(user_mnkc), home: home@, applied };
    let r: Result<Outcome, OrchestratorError> = match applied {
        Ok(()) => {
            emit_integrity_applied(log, &ctx.cert_ident, user, service, label);
            Ok(Outcome { kind: OutcomeKind::Applied(label) })
        },
        Err(e) => {
            emit_apply_failed(log, &ctx.cert_ident, user, service, e.message().as_str());
            Err(OrchestratorError::ApplyFailed(e))
        },
    };
    proof {
        let calls = session_calls(*policy, cert_max, *ctx, rep);
        let events = session_events(*policy, cert_max, *ctx, rep);
        assert(backend.calls() =~= asked + calls);
        assert(log@ =~= before + events);
        assert(is_session(*policy, cert_max, *ctx, calls, events, r));
    }
    r
}

/// No session runs above its user's maximum.
pub proof fn session_never_exceeds_user(
    policy: MacPolicy,
    cert_max: Option<IntegrityLabel>,
    user: IntegrityLabel,
)
    ensures
        within(effective(policy, cert_max, user), user),
        cert_max matches Some(bound) ==> effective(policy, cert_max, user).level <= bound.level,
{
    let c = user.categories;
    assert(c & c == c) by (bit_vector);
    match cert_max {
        Some(bound) => {
            cert_never_exceeds_user(bound, user);
        },
        None => match policy.fallback_max_integrity {
            Some(bound) => {
                cert_never_exceeds_user(bound, user);
            },
            None => {},
        },
    }
}

/// A policy that requires the extension never ends without a label applied, or a refusal.
pub proof fn required_policy_never_skips(
    policy: MacPolicy,
    cert_max: Option<IntegrityLabel>,
    ctx: SessionContext,
    rep: Replies,
)
    requires
        policy.cert_integrity == CertIntegrityMode::Required,
    ensures
        !(session_verdict(policy, cert_max, ctx, rep) is Skipped),
        session_verdict(policy, cert_max, ctx, rep) is Applied ==> cert_max is Some && rep.runtime
            == MacRuntime::Active && rep.applied is Ok,
{
}

/// Where a session is skipped, or refused before its user was looked up, the backend was asked for
/// its state at most, and for nothing at all where the policy ignores it.
pub proof fn nothing_is_applied_without_an_active_backend(
    policy: MacPolicy,
    cert_max: Option<IntegrityLabel>,
    ctx: SessionContext,
    calls: Seq<BackendCall>,
    events: Seq<EventModel>,
    r: Result<Outcome, OrchestratorError>,
)
    requires
        is_session(policy, cert_max, ctx, calls, events, r),
    ensures
        policy.cert_integrity == CertIntegrityMode::Ignore ==> calls.len() == 0 && verdict_of(r)
            == Verdict::Skipped("policy_ignore"@),
        policy.cert_integrity != CertIntegrityMode::Ignore ==> calls.len() > 0 && calls[0] is Probe,
        policy.cert_integrity != CertIntegrityMode::Ignore && (calls[0] != BackendCall::Probe(
            MacRuntime::Active,
        ) || (cert_max is None && policy.cert_integrity == CertIntegrityMode::Required))
            ==> calls.len() == 1,
        verdict_of(r) is Skipped || verdict_of(r) is CertLacksExt || verdict_of(r)
            is RuntimeRequired ==> calls.len() <= 1,
{
}

/// A session applies at most one label, as its last call, and it is the label of the session: the
/// bound within what the backend gave as the user's maximum.
pub proof fn one_label_is_applied(
    policy: MacPolicy,
    cert_max: Option<IntegrityLabel>,
    ctx: SessionContext,
    calls: Seq<BackendCall>,
    events: Seq<EventModel>,
    r: Result<Outcome, OrchestratorError>,
    i: int,
)
    requires
        is_session(policy, cert_max, ctx, calls, events, r),
        0 <= i < calls.len(),
    ensures
        !(calls[i] is SetFileLabel) && !(calls[i] is SetFdLabel),
        calls[i] matches BackendCall::ApplySession(label, answer) ==> {
            &&& i == calls.len() - 1
            &&& calls[1] matches BackendCall::UserMnkc(who, Ok(user)) && who == ctx.pam_user@
                && label == effective(policy, cert_max, user) && within(label, user)
            &&& match answer {
                Ok(()) => verdict_of(r) == Verdict::Applied(label),
                Err(e) => verdict_of(r) == Verdict::ApplyFailed(e),
            }
        },
        verdict_of(r) is Applied ==> calls.last() is ApplySession,
{
    let rep = choose|rep: Replies|
        calls == #[trigger] session_calls(policy, cert_max, ctx, rep) && events == session_events(
            policy,
            cert_max,
            ctx,
            rep,
        ) && verdict_of(r) == session_verdict(policy, cert_max, ctx, rep);
    if rep.mnkc is Ok {
        session_never_exceeds_user(policy, cert_max, rep.mnkc->Ok_0);
    }
}

/// The label of a session goes by the certificate's bound where there is one, else by the
/// configured one, and by the user's maximum alone where there is neither. A bound lowers the
/// level and, where it names categories, leaves only those.
pub proof fn label_goes_by_the_bound(
    policy: MacPolicy,
    cert_max: Option<IntegrityLabel>,
    user: IntegrityLabel,
)
    ensures
        cert_max is None && policy.fallback_max_integrity is None ==> effective(
            policy,
            cert_max,
            user,
        ) == user,
        ({
            let label = effective(policy, cert_max, user);
            let bound = if cert_max is Some {
                cert_max
            } else {
                policy.fallback_max_integrity
            };
            bound matches Some(b) ==> {
                &&& label.level == if b.level < user.level {
                    b.level
                } else {
                    user.level
                }
                &&& b.categories == 0 ==> label.categories == user.categories
                &&& b.categories != 0 ==> label.categories == b.categories & user.categories
            }
        }),
{
}

/// How a session ends, case by case.
pub proof fn session_ends_by_its_policy(
    policy: MacPolicy,
    cert_max: Option<IntegrityLabel>,
    ctx: SessionContext,
    rep: Replies,
)
    ensures
        ({
            let v = session_verdict(policy, cert_max, ctx, rep);
            let mode = policy.cert_integrity;
            &&& mode == CertIntegrityMode::Ignore ==> v == Verdict::Skipped("policy_ignore"@)
            &&& mode == CertIntegrityMode::Optional && rep.runtime != MacRuntime::Active ==> v
                == Verdict::Skipped("runtime_inactive"@)
            &&& mode == CertIntegrityMode::Required && rep.runtime != MacRuntime::Active ==> v
                == Verdict::RuntimeRequired(rep.runtime)
            &&& mode == CertIntegrityMode::Required && rep.runtime == MacRuntime::Active && cert_max
                is None ==> v == Verdict::CertLacksExt
            &&& mode != CertIntegrityMode::Ignore && rep.runtime == MacRuntime::Active && (cert_max
                is Some || mode == CertIntegrityMode::Optional) ==> match rep.mnkc {
                Err(MacError::UserUnknown { user: _ }) => v == Verdict::ApplyFailed(
                    MacError::UserUnknown { user: ctx.pam_user },
                ),
                Err(e) => v == Verdict::ApplyFailed(e),
                Ok(user) => match rep.applied {
                    Err(e) => v == Verdict::ApplyFailed(e),
                    Ok(()) => v matches Verdict::Applied(l) && l.level <= user.level && l.categories
                        & !user.categories == 0,
                },
            }
        }),
{
    if let Ok(user) = rep.mnkc {
        session_never_exceeds_user(policy, cert_max, user);
        let x = effective(policy, cert_max, user).categories;
        let y = user.categories;
        assert(x & y == x ==> x & !y == 0) by (bit_vector);
    }
}

/// What is recorded of a session that had a label: the bound that stood in for the certificate's,
/// that the user was held below the maximum, that the home directory is above the session, and
/// last whether the label was applied; each exactly where it is so.
pub proof fn sessions_are_recorded(
    policy: MacPolicy,
    cert_max: Option<IntegrityLabel>,
    ctx: SessionContext,
    rep: Replies,
    user: IntegrityLabel,
)
    ensures
        ({
            let e = label_events(policy, cert_max, ctx, rep, user);
            let label = effective(policy, cert_max, user);
            let n1: int = if cert_max is None && policy.fallback_max_integrity is Some { 1 } else { 0 };
            let n2: int = if label != user { 1 } else { 0 };
            let n3: int = if policy.warn_on_homedir_label_mismatch && interactive(
                ctx.pam_service@,
            ) && ctx.home_dir is Some && rep.home is Ok && rep.home->Ok_0.level > label.level {
                1
            } else {
                0
            };
            &&& e.len() == n1 + n2 + n3 + 1
            &&& n1 == 1 ==> e[0].name == "mac_fallback_used"@
            &&& n2 == 1 ==> e[n1].name == "integrity_capped_below_user_mnkc"@
            &&& n3 == 1 ==> e[n1 + n2].name == "homedir_label_above_session_cap"@
            &&& rep.applied is Ok ==> e.last() == integrity_applied_event(
                ctx.cert_ident,
                ctx.pam_user@,
                ctx.pam_service@,
                label,
            )
            &&& rep.applied matches Err(why) ==> e.last() == apply_failed_event(
                ctx.cert_ident,
                ctx.pam_user@,
                ctx.pam_service@,
                why.message_text(),
            )
        }),
{
    session_never_exceeds_user(policy, cert_max, user);
}

/// The label of the home directory is looked at for sessions that a person opens.
pub proof fn interactive_services(svc: Seq<char>)
    ensures
        interactive("login"@) && interactive("gdm-password"@) && interactive("lightdm"@)
            && interactive("sddm"@) && interactive("kdm"@) && interactive("sshd"@) && interactive(
            "fly-dm"@,
        ),
        interactive(svc) ==> svc == "login"@ || svc == "gdm-password"@ || svc == "lightdm"@ || svc
            == "sddm"@ || svc == "kdm"@ || svc == "sshd"@ || svc == "fly-dm"@,
{
}

/// What the backend is asked: its state, then the maximum of the session's user, then the label of
/// the session's home where that is looked at, and last to apply the label.
pub proof fn backend_is_asked_in_order(
    policy: MacPolicy,
    cert_max: Option<IntegrityLabel>,
    ctx: SessionContext,
    rep: Replies,
    user: IntegrityLabel,
)
    requires
        policy.cert_integrity != CertIntegrityMode::Ignore,
        rep.runtime == MacRuntime::Active,
        cert_max is Some || policy.cert_integrity == CertIntegrityMode::Optional,
        rep.mnkc == Ok::<IntegrityLabel, MacError>(user),
    ensures
        ({
            let calls = session_calls(policy, cert_max, ctx, rep);
            let looks = policy.warn_on_homedir_label_mismatch && interactive(ctx.pam_service@)
                && ctx.home_dir is Some;
            &&& calls.len() == if looks { 4int } else { 3 }
            &&& calls[0] == BackendCall::Probe(MacRuntime::Active)
            &&& calls[1] == BackendCall::UserMnkc(ctx.pam_user@, rep.mnkc)
            &&& looks ==> calls[2] == BackendCall::FileLabel(ctx.home_dir->0@, rep.home)
            &&& calls.last() == BackendCall::ApplySession(
                effective(policy, cert_max, user),
                rep.applied,
            )
        }),
{
}

} // verus!
