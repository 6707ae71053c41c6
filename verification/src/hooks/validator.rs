//! Hook validation.

use crate::collections::{clone_strings, opt_text};
use crate::config::raw::RawHook;
use crate::error::HookValidationError;
use crate::hooks::placeholder::{
    group, part_models, tokens, PartModel, PlaceholderVar, Template, TemplatePart,
};
use crate::hooks::stage::HookStage;
use crate::text::{is_absolute, is_absolute_path, str_eq};
use crate::time::Duration;
use vstd::prelude::*;

verus! {

/// Validated hook.
#[derive(Debug)]
pub struct HookConfig {
    /// Stage.
    pub stage: HookStage,
    /// Command argv.
    pub command: Vec<String>,
    /// Timeout.
    pub timeout: Duration,
    /// Failure behavior.
    pub on_failure: OnFailure,
    /// Run-as behavior.
    pub run_as: RunAs,
    /// Environment templates, in the order of their keys.
    pub env: Vec<(String, Template)>,
}

/// Failure behavior.
#[derive(Debug, Clone, Copy, PartialEq, Eq, Structural)]
pub enum OnFailure {
    /// Abort.
    Abort,
    /// Warn.
    Warn,
    /// Ignore.
    Ignore,
}

/// Run-as behavior.
#[derive(Debug, Clone, Copy, PartialEq, Eq, Structural)]
pub enum RunAs {
    /// Root.
    Root,
    /// User.
    User,
}

/// Whether a placeholder is known at a stage: before authentication only the PAM names and the
/// host identity are.
pub open spec fn var_allowed(stage: HookStage, var: PlaceholderVar) -> bool {
    stage == HookStage::PreAuth ==> var == PlaceholderVar::PamUser || var
        == PlaceholderVar::PamService || var == PlaceholderVar::HostId || var
        == PlaceholderVar::HostIdHash || var == PlaceholderVar::HostIdSource
}

/// Return whether a placeholder is valid at a stage.
pub fn is_var_allowed(stage: HookStage, var: PlaceholderVar) -> (r: bool)
    ensures
        r == var_allowed(stage, var),
{
    match stage {
        HookStage::PreAuth => matches!(
            var,
            PlaceholderVar::PamUser
                | PlaceholderVar::PamService
                | PlaceholderVar::HostId
                | PlaceholderVar::HostIdHash
                | PlaceholderVar::HostIdSource
        ),
        HookStage::PostAuthSuccess | HookStage::SessionOpen | HookStage::SessionClose
        | HookStage::UsbRemoved => true,
    }
}

/// The identity that a configured name selects; `root` where there is none.
pub open spec fn run_as_named(value: Option<Seq<char>>) -> Option<RunAs> {
    match value {
        None => Some(RunAs::Root),
        Some(s) => if s == "root"@ {
            Some(RunAs::Root)
        } else if s == "user"@ || s == "pam_user"@ {
            Some(RunAs::User)
        } else {
            None
        },
    }
}

/// What a configured failure behavior means at a stage.
pub open spec fn failure_named(value: Option<Seq<char>>, stage: HookStage) -> OnFailure {
    if value == Some("ignore"@) {
        OnFailure::Ignore
    } else if stage != HookStage::PreAuth && (value is None || value == Some("warn"@)) {
        OnFailure::Warn
    } else {
        OnFailure::Abort
    }
}

/// Why a hook is refused.
pub ghost enum HookFault {
    /// No command.
    EmptyCommand,
    /// The command is no absolute path.
    InvalidCommandPath(Seq<char>),
    /// The timeout is out of range.
    InvalidTimeout,
    /// A template does not parse.
    Template(Seq<char>),
    /// A template names a variable that the stage does not know.
    NotAllowed(HookStage, PlaceholderVar),
    /// No such identity.
    InvalidRunAs(Seq<char>),
}

/// The fault that an error reports.
pub open spec fn hook_fault_of(e: HookValidationError) -> HookFault {
    match e {
        HookValidationError::EmptyCommand => HookFault::EmptyCommand,
        HookValidationError::InvalidCommandPath { path } => HookFault::InvalidCommandPath(path@),
        HookValidationError::InvalidTimeout => HookFault::InvalidTimeout,
        HookValidationError::Template { reason } => HookFault::Template(reason@),
        HookValidationError::PlaceholderNotAllowedAtStage { stage, var } => HookFault::NotAllowed(
            stage,
            var,
        ),
        HookValidationError::InvalidRunAs { value } => HookFault::InvalidRunAs(value@),
    }
}

/// The first variable of a template that a stage does not know.
pub open spec fn first_disallowed(parts: Seq<PartModel>, stage: HookStage) -> Option<PlaceholderVar>
    decreases parts.len(),
{
    if parts.len() == 0 {
        None
    } else {
        match first_disallowed(parts.drop_last(), stage) {
            Some(v) => Some(v),
            None => match parts.last() {
                PartModel::Var(v) => if var_allowed(stage, v) {
                    None
                } else {
                    Some(v)
                },
                PartModel::Literal(_) => None,
            },
        }
    }
}

/// What is wrong with the source of one environment template.
pub open spec fn template_fault(source: Seq<char>, stage: HookStage) -> Option<HookFault> {
    match tokens(source) {
        Err(f) => Some(HookFault::Template("invalid config: "@ + f.reason())),
        Ok(ts) => match first_disallowed(group(ts), stage) {
            Some(v) => Some(HookFault::NotAllowed(stage, v)),
            None => None,
        },
    }
}

/// The fault of the first faulty template.
pub open spec fn env_fault(env: Seq<(String, String)>, stage: HookStage) -> Option<HookFault>
    decreases env.len(),
{
    if env.len() == 0 {
        None
    } else {
        match env_fault(env.drop_last(), stage) {
            Some(f) => Some(f),
            None => template_fault(env.last().1@, stage),
        }
    }
}

/// Why a raw hook is refused, if it is: the first rule that it breaks.
pub open spec fn hook_fault(raw: RawHook) -> Option<HookFault> {
    if raw.command@.len() == 0 {
        Some(HookFault::EmptyCommand)
    } else if !is_absolute_path(raw.command@[0]@) {
        Some(HookFault::InvalidCommandPath(raw.command@[0]@))
    } else if raw.timeout_seconds == 0 || raw.timeout_seconds > 120 {
        Some(HookFault::InvalidTimeout)
    } else if env_fault(raw.env.entries@, raw.stage) is Some {
        env_fault(raw.env.entries@, raw.stage)
    } else if run_as_named(opt_text(raw.run_as)) is None {
        Some(HookFault::InvalidRunAs(raw.run_as->0@))
    } else {
        None
    }
}

/// Whether each parsed template belongs to the entry of the same place.
pub open spec fn env_parsed(env: Seq<(String, String)>, out: Seq<(String, Template)>) -> bool {
    &&& out.len() == env.len()
    &&& forall|i: int|
        0 <= i < out.len() ==> (#[trigger] out[i]).0@ == env[i].0@ && (tokens(env[i].1@) matches Ok(
            ts,
        ) && out[i].1.model() == group(ts))
}

/// Whether a hook is what validation makes of a raw one.
pub open spec fn hook_validated(raw: RawHook, h: HookConfig) -> bool {
    &&& h.stage == raw.stage
    &&& h.command@ == raw.command@
    &&& h.timeout == Duration::of_secs(raw.timeout_seconds)
    &&& h.on_failure == failure_named(opt_text(raw.on_failure), raw.stage)
    &&& run_as_named(opt_text(raw.run_as)) == Some(h.run_as)
    &&& env_parsed(raw.env.entries@, h.env@)
}

fn disallowed_var(t: &Template, stage: HookStage) -> (r: Option<PlaceholderVar>)
    ensures
        r == first_disallowed(t.model(), stage),
{
    let parts = t.parts();
    let ghost model = t.model();
    let mut i: usize = 0;
    assert(model.take(0) =~= Seq::<PartModel>::empty());
    while i < parts.len()
        invariant
            i <= parts@.len(),
            model == part_models(parts@),
            model == t.model(),
            first_disallowed(model.take(i as int), stage) is None,
        decreases parts@.len() - i,
    {
        proof {
            assert(model.take(i + 1).drop_last() =~= model.take(i as int));
            assert(model[i as int] == parts@[i as int]@);
        }
        match &parts[i] {
            TemplatePart::Var(v) => {
                if !is_var_allowed(stage, *v) {
                    proof {
                        lemma_first_disallowed(model, i + 1, stage);
                    }
                    return Some(*v);
                }
            },
            TemplatePart::Literal(_) => {},
        }
        i = i + 1;
    }
    assert(model.take(model.len() as int) =~= model);
    None
}

proof fn lemma_first_disallowed(parts: Seq<PartModel>, i: int, stage: HookStage)
    requires
        0 <= i <= parts.len(),
        first_disallowed(parts.take(i), stage) is Some,
    ensures
        first_disallowed(parts, stage) == first_disallowed(parts.take(i), stage),
    decreases parts.len(),
{
    if i == parts.len() {
        assert(parts.take(i) =~= parts);
    } else {
        assert(parts.drop_last().take(i) =~= parts.take(i));
        lemma_first_disallowed(parts.drop_last(), i, stage);
    }
}

proof fn lemma_env_fault(env: Seq<(String, String)>, i: int, stage: HookStage)
    requires
        0 <= i <= env.len(),
        env_fault(env.take(i), stage) is Some,
    ensures
        env_fault(env, stage) == env_fault(env.take(i), stage),
    decreases env.len(),
{
    if i == env.len() {
        assert(env.take(i) =~= env);
    } else {
        assert(env.drop_last().take(i) =~= env.take(i));
        lemma_env_fault(env.drop_last(), i, stage);
    }
}

fn parse_env(env: &Vec<(String, String)>, stage: HookStage) -> (r: Result<
    Vec<(String, Template)>,
    HookValidationError,
>)
    ensures
        r matches Ok(out) ==> env_fault(env@, stage) is None && env_parsed(env@, out@),
        r matches Err(e) ==> env_fault(env@, stage) == Some(hook_fault_of(e)),
{
    let mut out: Vec<(String, Template)> = Vec::new();
    let mut i: usize = 0;
    assert(env@.take(0) =~= Seq::<(String, String)>::empty());
    while i < env.len()
        invariant
            i <= env@.len(),
            env_fault(env@.take(i as int), stage) is None,
            env_parsed(env@.take(i as int), out@),
        decreases env@.len() - i,
    {
        proof {
            assert(env@.take(i + 1).drop_last() =~= env@.take(i as int));
            if env_fault(env@.take(i + 1), stage) is Some {
                lemma_env_fault(env@, i + 1, stage);
            }
        }
        let template = match Template::parse(env[i].1.as_str()) {
            Ok(t) => t,
            Err(e) => {
                return Err(HookValidationError::Template { reason: e.message() });
            },
        };
        match disallowed_var(&template, stage) {
            Some(var) => {
                return Err(HookValidationError::PlaceholderNotAllowedAtStage { stage, var });
            },
            None => {},
        }
        out.push((env[i].0.clone(), template));
        i = i + 1;
    }
    assert(env@.take(env@.len() as int) =~= env@);
    Ok(out)
}

/// Maps the configured `run_as` to an identity. An unknown value is refused: it must never
/// come to mean root.
pub fn parse_run_as(value: &Option<String>) -> (r: Result<RunAs, HookValidationError>)
    ensures
        r matches Ok(v) ==> run_as_named(opt_text(*value)) == Some(v),
        r matches Err(e) ==> run_as_named(opt_text(*value)) is None && *value is Some
            && hook_fault_of(e) == HookFault::InvalidRunAs(value->0@),
{
    match value {
        None => Ok(RunAs::Root),
        Some(s) => {
            if str_eq(s.as_str(), "root") {
                Ok(RunAs::Root)
            } else if str_eq(s.as_str(), "user") || str_eq(s.as_str(), "pam_user") {
                Ok(RunAs::User)
            } else {
                Err(HookValidationError::InvalidRunAs { value: s.clone() })
            }
        },
    }
}

/// Maps the configured failure behavior at a stage.
pub fn parse_failure(value: &Option<String>, stage: HookStage) -> (r: OnFailure)
    ensures
        r == failure_named(opt_text(*value), stage),
{
    match value {
        None => if stage != HookStage::PreAuth {
            OnFailure::Warn
        } else {
            OnFailure::Abort
        },
        Some(s) => {
            proof {
                reveal_strlit("warn");
                reveal_strlit("ignore");
                assert("warn"@.len() == 4);
                assert("ignore"@.len() == 6);
            }
            if str_eq(s.as_str(), "warn") && stage != HookStage::PreAuth {
                OnFailure::Warn
            } else if str_eq(s.as_str(), "ignore") {
                OnFailure::Ignore
            } else {
                OnFailure::Abort
            }
        },
    }
}

/// Validate a raw hook.
pub fn validate_hook(raw: &RawHook) -> (r: Result<HookConfig, HookValidationError>)
    ensures
        r matches Ok(h) ==> hook_fault(*raw) is None && hook_validated(*raw, h),
        r matches Err(e) ==> hook_fault(*raw) == Some(hook_fault_of(e)),
{
    if raw.command.len() == 0 {
        return Err(HookValidationError::EmptyCommand);
    }
    if !is_absolute(raw.command[0].as_str()) {
        return Err(HookValidationError::InvalidCommandPath { path: raw.command[0].clone() });
    }
    if raw.timeout_seconds == 0 || raw.timeout_seconds > 120 {
        return Err(HookValidationError::InvalidTimeout);
    }
    let env = match parse_env(&raw.env.entries, raw.stage) {
        Ok(env) => env,
        Err(e) => {
            return Err(e);
        },
    };
    let on_failure = parse_failure(&raw.on_failure, raw.stage);
    let run_as = match parse_run_as(&raw.run_as) {
        Ok(v) => v,
        Err(e) => {
            return Err(e);
        },
    };
    Ok(
        HookConfig {
            stage: raw.stage,
            command: clone_strings(&raw.command),
            timeout: Duration::from_secs(raw.timeout_seconds),
            on_failure,
            run_as,
            env,
        },
    )
}

/// In a hook that was accepted for the stage before authentication, no environment template
/// names a value of the certificate, the USB device or the session.
pub proof fn pre_auth_templates_name_only_known_values(raw: RawHook, h: HookConfig, i: int, j: int)
    requires
        hook_fault(raw) is None,
        hook_validated(raw, h),
        h.stage == HookStage::PreAuth,
        0 <= i < h.env@.len(),
        0 <= j < h.env@[i].1.model().len(),
    ensures
        h.env@[i].1.model()[j] matches PartModel::Var(v) ==> var_allowed(HookStage::PreAuth, v),
{
    lemma_env_fault_at(raw.env.entries@, i, raw.stage);
    lemma_allowed_at(h.env@[i].1.model(), j, raw.stage);
}

proof fn lemma_env_fault_at(env: Seq<(String, String)>, i: int, stage: HookStage)
    requires
        env_fault(env, stage) is None,
        0 <= i < env.len(),
    ensures
        template_fault(env[i].1@, stage) is None,
    decreases env.len(),
{
    if i < env.len() - 1 {
        lemma_env_fault_at(env.drop_last(), i, stage);
    }
}

proof fn lemma_allowed_at(parts: Seq<PartModel>, j: int, stage: HookStage)
    requires
        first_disallowed(parts, stage) is None,
        0 <= j < parts.len(),
    ensures
        parts[j] matches PartModel::Var(v) ==> var_allowed(stage, v),
    decreases parts.len(),
{
    if j < parts.len() - 1 {
        lemma_allowed_at(parts.drop_last(), j, stage);
    }
}

/// What a hook may be: a program by its absolute path, a timeout of one to 120 seconds, a known
/// user, and templates that parse and name only what is known at its stage.
pub proof fn accepted_hooks(raw: RawHook)
    ensures
        hook_fault(raw) is None ==> {
            &&& raw.command@.len() > 0
            &&& raw.command@[0]@.len() > 0 && raw.command@[0]@[0] == '/'
            &&& 1 <= raw.timeout_seconds <= 120
            &&& match raw.run_as {
                None => true,
                Some(s) => s@ == "root"@ || s@ == "user"@ || s@ == "pam_user"@,
            }
        },
        raw.command@.len() == 0 ==> hook_fault(raw) == Some(HookFault::EmptyCommand),
        raw.command@.len() > 0 && !(raw.command@[0]@.len() > 0 && raw.command@[0]@[0] == '/')
            ==> hook_fault(raw) == Some(HookFault::InvalidCommandPath(raw.command@[0]@)),
        raw.command@.len() > 0 && raw.command@[0]@.len() > 0 && raw.command@[0]@[0] == '/' && !(1
            <= raw.timeout_seconds <= 120) ==> hook_fault(raw) == Some(HookFault::InvalidTimeout),
        raw.command@.len() > 0 && raw.command@[0]@.len() > 0 && raw.command@[0]@[0] == '/' && 1
            <= raw.timeout_seconds <= 120 && raw.env.entries@.len() == 0 ==> (hook_fault(raw)
            is None <==> match raw.run_as {
            None => true,
            Some(s) => s@ == "root"@ || s@ == "user"@ || s@ == "pam_user"@,
        }),
{
}

/// What a hook becomes: its stage and command as they are, its timeout in seconds, root unless a
/// user is asked for, and the policy on failures by its name and stage.
pub proof fn accepted_hooks_keep_what_was_configured(raw: RawHook, h: HookConfig)
    requires
        hook_fault(raw) is None,
        hook_validated(raw, h),
    ensures
        h.stage == raw.stage,
        h.command@ == raw.command@,
        h.timeout.secs == raw.timeout_seconds && h.timeout.nanos == 0,
        h.run_as == RunAs::Root <==> match raw.run_as {
            None => true,
            Some(s) => s@ == "root"@,
        },
        h.on_failure == OnFailure::Ignore <==> (raw.on_failure matches Some(s) && s@ == "ignore"@),
        h.on_failure == OnFailure::Warn <==> raw.stage != HookStage::PreAuth && match raw.on_failure {
            None => true,
            Some(s) => s@ == "warn"@,
        },
        raw.stage == HookStage::PreAuth && raw.on_failure is None ==> h.on_failure
            == OnFailure::Abort,
        h.env@.len() == raw.env.entries@.len(),
        forall|i: int| 0 <= i < h.env@.len() ==> (#[trigger] h.env@[i]).0@ == raw.env.entries@[i].0@,
{
    reveal_strlit("root");
    reveal_strlit("user");
    reveal_strlit("pam_user");
    reveal_strlit("ignore");
    reveal_strlit("warn");
    assert("root"@.len() == 4);
    assert("user"@.len() == 4);
    assert("pam_user"@.len() == 8);
    assert("ignore"@.len() == 6);
    assert("warn"@.len() == 4);
    assert("root"@[0] == 'r');
    assert("user"@[0] == 'u');
    assert("warn"@[0] == 'w');
}

/// Before authentication a template may name the user, the service and the host, and nothing of the
/// certificate, the device or the session; after it, anything.
pub proof fn placeholders_are_known_at_their_stage(stage: HookStage)
    ensures
        var_allowed(stage, PlaceholderVar::PamUser),
        var_allowed(stage, PlaceholderVar::PamService),
        var_allowed(stage, PlaceholderVar::HostId),
        var_allowed(stage, PlaceholderVar::HostIdHash),
        var_allowed(stage, PlaceholderVar::HostIdSource),
        stage == HookStage::PreAuth ==> !var_allowed(stage, PlaceholderVar::CertCn) && !var_allowed(
            stage,
            PlaceholderVar::CertSerial,
        ) && !var_allowed(stage, PlaceholderVar::UsbSerial) && !var_allowed(
            stage,
            PlaceholderVar::UsbVidPid,
        ) && !var_allowed(stage, PlaceholderVar::SessionId),
        stage != HookStage::PreAuth ==> forall|v: PlaceholderVar| #[trigger] var_allowed(stage, v),
{
}

/// A template is refused for the first placeholder that is not known at the stage, and only for
/// one.
pub proof fn unknown_placeholder_is_refused(parts: Seq<PartModel>, stage: HookStage, i: int)
    requires
        0 <= i < parts.len(),
        parts[i] is Var,
        !var_allowed(stage, parts[i]->Var_0),
        forall|j: int|
            0 <= j < i && (#[trigger] parts[j]) is Var ==> var_allowed(stage, parts[j]->Var_0),
    ensures
        first_disallowed(parts, stage) == Some(parts[i]->Var_0),
    decreases parts.len(),
{
    let p = parts.drop_last();
    if i < p.len() {
        assert(p[i] == parts[i]);
        assert forall|j: int| 0 <= j < i && (#[trigger] p[j]) is Var implies var_allowed(
            stage,
            p[j]->Var_0,
        ) by {
            assert(p[j] == parts[j]);
        }
        unknown_placeholder_is_refused(p, stage, i);
    } else {
        assert forall|j: int| 0 <= j < p.len() && (#[trigger] p[j]) is Var implies var_allowed(
            stage,
            p[j]->Var_0,
        ) by {
            assert(p[j] == parts[j]);
        }
        lemma_none_disallowed(p, stage);
    }
}

proof fn lemma_none_disallowed(parts: Seq<PartModel>, stage: HookStage)
    requires
        forall|j: int|
            0 <= j < parts.len() && (#[trigger] parts[j]) is Var ==> var_allowed(
                stage,
                parts[j]->Var_0,
            ),
    ensures
        first_disallowed(parts, stage) is None,
    decreases parts.len(),
{
    if parts.len() > 0 {
        let p = parts.drop_last();
        assert forall|j: int| 0 <= j < p.len() && (#[trigger] p[j]) is Var implies var_allowed(
            stage,
            p[j]->Var_0,
        ) by {
            assert(p[j] == parts[j]);
        }
        lemma_none_disallowed(p, stage);
        assert(parts[parts.len() - 1] == parts.last());
    }
}

/// A hook is refused for its environment exactly if one of its templates is at fault.
pub proof fn one_faulty_template_is_enough(env: Seq<(String, String)>, stage: HookStage)
    ensures
        env_fault(env, stage) is Some <==> exists|i: int|
            0 <= i < env.len() && template_fault((#[trigger] env[i]).1@, stage) is Some,
    decreases env.len(),
{
    if env.len() > 0 {
        let p = env.drop_last();
        one_faulty_template_is_enough(p, stage);
        if exists|i: int|
            0 <= i < env.len() && template_fault((#[trigger] env[i]).1@, stage) is Some {
            let i = choose|i: int|
                0 <= i < env.len() && template_fault((#[trigger] env[i]).1@, stage) is Some;
            if i < p.len() {
                assert(template_fault(p[i].1@, stage) is Some);
            }
        }
        if env_fault(env, stage) is Some {
            if env_fault(p, stage) is Some {
                let i = choose|i: int|
                    0 <= i < p.len() && template_fault((#[trigger] p[i]).1@, stage) is Some;
                assert(env[i] == p[i]);
            } else {
                assert(template_fault(env[env.len() - 1].1@, stage) is Some);
            }
        }
    }
}

} // verus!
