//! The environment of a hook.
//!
//! It is built before the fork, so that the child allocates nothing: a fixed set of variables,
//! then every `TESSERA_*` variable, then the hook's own templates, which may override either.

use crate::collections::{entry_keys, entry_map, lemma_entry, sorted, StringMap};
use crate::hooks::placeholder::{
    lemma_rendered_prefix, missing_values_are_named, part_models, rendered, PartModel,
    PlaceholderVar, Template, TemplatePart,
};
use crate::hooks::result::HookError;
use crate::hooks::stage::HookStage;
use crate::hooks::user::UserInfo;
use crate::hooks::validator::HookConfig;
use crate::hooks::vars::HookVars;
use crate::text::{cat3, has_char};
use vstd::prelude::*;
use vstd::string::*;

verus! {

/// `PATH` of a hook.
pub const DEFAULT_PATH: &'static str = "/usr/sbin:/usr/bin:/sbin:/bin";

/// The text of an optional value, empty where there is none.
pub open spec fn text_or_empty(v: Option<String>) -> Seq<char> {
    match v {
        Some(s) => s@,
        None => Seq::empty(),
    }
}

/// The variables that every hook gets: a fixed set for the user it runs as, and one for each
/// value, empty where it is not known.
pub open spec fn fixed_env(stage: HookStage, vars: HookVars, user: Option<UserInfo>) -> Map<
    Seq<char>,
    Seq<char>,
> {
    let name = match user {
        Some(u) => u.name@,
        None => "root"@,
    };
    let home = match user {
        Some(u) => u.home@,
        None => "/root"@,
    };
    Map::<Seq<char>, Seq<char>>::empty().insert("PATH"@, DEFAULT_PATH@).insert(
        "HOME"@,
        home,
    ).insert("USER"@, name).insert("LOGNAME"@, name).insert("LANG"@, "C.UTF-8"@).insert(
        "TESSERA_STAGE"@,
        stage.name(),
    ).insert("TESSERA_USER"@, text_or_empty(vars.pam_user)).insert(
        "TESSERA_SERVICE"@,
        text_or_empty(vars.pam_service),
    ).insert("TESSERA_HOST_ID"@, text_or_empty(vars.host_id)).insert(
        "TESSERA_HOST_ID_HASH"@,
        text_or_empty(vars.host_id_hash),
    ).insert("TESSERA_HOST_ID_SOURCE"@, text_or_empty(vars.host_id_source)).insert(
        "TESSERA_CERT_CN"@,
        text_or_empty(vars.cert_cn),
    ).insert("TESSERA_CERT_SERIAL"@, text_or_empty(vars.cert_serial)).insert(
        "TESSERA_USB_SERIAL"@,
        text_or_empty(vars.usb_serial),
    ).insert("TESSERA_USB_VID_PID"@, text_or_empty(vars.usb_vid_pid)).insert(
        "TESSERA_SESSION_ID"@,
        text_or_empty(vars.session_id),
    )
}

/// The values of the variables as a function.
pub open spec fn values_of(vars: HookVars) -> spec_fn(PlaceholderVar) -> Option<Seq<char>> {
    |v: PlaceholderVar| vars.value(v)
}

/// The environment with the hook's own templates over it, or the first variable without a value.
pub open spec fn custom_env(
    base: Map<Seq<char>, Seq<char>>,
    env: Seq<(String, Template)>,
    vars: HookVars,
) -> Result<Map<Seq<char>, Seq<char>>, PlaceholderVar>
    decreases env.len(),
{
    if env.len() == 0 {
        Ok(base)
    } else {
        match custom_env(base, env.drop_last(), vars) {
            Err(v) => Err(v),
            Ok(m) => match rendered(env.last().1.model(), values_of(vars)) {
                Err(v) => Err(v),
                Ok(text) => Ok(m.insert(env.last().0@, text)),
            },
        }
    }
}

/// The environment of a hook.
pub open spec fn hook_env(hook: HookConfig, vars: HookVars, user: Option<UserInfo>) -> Result<
    Map<Seq<char>, Seq<char>>,
    PlaceholderVar,
> {
    custom_env(fixed_env(hook.stage, vars, user), hook.env@, vars)
}

/// Why a value may not enter the environment: its first control character other than NUL.
pub open spec fn control_reason(s: Seq<char>) -> Option<Seq<char>>
    decreases s.len(),
{
    if s.len() == 0 {
        None
    } else if s[0] == '\n' {
        Some("contains newline (0x0A)"@)
    } else if s[0] == '\r' {
        Some("contains carriage return (0x0D)"@)
    } else if ' ' > s[0] && s[0] != '\0' {
        Some("contains control byte (< 0x20)"@)
    } else {
        control_reason(s.drop_first())
    }
}

/// Why a value may not enter the environment, a NUL aside.
pub fn forbidden_control_reason(v: &str) -> (r: Option<&'static str>)
    ensures
        match r {
            Some(why) => control_reason(v@) == Some(why@),
            None => control_reason(v@) is None,
        },
{
    assert(v@.skip(0) =~= v@);
    for c in it: v.chars()
        invariant
            it.seq() == v@,
            control_reason(v@) == control_reason(v@.skip(it.index())),
    {
        assert(v@.skip(it.index()).drop_first() =~= v@.skip(it.index() + 1));
        if c == '\n' {
            return Some("contains newline (0x0A)");
        }
        if c == '\r' {
            return Some("contains carriage return (0x0D)");
        }
        if ' ' > c && c != '\0' {
            return Some("contains control byte (< 0x20)");
        }
    }
    None
}

/// Why an entry may not enter the environment.
pub ghost enum EntryFault {
    /// The value of this key holds a control character: why that is refused.
    Value(Seq<char>, Seq<char>),
    /// The key or the value holds a NUL.
    Nul,
}

/// Why an entry may not enter the environment.
pub open spec fn entry_fault(key: Seq<char>, value: Seq<char>) -> Option<EntryFault> {
    match control_reason(value) {
        Some(why) => Some(EntryFault::Value(key, why)),
        None => if key.contains('\0') || value.contains('\0') {
            Some(EntryFault::Nul)
        } else {
            None
        },
    }
}

/// The first entry that may not enter the environment.
pub open spec fn entries_fault(e: Seq<(String, String)>) -> Option<EntryFault>
    decreases e.len(),
{
    if e.len() == 0 {
        None
    } else {
        match entries_fault(e.drop_last()) {
            Some(f) => Some(f),
            None => entry_fault(e.last().0@, e.last().1@),
        }
    }
}

/// Whether the result is the environment `e`, written `KEY=VALUE` in the order of the keys, or
/// the refusal of its first faulty entry.
pub open spec fn written(e: Seq<(String, String)>, r: Result<Vec<String>, HookError>) -> bool {
    match r {
        Ok(lines) => {
            &&& entries_fault(e) is None
            &&& lines@.len() == e.len()
            &&& forall|i: int|
                0 <= i < e.len() ==> (#[trigger] lines@[i])@ == e[i].0@ + "="@ + e[i].1@
        },
        Err(HookError::EnvValueRejected { var, reason }) => entries_fault(e) == Some(
            EntryFault::Value(var@, reason@),
        ),
        Err(HookError::ChildSetup { message }) => entries_fault(e) == Some(EntryFault::Nul)
            && message@ == "env value contains NUL byte"@,
        Err(_) => false,
    }
}

proof fn lemma_entries_fault(e: Seq<(String, String)>, i: int)
    requires
        0 <= i <= e.len(),
        entries_fault(e.take(i)) is Some,
    ensures
        entries_fault(e) == entries_fault(e.take(i)),
    decreases e.len(),
{
    if i == e.len() {
        assert(e.take(i) =~= e);
    } else {
        assert(e.drop_last().take(i) =~= e.take(i));
        lemma_entries_fault(e.drop_last(), i);
    }
}

fn write_entries(env: &StringMap) -> (r: Result<Vec<String>, HookError>)
    ensures
        written(env.entries@, r),
{
    let ghost e = env.entries@;
    let mut out: Vec<String> = Vec::new();
    let mut i: usize = 0;
    assert(e.take(0) =~= Seq::<(String, String)>::empty());
    while i < env.entries.len()
        invariant
            i <= e.len(),
            e == env.entries@,
            entries_fault(e.take(i as int)) is None,
            out@.len() == i,
            forall|k: int| 0 <= k < i ==> (#[trigger] out@[k])@ == e[k].0@ + "="@ + e[k].1@,
        decreases e.len() - i,
    {
        proof {
            assert(e.take(i + 1).drop_last() =~= e.take(i as int));
            if entries_fault(e.take(i + 1)) is Some {
                lemma_entries_fault(e, i + 1);
            }
        }
        let key = &env.entries[i].0;
        let value = &env.entries[i].1;
        match forbidden_control_reason(value.as_str()) {
            Some(reason) => {
                return Err(HookError::EnvValueRejected { var: key.clone(), reason });
            },
            None => {},
        }
        if has_char(key.as_str(), '\0') || has_char(value.as_str(), '\0') {
            return Err(
                HookError::ChildSetup { message: "env value contains NUL byte".to_owned() },
            );
        }
        out.push(cat3(key.as_str(), "=", value.as_str()));
        i = i + 1;
    }
    assert(e.take(e.len() as int) =~= e);
    Ok(out)
}

fn opt_or_empty(v: &Option<String>) -> (r: String)
    ensures
        r@ == text_or_empty(*v),
{
    match v {
        Some(s) => s.clone(),
        None => String::new(),
    }
}

fn build_fixed_env(stage: HookStage, vars: &HookVars, user: Option<&UserInfo>) -> (r: StringMap)
    ensures
        r.wf(),
        r@ == fixed_env(stage, *vars, user_value(user)),
{
    let (name, home) = match user {
        Some(u) => (u.name.clone(), u.home.clone()),
        None => ("root".to_owned(), "/root".to_owned()),
    };
    let mut env = StringMap::new();
    env.insert("PATH".to_owned(), DEFAULT_PATH.to_owned());
    env.insert("HOME".to_owned(), home);
    env.insert("USER".to_owned(), name.clone());
    env.insert("LOGNAME".to_owned(), name);
    env.insert("LANG".to_owned(), "C.UTF-8".to_owned());
    env.insert("TESSERA_STAGE".to_owned(), stage.as_str().to_owned());
    env.insert("TESSERA_USER".to_owned(), opt_or_empty(&vars.pam_user));
    env.insert("TESSERA_SERVICE".to_owned(), opt_or_empty(&vars.pam_service));
    env.insert("TESSERA_HOST_ID".to_owned(), opt_or_empty(&vars.host_id));
    env.insert("TESSERA_HOST_ID_HASH".to_owned(), opt_or_empty(&vars.host_id_hash));
    env.insert("TESSERA_HOST_ID_SOURCE".to_owned(), opt_or_empty(&vars.host_id_source));
    env.insert("TESSERA_CERT_CN".to_owned(), opt_or_empty(&vars.cert_cn));
    env.insert("TESSERA_CERT_SERIAL".to_owned(), opt_or_empty(&vars.cert_serial));
    env.insert("TESSERA_USB_SERIAL".to_owned(), opt_or_empty(&vars.usb_serial));
    env.insert("TESSERA_USB_VID_PID".to_owned(), opt_or_empty(&vars.usb_vid_pid));
    env.insert("TESSERA_SESSION_ID".to_owned(), opt_or_empty(&vars.session_id));
    env
}

/// The user behind an optional reference.
pub open spec fn user_value(user: Option<&UserInfo>) -> Option<UserInfo> {
    match user {
        Some(u) => Some(*u),
        None => None,
    }
}

/// Renders a template with known values.
pub fn render_with(t: &Template, vars: &HookVars) -> (r: Result<String, PlaceholderVar>)
    ensures
        match r {
            Ok(s) => rendered(t.model(), values_of(*vars)) == Ok::<Seq<char>, PlaceholderVar>(s@),
            Err(v) => rendered(t.model(), values_of(*vars)) == Err::<Seq<char>, PlaceholderVar>(v),
        },
{
    let parts = t.parts();
    let ghost model = t.model();
    let ghost values = values_of(*vars);
    let mut out = String::new();
    let mut i: usize = 0;
    assert(model.take(0) =~= Seq::<PartModel>::empty());
    while i < parts.len()
        invariant
            i <= parts@.len(),
            model == part_models(parts@),
            model == t.model(),
            values == values_of(*vars),
            rendered(model.take(i as int), values) == Ok::<Seq<char>, PlaceholderVar>(out@),
        decreases parts@.len() - i,
    {
        proof {
            assert(model.take(i + 1).drop_last() =~= model.take(i as int));
            assert(model[i as int] == parts@[i as int]@);
        }
        match &parts[i] {
            TemplatePart::Literal(s) => {
                out.append(s.as_str());
            },
            TemplatePart::Var(v) => match vars.resolve(*v) {
                Some(s) => {
                    out.append(s);
                },
                None => {
                    proof {
                        assert(values(*v) is None);
                        lemma_rendered_prefix(model, i + 1, values);
                    }
                    return Err(*v);
                },
            },
        }
        i = i + 1;
    }
    assert(model.take(model.len() as int) =~= model);
    Ok(out)
}

proof fn lemma_custom_env_prefix(
    base: Map<Seq<char>, Seq<char>>,
    env: Seq<(String, Template)>,
    vars: HookVars,
    i: int,
)
    requires
        0 <= i <= env.len(),
        custom_env(base, env.take(i), vars) is Err,
    ensures
        custom_env(base, env, vars) == custom_env(base, env.take(i), vars),
    decreases env.len(),
{
    if i == env.len() {
        assert(env.take(i) =~= env);
    } else {
        assert(env.drop_last().take(i) =~= env.take(i));
        lemma_custom_env_prefix(base, env.drop_last(), vars, i);
    }
}

/// The `KEY=VALUE` lines of a hook's environment, in the order of the keys. Without a user the
/// hook runs as root. No line holds a NUL or a control character.
pub fn build_env_vector(hook: &HookConfig, vars: &HookVars, run_as_user: Option<&UserInfo>) -> (r:
    Result<Vec<String>, HookError>)
    ensures
        match hook_env(*hook, *vars, user_value(run_as_user)) {
            Err(v) => r == Err::<Vec<String>, HookError>(HookError::UnresolvedVar { var: v }),
            Ok(env) => exists|e: Seq<(String, String)>|
                sorted(entry_keys(e)) && entry_map(e) == env && #[trigger] written(e, r),
        },
{
    let mut env = build_fixed_env(hook.stage, vars, run_as_user);
    let ghost base = env@;
    let mut i: usize = 0;
    assert(hook.env@.take(0) =~= Seq::<(String, Template)>::empty());
    while i < hook.env.len()
        invariant
            i <= hook.env@.len(),
            env.wf(),
            base == fixed_env(hook.stage, *vars, user_value(run_as_user)),
            custom_env(base, hook.env@.take(i as int), *vars) == Ok::<
                Map<Seq<char>, Seq<char>>,
                PlaceholderVar,
            >(env@),
        decreases hook.env@.len() - i,
    {
        proof {
            assert(hook.env@.take(i + 1).drop_last() =~= hook.env@.take(i as int));
        }
        match render_with(&hook.env[i].1, vars) {
            Ok(text) => {
                env.insert(hook.env[i].0.clone(), text);
            },
            Err(var) => {
                proof {
                    lemma_custom_env_prefix(base, hook.env@, *vars, i + 1);
                }
                return Err(HookError::UnresolvedVar { var });
            },
        }
        i = i + 1;
    }
    assert(hook.env@.take(hook.env@.len() as int) =~= hook.env@);
    write_entries(&env)
}

/// Where the environment is accepted, no value in it holds a control character and no key a NUL.
pub proof fn accepted_env_is_clean(e: Seq<(String, String)>, i: int)
    requires
        entries_fault(e) is None,
        0 <= i < e.len(),
    ensures
        !e[i].0@.contains('\0'),
        forall|k: int| 0 <= k < e[i].1@.len() ==> (#[trigger] e[i].1@[k]) >= ' ',
    decreases e.len(),
{
    if i < e.len() - 1 {
        accepted_env_is_clean(e.drop_last(), i);
    } else {
        lemma_no_control(e[i].1@);
    }
}

proof fn lemma_no_control(s: Seq<char>)
    requires
        control_reason(s) is None,
        !s.contains('\0'),
    ensures
        forall|k: int| 0 <= k < s.len() ==> (#[trigger] s[k]) >= ' ',
    decreases s.len(),
{
    if s.len() > 0 {
        assert(s[0] != '\0');
        assert forall|k: int| 0 <= k < s.len() - 1 implies #[trigger] s.drop_first()[k] != '\0' by {
            assert(s[k + 1] != '\0');
        }
        lemma_no_control(s.drop_first());
        assert forall|k: int| 0 <= k < s.len() implies (#[trigger] s[k]) >= ' ' by {
            if k > 0 {
                assert(s[k] == s.drop_first()[k - 1]);
            }
        }
    }
}

/// The environment variable that carries the value of a placeholder.
pub open spec fn env_name(v: PlaceholderVar) -> Seq<char> {
    match v {
        PlaceholderVar::PamUser => "TESSERA_USER"@,
        PlaceholderVar::PamService => "TESSERA_SERVICE"@,
        PlaceholderVar::HostId => "TESSERA_HOST_ID"@,
        PlaceholderVar::HostIdHash => "TESSERA_HOST_ID_HASH"@,
        PlaceholderVar::HostIdSource => "TESSERA_HOST_ID_SOURCE"@,
        PlaceholderVar::CertCn => "TESSERA_CERT_CN"@,
        PlaceholderVar::CertSerial => "TESSERA_CERT_SERIAL"@,
        PlaceholderVar::UsbSerial => "TESSERA_USB_SERIAL"@,
        PlaceholderVar::UsbVidPid => "TESSERA_USB_VID_PID"@,
        PlaceholderVar::SessionId => "TESSERA_SESSION_ID"@,
    }
}

/// Every variable of the fixed set carries what its name says: each value under the name of its
/// placeholder, empty where it is not known, and the stage; and the user and home that the hook
/// runs with.
pub proof fn fixed_variables_carry_their_values(
    stage: HookStage,
    vars: HookVars,
    user: Option<UserInfo>,
    v: PlaceholderVar,
)
    ensures
        ({
            let env = fixed_env(stage, vars, user);
            &&& env.dom().contains(env_name(v))
            &&& env[env_name(v)] == match vars.value(v) {
                Some(value) => value,
                None => Seq::<char>::empty(),
            }
            &&& env.dom().contains("TESSERA_STAGE"@) && env["TESSERA_STAGE"@] == stage.name()
            &&& env.dom().contains("PATH"@) && env["PATH"@] == "/usr/sbin:/usr/bin:/sbin:/bin"@
            &&& env.dom().contains("LANG"@) && env["LANG"@] == "C.UTF-8"@
            &&& env.dom().contains("HOME"@) && env.dom().contains("USER"@) && env.dom().contains(
                "LOGNAME"@,
            )
            &&& match user {
                Some(u) => env["HOME"@] == u.home@ && env["USER"@] == u.name@ && env["LOGNAME"@]
                    == u.name@,
                None => env["HOME"@] == "/root"@ && env["USER"@] == "root"@ && env["LOGNAME"@]
                    == "root"@,
            }
        }),
{
    reveal_strlit("PATH");
    reveal_strlit("HOME");
    reveal_strlit("USER");
    reveal_strlit("LOGNAME");
    reveal_strlit("LANG");
    reveal_strlit("TESSERA_STAGE");
    reveal_strlit("TESSERA_USER");
    reveal_strlit("TESSERA_SERVICE");
    reveal_strlit("TESSERA_HOST_ID");
    reveal_strlit("TESSERA_HOST_ID_HASH");
    reveal_strlit("TESSERA_HOST_ID_SOURCE");
    reveal_strlit("TESSERA_CERT_CN");
    reveal_strlit("TESSERA_CERT_SERIAL");
    reveal_strlit("TESSERA_USB_SERIAL");
    reveal_strlit("TESSERA_USB_VID_PID");
    reveal_strlit("TESSERA_SESSION_ID");
    assert("PATH"@.len() == 4);
    assert("HOME"@.len() == 4);
    assert("USER"@.len() == 4);
    assert("LOGNAME"@.len() == 7);
    assert("LANG"@.len() == 4);
    assert("TESSERA_STAGE"@.len() == 13);
    assert("TESSERA_USER"@.len() == 12);
    assert("TESSERA_SERVICE"@.len() == 15);
    assert("TESSERA_HOST_ID"@.len() == 15);
    assert("TESSERA_HOST_ID_HASH"@.len() == 20);
    assert("TESSERA_HOST_ID_SOURCE"@.len() == 22);
    assert("TESSERA_CERT_CN"@.len() == 15);
    assert("TESSERA_CERT_SERIAL"@.len() == 19);
    assert("TESSERA_USB_SERIAL"@.len() == 18);
    assert("TESSERA_USB_VID_PID"@.len() == 19);
    assert("TESSERA_SESSION_ID"@.len() == 18);
    assert("PATH"@[0] == 'P');
    assert("HOME"@[0] == 'H');
    assert("USER"@[0] == 'U');
    assert("LANG"@[0] == 'L');
    assert("TESSERA_SERVICE"@[8] == 'S');
    assert("TESSERA_HOST_ID"@[8] == 'H');
    assert("TESSERA_CERT_CN"@[8] == 'C');
    assert("TESSERA_CERT_SERIAL"@[8] == 'C');
    assert("TESSERA_USB_VID_PID"@[8] == 'U');
    assert("TESSERA_USB_SERIAL"@[8] == 'U');
    assert("TESSERA_SESSION_ID"@[8] == 'S');
}

/// Only the variables of the fixed set are in it.
pub proof fn nothing_else_is_fixed(
    stage: HookStage,
    vars: HookVars,
    user: Option<UserInfo>,
    key: Seq<char>,
)
    requires
        fixed_env(stage, vars, user).dom().contains(key),
    ensures
        key == "PATH"@ || key == "HOME"@ || key == "USER"@ || key == "LOGNAME"@ || key == "LANG"@
            || key == "TESSERA_STAGE"@ || exists|v: PlaceholderVar| key == #[trigger] env_name(v),
{
    let _ = env_name(PlaceholderVar::PamUser);
    let _ = env_name(PlaceholderVar::PamService);
    let _ = env_name(PlaceholderVar::HostId);
    let _ = env_name(PlaceholderVar::HostIdHash);
    let _ = env_name(PlaceholderVar::HostIdSource);
    let _ = env_name(PlaceholderVar::CertCn);
    let _ = env_name(PlaceholderVar::CertSerial);
    let _ = env_name(PlaceholderVar::UsbSerial);
    let _ = env_name(PlaceholderVar::UsbVidPid);
    let _ = env_name(PlaceholderVar::SessionId);
}

/// A hook's own variable stands over the fixed one: the last template for a key decides, and a key
/// without one keeps the value it had.
pub proof fn own_templates_decide(
    base: Map<Seq<char>, Seq<char>>,
    env: Seq<(String, Template)>,
    vars: HookVars,
    key: Seq<char>,
)
    requires
        custom_env(base, env, vars) is Ok,
    ensures
        (forall|i: int| 0 <= i < env.len() ==> (#[trigger] env[i]).0@ != key) ==> (custom_env(
            base,
            env,
            vars,
        )->Ok_0.dom().contains(key) == base.dom().contains(key) && (base.dom().contains(key)
            ==> custom_env(base, env, vars)->Ok_0[key] == base[key])),
        forall|i: int|
            0 <= i < env.len() && (#[trigger] env[i]).0@ == key && (forall|j: int|
                i < j < env.len() ==> (#[trigger] env[j]).0@ != key) ==> custom_env(
                base,
                env,
                vars,
            )->Ok_0.dom().contains(key) && rendered(env[i].1.model(), values_of(vars)) == Ok::<
                Seq<char>,
                PlaceholderVar,
            >(custom_env(base, env, vars)->Ok_0[key]),
    decreases env.len(),
{
    if env.len() > 0 {
        let p = env.drop_last();
        own_templates_decide(base, p, vars, key);
        if forall|i: int| 0 <= i < env.len() ==> (#[trigger] env[i]).0@ != key {
            assert forall|i: int| 0 <= i < p.len() implies (#[trigger] p[i]).0@ != key by {
                assert(p[i] == env[i]);
            }
            assert(env[env.len() - 1].0@ != key);
        }
        assert forall|i: int|
            0 <= i < env.len() && (#[trigger] env[i]).0@ == key && (forall|j: int|
                i < j < env.len() ==> (#[trigger] env[j]).0@ != key) implies custom_env(
            base,
            env,
            vars,
        )->Ok_0.dom().contains(key) && rendered(env[i].1.model(), values_of(vars)) == Ok::<
            Seq<char>,
            PlaceholderVar,
        >(custom_env(base, env, vars)->Ok_0[key]) by {
            if i < p.len() {
                assert(p[i] == env[i]);
                assert(env[env.len() - 1].0@ != key);
                assert forall|j: int| i < j < p.len() implies (#[trigger] p[j]).0@ != key by {
                    assert(p[j] == env[j]);
                }
            }
        }
    }
}

/// An environment fails for a placeholder only where a template of the hook names it and it has no
/// value; where every template has its values, there is an environment.
pub proof fn environment_fails_for_missing_values_only(
    base: Map<Seq<char>, Seq<char>>,
    env: Seq<(String, Template)>,
    vars: HookVars,
)
    ensures
        (forall|i: int|
            0 <= i < env.len() ==> rendered((#[trigger] env[i]).1.model(), values_of(vars)) is Ok)
            ==> custom_env(base, env, vars) is Ok,
        custom_env(base, env, vars) matches Err(v) ==> vars.value(v) is None && exists|i: int|
            0 <= i < env.len() && rendered((#[trigger] env[i]).1.model(), values_of(vars)) == Err::<
                Seq<char>,
                PlaceholderVar,
            >(v),
    decreases env.len(),
{
    if env.len() > 0 {
        let p = env.drop_last();
        environment_fails_for_missing_values_only(base, p, vars);
        if forall|i: int|
            0 <= i < env.len() ==> rendered((#[trigger] env[i]).1.model(), values_of(vars)) is Ok {
            assert forall|i: int| 0 <= i < p.len() implies rendered(
                (#[trigger] p[i]).1.model(),
                values_of(vars),
            ) is Ok by {
                assert(p[i] == env[i]);
            }
            assert(rendered(env[env.len() - 1].1.model(), values_of(vars)) is Ok);
        }
        if let Err(v) = custom_env(base, env, vars) {
            if custom_env(base, p, vars) is Err {
                let i = choose|i: int|
                    0 <= i < p.len() && rendered((#[trigger] p[i]).1.model(), values_of(vars))
                        == Err::<Seq<char>, PlaceholderVar>(v);
                assert(env[i] == p[i]);
            } else {
                let last = env[env.len() - 1];
                let parts = last.1.model();
                assert(rendered(parts, values_of(vars)) == Err::<Seq<char>, PlaceholderVar>(v));
                if parts.len() > 0 {
                    missing_values_are_named(parts, values_of(vars), 0);
                }
                assert(values_of(vars)(v) is None);
            }
        }
    }
}

/// Each line of a written environment is a key, an equals sign and the value of that key, one line
/// for each variable.
pub proof fn lines_are_keys_and_values(
    e: Seq<(String, String)>,
    lines: Vec<String>,
    env: Map<Seq<char>, Seq<char>>,
    i: int,
)
    requires
        written(e, Ok(lines)),
        sorted(entry_keys(e)),
        entry_map(e) == env,
        0 <= i < lines@.len(),
    ensures
        lines@.len() == e.len(),
        env.dom().contains(e[i].0@),
        lines@[i]@ == e[i].0@ + "="@ + env[e[i].0@],
{
    lemma_entry(e, i);
}

/// Every variable of an environment has its line.
pub proof fn every_variable_has_its_line(
    e: Seq<(String, String)>,
    lines: Vec<String>,
    env: Map<Seq<char>, Seq<char>>,
    key: Seq<char>,
)
    requires
        written(e, Ok(lines)),
        sorted(entry_keys(e)),
        entry_map(e) == env,
        env.dom().contains(key),
    ensures
        exists|i: int| 0 <= i < lines@.len() && (#[trigger] lines@[i])@ == key + "="@ + env[key],
{
    let keys = entry_keys(e);
    assert(keys.contains(key));
    let i = choose|i: int| 0 <= i < keys.len() && keys[i] == key;
    lemma_entry(e, i);
    assert(lines@[i]@ == key + "="@ + env[key]);
}

/// A value is refused for its first control character other than NUL, and the reason says which
/// kind that is; a value without one is not refused for that.
pub proof fn first_control_character_is_named(s: Seq<char>, i: int)
    ensures
        0 <= i < s.len() && s[i] < ' ' && s[i] != '\0' && (forall|j: int|
            0 <= j < i ==> (#[trigger] s[j]) >= ' ' || s[j] == '\0') ==> control_reason(s) == Some(
            if s[i] == '\n' {
                "contains newline (0x0A)"@
            } else if s[i] == '\r' {
                "contains carriage return (0x0D)"@
            } else {
                "contains control byte (< 0x20)"@
            },
        ),
        (forall|j: int| 0 <= j < s.len() ==> (#[trigger] s[j]) >= ' ' || s[j] == '\0')
            ==> control_reason(s) is None,
    decreases s.len(),
{
    if s.len() > 0 {
        let t = s.drop_first();
        first_control_character_is_named(t, i - 1);
        if 0 < i < s.len() {
            assert(t[i - 1] == s[i]);
        }
        if forall|j: int| 0 <= j < i ==> (#[trigger] s[j]) >= ' ' || s[j] == '\0' {
            assert forall|j: int| 0 <= j < i - 1 && j < t.len() implies (#[trigger] t[j]) >= ' '
                || t[j] == '\0' by {
                assert(t[j] == s[j + 1]);
            }
            if i > 0 {
                assert(s[0] >= ' ' || s[0] == '\0');
            }
        }
        if forall|j: int| 0 <= j < s.len() ==> (#[trigger] s[j]) >= ' ' || s[j] == '\0' {
            assert forall|j: int| 0 <= j < t.len() implies (#[trigger] t[j]) >= ' ' || t[j]
                == '\0' by {
                assert(t[j] == s[j + 1]);
            }
            assert(s[0] >= ' ' || s[0] == '\0');
        }
    }
}

/// The first entry that may not enter decides the refusal: one with a control character in its
/// value by its key and the reason, one with a NUL as such.
pub proof fn first_faulty_entry_decides(e: Seq<(String, String)>, i: int)
    requires
        0 <= i < e.len(),
        forall|j: int|
            0 <= j < i ==> entry_fault((#[trigger] e[j]).0@, e[j].1@) is None,
    ensures
        control_reason(e[i].1@) matches Some(why) ==> entries_fault(e) == Some(
            EntryFault::Value(e[i].0@, why),
        ),
        control_reason(e[i].1@) is None && (e[i].0@.contains('\0') || e[i].1@.contains('\0'))
            ==> entries_fault(e) == Some(EntryFault::Nul),
    decreases e.len(),
{
    let p = e.drop_last();
    if i < p.len() {
        assert forall|j: int| 0 <= j < i implies entry_fault((#[trigger] p[j]).0@, p[j].1@)
            is None by {
            assert(p[j] == e[j]);
        }
        first_faulty_entry_decides(p, i);
    } else {
        lemma_no_entry_fault(p, e);
    }
}

proof fn lemma_no_entry_fault(p: Seq<(String, String)>, e: Seq<(String, String)>)
    requires
        p.len() <= e.len(),
        forall|j: int| 0 <= j < p.len() ==> p[j] == e[j],
        forall|j: int|
            0 <= j < p.len() ==> entry_fault((#[trigger] e[j]).0@, e[j].1@) is None,
    ensures
        entries_fault(p) is None,
    decreases p.len(),
{
    if p.len() > 0 {
        lemma_no_entry_fault(p.drop_last(), e);
        assert(entry_fault(e[p.len() - 1].0@, e[p.len() - 1].1@) is None);
    }
}

} // verus!
