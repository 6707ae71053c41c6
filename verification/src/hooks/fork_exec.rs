//! What is decided about a hook before its process is forked, and made of it afterwards.

use crate::collections::clone_strings;

use crate::hooks::env::{build_env_vector, hook_env, user_value, written};
use crate::hooks::result::{HookError, HookOutcome};
use crate::hooks::rlimit::{cpu_seconds_for, default_caps_for_timeout, RlimitCaps};
use crate::hooks::user::UserInfo;
use crate::hooks::validator::{HookConfig, RunAs};
use crate::hooks::vars::HookVars;
use crate::hooks::wait::WaitOutcome;
use crate::text::{
    chars_of, has_char, is_absolute, is_absolute_path, lemma_split_nonempty, split, split_on, str_eq,
    string_of,
};
use crate::time::Duration;
use vstd::prelude::*;

verus! {

/// An executor that forks and runs the hook's program. It has no state.
#[derive(Debug, Clone, Copy, PartialEq, Eq, Structural)]
pub struct ForkExecExecutor;

impl ForkExecExecutor {
    /// An executor.
    pub fn new() -> (r: ForkExecExecutor)
        ensures
            r == ForkExecExecutor,
    {
        ForkExecExecutor
    }
}

impl Default for ForkExecExecutor {
    fn default() -> (r: ForkExecExecutor)
        ensures
            r == ForkExecExecutor,
    {
        ForkExecExecutor
    }
}

// --- the user ---------------------------------------------------------------

/// The user whose name must be looked up before a hook runs: the authenticating one, where the
/// hook is to run as that; none for root. The text is the refusal where no user is known.
pub open spec fn user_needed(hook: HookConfig, vars: HookVars) -> Result<Option<String>, Seq<char>> {
    match hook.run_as {
        RunAs::Root => Ok(None),
        RunAs::User => match vars.pam_user {
            Some(u) => Ok(Some(u)),
            None => Err("run_as=user but vars.pam_user is None"@),
        },
    }
}

/// The user whose name must be looked up before a hook runs.
pub fn user_to_look_up(hook: &HookConfig, vars: &HookVars) -> (r: Result<Option<String>, HookError>)
    ensures
        match r {
            Ok(u) => user_needed(*hook, *vars) == Ok::<Option<String>, Seq<char>>(u),
            Err(HookError::ChildSetup { message }) => user_needed(*hook, *vars) == Err::<
                Option<String>,
                Seq<char>,
            >(message@),
            Err(_) => false,
        },
{
    match hook.run_as {
        RunAs::Root => Ok(None),
        RunAs::User => match &vars.pam_user {
            Some(u) => Ok(Some(u.clone())),
            None => Err(
                HookError::ChildSetup {
                    message: "run_as=user but vars.pam_user is None".to_owned(),
                },
            ),
        },
    }
}

/// The supplementary groups of the child, in the order of the lookup; none for root.
pub fn build_groups_box(user_info: Option<&UserInfo>) -> (r: Vec<u32>)
    ensures
        r@ == match user_info {
            Some(u) => u.groups@,
            None => Seq::<u32>::empty(),
        },
{
    let mut out: Vec<u32> = Vec::new();
    if let Some(u) = user_info {
        let mut i: usize = 0;
        while i < u.groups.len()
            invariant
                i <= u.groups@.len(),
                out@ == u.groups@.take(i as int),
            decreases u.groups@.len() - i,
        {
            out.push(u.groups[i]);
            assert(u.groups@.take(i + 1) =~= u.groups@.take(i as int).push(u.groups@[i as int]));
            i = i + 1;
        }
        assert(u.groups@.take(u.groups@.len() as int) =~= u.groups@);
    }
    out
}

// --- the path of the program ------------------------------------------------

/// What was found of a file or a directory.
#[derive(Debug, Clone, Copy, PartialEq, Eq, Structural)]
pub struct FileMode {
    /// Permission bits.
    pub mode: u32,
    /// Owning group.
    pub gid: u32,
}

/// A path on the way to the program, with what was found there.
#[derive(Debug)]
pub struct PathComponent {
    /// The path.
    pub path: String,
    /// What was found; `None` where it could not be examined.
    pub found: Option<FileMode>,
}

/// Whether a local user could rewrite what lies there: others may write, or a group may that is
/// neither root's nor the process's own.
pub open spec fn writable_by_untrusted(m: FileMode, egid: u32) -> bool {
    m.mode & 0o002 != 0 || (m.mode & 0o020 != 0 && m.gid != 0 && m.gid != egid)
}

/// Whether a component must be refused.
pub open spec fn component_unsafe(c: PathComponent, egid: u32) -> bool {
    match c.found {
        None => true,
        Some(m) => writable_by_untrusted(m, egid),
    }
}

/// The first component that must be refused.
pub open spec fn first_unsafe(v: Seq<PathComponent>, egid: u32) -> Option<Seq<char>>
    decreases v.len(),
{
    if v.len() == 0 {
        None
    } else {
        match first_unsafe(v.drop_last(), egid) {
            Some(p) => Some(p),
            None => if component_unsafe(v.last(), egid) {
                Some(v.last().path@)
            } else {
                None
            },
        }
    }
}

proof fn lemma_first_unsafe(v: Seq<PathComponent>, i: int, egid: u32)
    requires
        0 <= i <= v.len(),
        first_unsafe(v.take(i), egid) is Some,
    ensures
        first_unsafe(v, egid) == first_unsafe(v.take(i), egid),
    decreases v.len(),
{
    if i == v.len() {
        assert(v.take(i) =~= v);
    } else {
        assert(v.drop_last().take(i) =~= v.take(i));
        lemma_first_unsafe(v.drop_last(), i, egid);
    }
}

fn check_components(v: &Vec<PathComponent>, egid: u32) -> (r: Result<(), HookError>)
    ensures
        match r {
            Ok(()) => first_unsafe(v@, egid) is None,
            Err(HookError::CommandUnusable { path }) => first_unsafe(v@, egid) == Some(path@),
            Err(_) => false,
        },
{
    let mut i: usize = 0;
    assert(v@.take(0) =~= Seq::<PathComponent>::empty());
    while i < v.len()
        invariant
            i <= v@.len(),
            first_unsafe(v@.take(i as int), egid) is None,
        decreases v@.len() - i,
    {
        proof {
            assert(v@.take(i + 1).drop_last() =~= v@.take(i as int));
            if first_unsafe(v@.take(i + 1), egid) is Some {
                lemma_first_unsafe(v@, i + 1, egid);
            }
        }
        let refused = match v[i].found {
            None => true,
            Some(m) => m.mode & 0o002 != 0 || (m.mode & 0o020 != 0 && m.gid != 0 && m.gid != egid),
        };
        if refused {
            return Err(HookError::CommandUnusable { path: v[i].path.clone() });
        }
        i = i + 1;
    }
    assert(v@.take(v@.len() as int) =~= v@);
    Ok(())
}

/// Why a program's path is refused: it is relative, it has no canonical form, or what lies on its
/// way could be rewritten by a local user. The path is that which is refused.
pub open spec fn exec_path_refusal(
    path: Seq<char>,
    components: Option<Vec<PathComponent>>,
    egid: u32,
) -> Option<Seq<char>> {
    if !is_absolute_path(path) {
        Some(path)
    } else {
        match components {
            None => Some(path),
            Some(v) => first_unsafe(v@, egid),
        }
    }
}

/// Refuses a program that a local user could rewrite before it runs with the process's
/// privileges. `components` is the canonical path and its ancestors, with what was found of each;
/// `None` where there is no canonical path.
pub fn check_exec_path_security(
    path: &str,
    components: &Option<Vec<PathComponent>>,
    egid: u32,
) -> (r: Result<(), HookError>)
    ensures
        match r {
            Ok(()) => exec_path_refusal(path@, *components, egid) is None,
            Err(HookError::CommandUnusable { path: p }) => exec_path_refusal(
                path@,
                *components,
                egid,
            ) == Some(p@),
            Err(_) => false,
        },
{
    if !is_absolute(path) {
        return Err(HookError::CommandUnusable { path: path.to_owned() });
    }
    match components {
        None => Err(HookError::CommandUnusable { path: path.to_owned() }),
        Some(v) => check_components(v, egid),
    }
}

/// The position of the last slash of an absolute path.
pub open spec fn last_slash(s: Seq<char>) -> int
    decreases s.len(),
{
    if s.len() == 0 {
        -1
    } else if s.last() == '/' {
        s.len() - 1
    } else {
        last_slash(s.drop_last())
    }
}

/// The directory that holds a canonical path; none for the root.
pub open spec fn parent_of(s: Seq<char>) -> Option<Seq<char>> {
    let at = last_slash(s);
    if s.len() <= 1 || at < 0 {
        None
    } else if at == 0 {
        Some(s.take(1))
    } else {
        Some(s.take(at))
    }
}

/// A canonical path and every directory above it, up to the root.
pub open spec fn ancestors(s: Seq<char>) -> Seq<Seq<char>>
    decreases s.len(),
    via ancestors_decreases
{
    match parent_of(s) {
        None => seq![s],
        Some(p) => seq![s] + ancestors(p),
    }
}

#[via_fn]
proof fn ancestors_decreases(s: Seq<char>) {
    lemma_last_slash(s);
}

proof fn lemma_last_slash(s: Seq<char>)
    ensures
        -1 <= last_slash(s) < s.len() || s.len() == 0,
        last_slash(s) >= 0 ==> s[last_slash(s)] == '/',
        forall|k: int| last_slash(s) < k < s.len() ==> s[k] != '/',
    decreases s.len(),
{
    if s.len() > 0 && s.last() != '/' {
        lemma_last_slash(s.drop_last());
        assert forall|k: int| last_slash(s) < k < s.len() implies s[k] != '/' by {
            if k < s.len() - 1 {
                assert(s.drop_last()[k] == s[k]);
            }
        }
    }
}

fn find_last_slash(chars: &Vec<char>, n: usize) -> (r: Option<usize>)
    requires
        n <= chars@.len(),
    ensures
        match r {
            Some(at) => last_slash(chars@.take(n as int)) == at,
            None => last_slash(chars@.take(n as int)) < 0,
        },
{
    let mut k: usize = n;
    while k > 0
        invariant
            k <= n <= chars@.len(),
            last_slash(chars@.take(n as int)) == last_slash(chars@.take(k as int)),
        decreases k,
    {
        if chars[k - 1] == '/' {
            return Some(k - 1);
        }
        assert(chars@.take(k as int).drop_last() =~= chars@.take(k - 1));
        k = k - 1;
    }
    None
}

/// A canonical path and every directory above it, up to the root: what must be examined before the
/// program may run.
pub fn paths_to_examine(canonical: &str) -> (r: Vec<String>)
    ensures
        crate::collections::texts(r@) == ancestors(canonical@),
{
    let chars = chars_of(canonical);
    let mut out: Vec<String> = Vec::new();
    let mut n: usize = chars.len();
    assert(chars@.take(n as int) =~= chars@);
    assert(crate::collections::texts(out@) + ancestors(chars@.take(n as int)) =~= ancestors(chars@));
    loop
        invariant
            n <= chars@.len(),
            chars@ == canonical@,
            crate::collections::texts(out@) + ancestors(chars@.take(n as int)) == ancestors(chars@),
        decreases n,
    {
        let ghost here = chars@.take(n as int);
        let ghost before = crate::collections::texts(out@);
        proof {
            lemma_last_slash(here);
        }
        let slash = find_last_slash(&chars, n);
        out.push(string_of(&chars, 0, n));
        assert(chars@.subrange(0, n as int) =~= here);
        assert(crate::collections::texts(out@) =~= before.push(here));
        match slash {
            None => {
                assert(parent_of(here) is None);
                assert(before + seq![here] =~= before.push(here));
                return out;
            },
            Some(at) => {
                if n <= 1 {
                    assert(before + seq![here] =~= before.push(here));
                    return out;
                }
                let next: usize = if at == 0 {
                    1
                } else {
                    at
                };
                proof {
                    assert(here.take(next as int) =~= chars@.take(next as int));
                    let rest = ancestors(chars@.take(next as int));
                    assert(before + (seq![here] + rest) =~= before.push(here) + rest);
                }
                n = next;
            },
        }
    }
}

/// The last component of an absolute path, where that is a name.
pub open spec fn named_segments(v: Seq<Seq<char>>) -> Seq<Seq<char>>
    decreases v.len(),
{
    if v.len() == 0 {
        Seq::empty()
    } else {
        let rest = named_segments(v.drop_last());
        if v.last().len() == 0 || v.last() == "."@ {
            rest
        } else {
            rest.push(v.last())
        }
    }
}

/// The name under which a program's output is logged: the last component of its path, or the
/// whole path where that is no name.
pub open spec fn log_name(path: Seq<char>) -> Seq<char> {
    let segments = named_segments(split_on(path, '/'));
    if segments.len() == 0 || segments.last() == ".."@ {
        path
    } else {
        segments.last()
    }
}

/// The name under which a program's output is logged.
pub fn basename(path: &str) -> (r: String)
    ensures
        r@ == log_name(path@),
{
    let segments = split(path, '/');
    let ghost all = split_on(path@, '/');
    let mut i: usize = segments.len();
    assert(all.take(i as int) =~= all);
    while i > 0
        invariant
            i <= segments@.len(),
            segments@.len() == all.len(),
            all == split_on(path@, '/'),
            forall|k: int| 0 <= k < segments@.len() ==> (#[trigger] segments@[k])@ == all[k],
            named_segments(all) == named_segments(all.take(i as int)),
        decreases i,
    {
        let s = &segments[i - 1];
        proof {
            assert(all.take(i as int).drop_last() =~= all.take(i - 1));
            assert(segments@[i - 1]@ == all[i - 1]);
        }
        if s.as_str().is_empty() || str_eq(s.as_str(), ".") {
            i = i - 1;
        } else {
            assert(named_segments(all).last() == all[i - 1]);
            if str_eq(s.as_str(), "..") {
                return path.to_owned();
            }
            return s.clone();
        }
    }
    assert(all.take(0) =~= Seq::<Seq<char>>::empty());
    path.to_owned()
}

// --- the plan ---------------------------------------------------------------

/// Everything that is fixed before the fork.
#[derive(Debug)]
pub struct HookPlan {
    /// The program and its arguments, none with a NUL.
    pub argv: Vec<String>,
    /// The environment, `KEY=VALUE`.
    pub env: Vec<String>,
    /// Supplementary groups.
    pub groups: Vec<u32>,
    /// Resource caps.
    pub caps: RlimitCaps,
    /// Name under which the output is logged.
    pub basename: String,
}

/// Whether some argument holds a NUL.
pub open spec fn any_nul(argv: Seq<String>) -> bool {
    exists|i: int| 0 <= i < argv.len() && (#[trigger] argv[i])@.contains('\0')
}

fn has_nul(argv: &Vec<String>) -> (r: bool)
    ensures
        r == any_nul(argv@),
{
    let mut i: usize = 0;
    while i < argv.len()
        invariant
            i <= argv@.len(),
            forall|k: int| 0 <= k < i ==> !(#[trigger] argv@[k])@.contains('\0'),
        decreases argv@.len() - i,
    {
        if has_char(argv[i].as_str(), '\0') {
            return true;
        }
        i = i + 1;
    }
    false
}

/// Whether a plan is that of a hook.
pub open spec fn is_plan(hook: HookConfig, user: Option<UserInfo>, p: HookPlan) -> bool {
    &&& p.argv@ == hook.command@
    &&& p.groups@ == match user {
        Some(u) => u.groups@,
        None => Seq::<u32>::empty(),
    }
    &&& p.caps.cpu_seconds == cpu_seconds_for(hook.timeout.secs)
    &&& p.caps.max_open_files == 256
    &&& p.caps.max_processes == 64
    &&& p.caps.max_file_size_bytes == 1024 * 1024
    &&& p.basename@ == log_name(hook.command@[0]@)
}

/// Fixes everything before the fork, or refuses the hook: first for its environment, then for the
/// lack of a command, then for the path of its program, then for its arguments.
pub fn plan_hook(
    hook: &HookConfig,
    vars: &HookVars,
    user: Option<&UserInfo>,
    components: &Option<Vec<PathComponent>>,
    egid: u32,
) -> (r: Result<HookPlan, HookError>)
    ensures
        exists|env: Result<Vec<String>, HookError>|
            #![trigger env_result(*hook, *vars, user_value(user), env)]
            env_result(*hook, *vars, user_value(user), env) && match env {
                Err(e) => r == Err::<HookPlan, HookError>(e),
                Ok(lines) => if hook.command@.len() == 0 {
                    r matches Err(HookError::CommandUnusable { path }) && path@ == Seq::<
                        char,
                    >::empty()
                } else if exec_path_refusal(hook.command@[0]@, *components, egid) is Some {
                    r matches Err(HookError::CommandUnusable { path }) && exec_path_refusal(
                        hook.command@[0]@,
                        *components,
                        egid,
                    ) == Some(path@)
                } else if any_nul(hook.command@) {
                    r matches Err(HookError::ChildSetup { message }) && message@
                        == "argv contains NUL byte"@
                } else {
                    r matches Ok(p) && is_plan(*hook, user_value(user), p) && p.env == lines
                },
            },
{
    let env = build_env_vector(hook, vars, user);
    let ghost found = env;
    assert(env_result(*hook, *vars, user_value(user), found));
    let env = match env {
        Ok(v) => v,
        Err(e) => {
            return Err(e);
        },
    };
    if hook.command.len() == 0 {
        return Err(HookError::CommandUnusable { path: String::new() });
    }
    match check_exec_path_security(hook.command[0].as_str(), components, egid) {
        Ok(()) => {},
        Err(e) => {
            return Err(e);
        },
    }
    if has_nul(&hook.command) {
        return Err(HookError::ChildSetup { message: "argv contains NUL byte".to_owned() });
    }
    let groups = build_groups_box(user);
    let caps = default_caps_for_timeout(hook.timeout);
    let basename = basename(hook.command[0].as_str());
    Ok(HookPlan { argv: clone_strings(&hook.command), env, groups, caps, basename })
}

/// Whether a result is what building the environment gives.
pub open spec fn env_result(
    hook: HookConfig,
    vars: HookVars,
    user: Option<UserInfo>,
    r: Result<Vec<String>, HookError>,
) -> bool {
    match hook_env(hook, vars, user) {
        Err(v) => r == Err::<Vec<String>, HookError>(HookError::UnresolvedVar { var: v }),
        Ok(env) => exists|e: Seq<(String, String)>|
            crate::collections::sorted(crate::collections::entry_keys(e))
                && crate::collections::entry_map(e) == env && #[trigger] written(e, r),
    }
}

/// The outcome of a hook whose process has ended.
pub fn hook_outcome(
    hook: &HookConfig,
    ended: WaitOutcome,
    duration: Duration,
    stdout_lines: u64,
    stderr_lines: u64,
) -> (r: HookOutcome)
    requires
        ended.status.code is None && ended.status.signal is Some ==> ended.status.signal->0
            <= i32::MAX - 128,
    ensures
        r.stage == hook.stage,
        r.command@ == hook.command@,
        r.exit_code == match (ended.status.code, ended.status.signal) {
            (Some(c), _) => c as int,
            (None, Some(s)) => 128 + s,
            (None, None) => -1,
        },
        r.killed_by_timeout == ended.killed_by_timeout,
        r.duration == duration,
        r.timeout == hook.timeout,
        r.stdout_lines == stdout_lines,
        r.stderr_lines == stderr_lines,
{
    HookOutcome {
        stage: hook.stage,
        command: clone_strings(&hook.command),
        exit_code: ended.status.conventional_code(),
        killed_by_timeout: ended.killed_by_timeout,
        duration,
        timeout: hook.timeout,
        stdout_lines,
        stderr_lines,
    }
}

/// What others may write is always refused, whoever owns it.
pub proof fn world_writable_is_refused(m: FileMode, egid: u32)
    requires
        m.mode & 0o002 != 0,
    ensures
        writable_by_untrusted(m, egid),
{
}

/// Where a path is accepted, nothing on its way may be written by an untrusted user.
pub proof fn accepted_path_is_trusted(v: Seq<PathComponent>, egid: u32, i: int)
    requires
        first_unsafe(v, egid) is None,
        0 <= i < v.len(),
    ensures
        v[i].found matches Some(m) && !writable_by_untrusted(m, egid),
    decreases v.len(),
{
    if i < v.len() - 1 {
        accepted_path_is_trusted(v.drop_last(), egid, i);
    }
}

/// Who may write a file or directory on the way to a program: anyone is always too many; a group is
/// trusted only where it is that of root or of this process; what its owner may do does not
/// matter.
pub proof fn writers_are_trusted_or_refused(m: FileMode, egid: u32)
    ensures
        (m.mode / 2) % 2 == 1 ==> writable_by_untrusted(m, egid),
        (m.mode / 2) % 2 == 0 && (m.mode / 16) % 2 == 0 ==> !writable_by_untrusted(m, egid),
        (m.mode / 2) % 2 == 0 && (m.mode / 16) % 2 == 1 ==> (writable_by_untrusted(m, egid) <==>
            m.gid != 0 && m.gid != egid),
{
    let mode = m.mode;
    assert((mode & 0o002 != 0) == ((mode / 2) % 2 == 1)) by (bit_vector);
    assert((mode & 0o020 != 0) == ((mode / 16) % 2 == 1)) by (bit_vector);
}

/// A program is run only by an absolute path that resolves, with every component on the way found
/// and safe; else it is refused by the first component at fault, or by its own path.
pub proof fn unsafe_component_refuses_the_program(
    path: Seq<char>,
    components: Option<Vec<PathComponent>>,
    egid: u32,
    i: int,
)
    ensures
        path.len() == 0 || path[0] != '/' ==> exec_path_refusal(path, components, egid) == Some(
            path,
        ),
        path.len() > 0 && path[0] == '/' && components is None ==> exec_path_refusal(
            path,
            components,
            egid,
        ) == Some(path),
        path.len() > 0 && path[0] == '/' && (components matches Some(v) && 0 <= i < v@.len() && (
        v@[i].found is None || writable_by_untrusted(v@[i].found->0, egid)) && forall|j: int|
            0 <= j < i ==> (#[trigger] v@[j]).found is Some && !writable_by_untrusted(
                v@[j].found->0,
                egid,
            )) ==> exec_path_refusal(path, components, egid) == Some(components->0@[i].path@),
        path.len() > 0 && path[0] == '/' && (components matches Some(v) && forall|j: int|
            0 <= j < v@.len() ==> (#[trigger] v@[j]).found is Some && !writable_by_untrusted(
                v@[j].found->0,
                egid,
            )) ==> exec_path_refusal(path, components, egid) is None,
{
    if let Some(w) = components {
        let v = w@;
        if 0 <= i < v.len() && (v[i].found is None || writable_by_untrusted(v[i].found->0, egid))
            && forall|j: int|
            0 <= j < i ==> (#[trigger] v[j]).found is Some && !writable_by_untrusted(
                v[j].found->0,
                egid,
            ) {
            lemma_unsafe_at(v, i, egid);
        }
        if forall|j: int|
            0 <= j < v.len() ==> (#[trigger] v[j]).found is Some && !writable_by_untrusted(
                v[j].found->0,
                egid,
            ) {
            lemma_all_safe(v, egid);
        }
    }
}

proof fn lemma_all_safe(v: Seq<PathComponent>, egid: u32)
    requires
        forall|j: int|
            0 <= j < v.len() ==> (#[trigger] v[j]).found is Some && !writable_by_untrusted(
                v[j].found->0,
                egid,
            ),
    ensures
        first_unsafe(v, egid) is None,
    decreases v.len(),
{
    if v.len() > 0 {
        let p = v.drop_last();
        assert forall|j: int| 0 <= j < p.len() implies (#[trigger] p[j]).found is Some
            && !writable_by_untrusted(p[j].found->0, egid) by {
            assert(p[j] == v[j]);
        }
        lemma_all_safe(p, egid);
        assert(v[v.len() - 1].found is Some);
    }
}

proof fn lemma_unsafe_at(v: Seq<PathComponent>, i: int, egid: u32)
    requires
        0 <= i < v.len(),
        v[i].found is None || writable_by_untrusted(v[i].found->0, egid),
        forall|j: int|
            0 <= j < i ==> (#[trigger] v[j]).found is Some && !writable_by_untrusted(
                v[j].found->0,
                egid,
            ),
    ensures
        first_unsafe(v, egid) == Some(v[i].path@),
    decreases v.len(),
{
    let p = v.drop_last();
    if i < p.len() {
        assert forall|j: int| 0 <= j < i implies (#[trigger] p[j]).found is Some
            && !writable_by_untrusted(p[j].found->0, egid) by {
            assert(p[j] == v[j]);
        }
        lemma_unsafe_at(p, i, egid);
    } else {
        assert forall|j: int| 0 <= j < p.len() implies (#[trigger] p[j]).found is Some
            && !writable_by_untrusted(p[j].found->0, egid) by {
            assert(p[j] == v[j]);
        }
        lemma_all_safe(p, egid);
    }
}

/// The components that are examined are the path itself, every directory above it, and the root.
pub proof fn every_directory_is_examined(s: Seq<char>, i: int)
    requires
        s.len() > 0,
        s[0] == '/',
        0 < i < s.len(),
        s[i] == '/',
    ensures
        ancestors(s)[0] == s,
        ancestors(s).contains(s.take(i)),
        ancestors(s).contains(seq!['/']),
    decreases s.len(),
{
    lemma_last_slash(s);
    let at = last_slash(s);
    assert(at >= i);
    assert(at > 0);
    let p = s.take(at);
    let all = ancestors(s);
    let above = ancestors(p);
    assert(all == seq![s] + above);
    if i == at {
        lemma_ancestors_first(p);
        assert(all[1] == p);
    } else {
        assert(p[i] == '/');
        every_directory_is_examined(p, i);
        let k = choose|k: int| 0 <= k < above.len() && above[k] == p.take(i);
        assert(p.take(i) =~= s.take(i));
        assert(all[k + 1] == s.take(i));
    }
    lemma_root_examined(p);
    let k = choose|k: int| 0 <= k < above.len() && above[k] == seq!['/'];
    assert(all[k + 1] == seq!['/']);
}

proof fn lemma_ancestors_first(s: Seq<char>)
    ensures
        ancestors(s).len() > 0,
        ancestors(s)[0] == s,
{
}

proof fn lemma_root_examined(s: Seq<char>)
    requires
        s.len() > 0,
        s[0] == '/',
    ensures
        ancestors(s).contains(seq!['/']),
    decreases s.len(),
{
    lemma_last_slash(s);
    let at = last_slash(s);
    assert(at >= 0);
    let all = ancestors(s);
    if s.len() == 1 {
        assert(s =~= seq!['/']);
        assert(all[0] == seq!['/']);
    } else if at == 0 {
        let p = s.take(1);
        assert(p =~= seq!['/']);
        lemma_ancestors_first(p);
        assert(all[1] == p);
    } else {
        let p = s.take(at);
        lemma_root_examined(p);
        let above = ancestors(p);
        let k = choose|k: int| 0 <= k < above.len() && above[k] == seq!['/'];
        assert(all[k + 1] == seq!['/']);
    }
}

/// A program is logged by the last name of its path.
pub proof fn programs_are_logged_by_their_name(dir: Seq<char>, name: Seq<char>)
    requires
        name.len() > 0,
        name != "."@,
        name != ".."@,
        !name.contains('/'),
    ensures
        log_name(dir + seq!['/'] + name) == name,
        log_name(name) == name,
{
    lemma_split_tail(dir.push('/'), name);
    assert(dir.push('/') + name =~= dir + seq!['/'] + name);
    let v = split_on(dir + seq!['/'] + name, '/');
    assert(dir.push('/').drop_last() =~= dir);
    lemma_split_nonempty(dir, '/');
    assert(split_on(dir.push('/'), '/').last() =~= Seq::<char>::empty());
    assert(v.last() =~= name);
    let empty = Seq::<char>::empty();
    lemma_split_tail(empty, name);
    assert(empty + name =~= name);
    assert(split_on(name, '/').last() =~= name);
    lemma_split_nonempty(dir + seq!['/'] + name, '/');
    lemma_split_nonempty(name, '/');
}

proof fn lemma_split_tail(head: Seq<char>, name: Seq<char>)
    requires
        !name.contains('/'),
    ensures
        split_on(head + name, '/').last() == split_on(head, '/').last() + name,
    decreases name.len(),
{
    lemma_split_nonempty(head, '/');
    if name.len() == 0 {
        assert(head + name =~= head);
        assert(split_on(head, '/').last() + name =~= split_on(head, '/').last());
    } else {
        let p = name.drop_last();
        assert forall|k: int| 0 <= k < p.len() implies p[k] != '/' by {
            assert(name[k] != '/');
        }
        assert(name[name.len() - 1] != '/');
        lemma_split_tail(head, p);
        lemma_split_nonempty(head + p, '/');
        assert((head + name).drop_last() =~= head + p);
        assert((head + name).last() == name.last());
        assert(split_on(head + name, '/').last() == split_on(head + p, '/').last().push(
            name.last(),
        ));
        assert((split_on(head, '/').last() + p).push(name.last()) =~= split_on(head, '/').last()
            + name);
    }
}

/// A hook runs as root unless it asks for the user, and then as the user of the session, without
/// whom it does not run.
pub proof fn hooks_run_as_root_or_the_session_user(hook: HookConfig, vars: HookVars)
    ensures
        hook.run_as == RunAs::Root ==> user_needed(hook, vars) == Ok::<Option<String>, Seq<char>>(
            None,
        ),
        hook.run_as == RunAs::User && vars.pam_user is Some ==> user_needed(hook, vars) == Ok::<
            Option<String>,
            Seq<char>,
        >(vars.pam_user),
        hook.run_as == RunAs::User && vars.pam_user is None ==> user_needed(hook, vars) is Err,
{
}

/// What a hook is run with: its command as configured, the groups of its user and no others, and
/// limits on what it may use.
pub proof fn plan_is_what_was_configured(hook: HookConfig, user: Option<UserInfo>, p: HookPlan)
    requires
        is_plan(hook, user, p),
    ensures
        p.argv@ == hook.command@,
        user is None ==> p.groups@.len() == 0,
        user matches Some(u) ==> p.groups@ == u.groups@,
        p.caps.cpu_seconds >= 2,
        1 <= hook.timeout.secs <= 120 ==> p.caps.cpu_seconds == 2 * hook.timeout.secs,
        p.caps.max_open_files == 256,
        p.caps.max_processes == 64,
        p.caps.max_file_size_bytes == 1048576,
{
}

/// The environment of a hook is written from the variables that it has, each once; a variable
/// without a value stops it.
pub proof fn environment_is_what_was_built(
    hook: HookConfig,
    vars: HookVars,
    user: Option<UserInfo>,
    r: Result<Vec<String>, HookError>,
) -> (e: Seq<(String, String)>)
    requires
        env_result(hook, vars, user, r),
    ensures
        hook_env(hook, vars, user) matches Err(v) ==> r == Err::<Vec<String>, HookError>(
            HookError::UnresolvedVar { var: v },
        ),
        hook_env(hook, vars, user) matches Ok(env) ==> crate::collections::entry_map(e) == env
            && written(e, r) && crate::collections::sorted(crate::collections::entry_keys(e)),
{
    match hook_env(hook, vars, user) {
        Ok(env) => choose|e: Seq<(String, String)>|
            crate::collections::sorted(crate::collections::entry_keys(e))
                && crate::collections::entry_map(e) == env && #[trigger] written(e, r),
        Err(_) => Seq::empty(),
    }
}

} // verus!
