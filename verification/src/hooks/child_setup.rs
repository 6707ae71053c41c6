//! What a hook's child does between its fork and its program.
//!
//! The list of steps is made before the fork, because the child may not allocate. Each step is one
//! system call; the child goes through them in order and gives up at the first fatal failure.

use crate::hooks::rlimit::RlimitCaps;
use crate::hooks::user::UserInfo;
use vstd::prelude::*;

verus! {

/// One step of the child.
#[derive(Debug, Clone, Copy, PartialEq, Eq, Structural)]
pub enum ChildStep {
    /// Become the leader of a process group, so that the group can be signalled.
    SetProcessGroup,
    /// Detach from the terminal.
    DetachSession,
    /// Open the null device.
    OpenNull,
    /// Make the null device the standard input.
    BindNullStdin,
    /// Close the null device.
    CloseNull,
    /// Make a descriptor the standard output.
    BindStdout(i32),
    /// Make a descriptor the standard error.
    BindStderr(i32),
    /// Close a descriptor.
    CloseFd(i32),
    /// Close every descriptor from this one on.
    CloseFrom(i32),
    /// Apply the resource caps.
    ApplyCaps(RlimitCaps),
    /// Set the file mode mask.
    Umask(u32),
    /// Give up gaining privileges.
    NoNewPrivs,
    /// Set the supplementary groups, even to none.
    SetGroups,
    /// Set the group.
    SetGid(u32),
    /// Set the user.
    SetUid(u32),
    /// Run the program.
    Exec,
}

/// One step, or none.
pub open spec fn step_if(cond: bool, s: ChildStep) -> Seq<ChildStep> {
    if cond {
        seq![s]
    } else {
        Seq::empty()
    }
}

/// The steps that bind the three standard streams and close every other descriptor.
pub open spec fn stream_steps(stdout_fd: i32, stderr_fd: i32) -> Seq<ChildStep> {
    seq![
        ChildStep::SetProcessGroup,
        ChildStep::DetachSession,
        ChildStep::OpenNull,
        ChildStep::BindNullStdin,
        ChildStep::CloseNull,
        ChildStep::BindStdout(stdout_fd),
        ChildStep::BindStderr(stderr_fd),
    ] + step_if(stdout_fd > 2, ChildStep::CloseFd(stdout_fd)) + step_if(
        stderr_fd > 2 && stderr_fd != stdout_fd,
        ChildStep::CloseFd(stderr_fd),
    ) + seq![ChildStep::CloseFrom(3)]
}

/// The steps that limit the child: caps, mask, no new privileges.
pub open spec fn limit_steps(caps: RlimitCaps) -> Seq<ChildStep> {
    seq![ChildStep::ApplyCaps(caps), ChildStep::Umask(0o077), ChildStep::NoNewPrivs]
}

/// The steps that drop privileges: groups, then group, then user. None for root.
pub open spec fn drop_steps(run_as: Option<UserInfo>) -> Seq<ChildStep> {
    match run_as {
        Some(u) => seq![ChildStep::SetGroups, ChildStep::SetGid(u.gid), ChildStep::SetUid(u.uid)],
        None => Seq::empty(),
    }
}

/// All steps of the child, in order.
pub open spec fn child_plan(
    run_as: Option<UserInfo>,
    caps: RlimitCaps,
    stdout_fd: i32,
    stderr_fd: i32,
) -> Seq<ChildStep> {
    stream_steps(stdout_fd, stderr_fd) + limit_steps(caps) + drop_steps(run_as) + seq![
        ChildStep::Exec,
    ]
}

/// All steps of the child, in order.
pub fn child_steps(
    run_as: Option<&UserInfo>,
    caps: RlimitCaps,
    stdout_fd: i32,
    stderr_fd: i32,
) -> (r: Vec<ChildStep>)
    ensures
        r@ == child_plan(crate::hooks::env::user_value(run_as), caps, stdout_fd, stderr_fd),
{
    let mut v: Vec<ChildStep> = Vec::new();
    v.push(ChildStep::SetProcessGroup);
    v.push(ChildStep::DetachSession);
    v.push(ChildStep::OpenNull);
    v.push(ChildStep::BindNullStdin);
    v.push(ChildStep::CloseNull);
    v.push(ChildStep::BindStdout(stdout_fd));
    v.push(ChildStep::BindStderr(stderr_fd));
    if stdout_fd > 2 {
        v.push(ChildStep::CloseFd(stdout_fd));
    }
    if stderr_fd > 2 && stderr_fd != stdout_fd {
        v.push(ChildStep::CloseFd(stderr_fd));
    }
    v.push(ChildStep::CloseFrom(3));
    assert(v@ =~= stream_steps(stdout_fd, stderr_fd));
    v.push(ChildStep::ApplyCaps(caps));
    v.push(ChildStep::Umask(0o077));
    v.push(ChildStep::NoNewPrivs);
    assert(v@ =~= stream_steps(stdout_fd, stderr_fd) + limit_steps(caps));
    if let Some(u) = run_as {
        v.push(ChildStep::SetGroups);
        v.push(ChildStep::SetGid(u.gid));
        v.push(ChildStep::SetUid(u.uid));
    }
    v.push(ChildStep::Exec);
    assert(v@ =~= child_plan(crate::hooks::env::user_value(run_as), caps, stdout_fd, stderr_fd));
    v
}

/// What the child writes when a step fails; `None` where a failure is of no consequence.
pub open spec fn step_failure(s: ChildStep) -> Option<Seq<char>> {
    match s {
        ChildStep::SetProcessGroup => Some("hook child: setpgid failed\n"@),
        ChildStep::DetachSession => None,
        ChildStep::OpenNull => Some("hook child: open(/dev/null) failed\n"@),
        ChildStep::BindNullStdin => Some("hook child: dup2(devnull, 0) failed\n"@),
        ChildStep::CloseNull => None,
        ChildStep::BindStdout(_) => Some("hook child: dup2(stdout, 1) failed\n"@),
        ChildStep::BindStderr(_) => Some("hook child: dup2(stderr, 2) failed\n"@),
        ChildStep::CloseFd(_) => None,
        ChildStep::CloseFrom(_) => None,
        ChildStep::ApplyCaps(_) => Some("hook child: setrlimit failed\n"@),
        ChildStep::Umask(_) => None,
        ChildStep::NoNewPrivs => Some("hook child: prctl(NO_NEW_PRIVS) failed\n"@),
        ChildStep::SetGroups => Some("hook child: setgroups failed\n"@),
        ChildStep::SetGid(_) => Some("hook child: setgid failed\n"@),
        ChildStep::SetUid(_) => Some("hook child: setuid failed\n"@),
        ChildStep::Exec => Some("hook child: execve failed\n"@),
    }
}

/// What the child writes when a step fails, before it exits.
pub fn failure_message(s: ChildStep) -> (r: Option<&'static str>)
    ensures
        match r {
            Some(m) => step_failure(s) == Some(m@),
            None => step_failure(s) is None,
        },
{
    match s {
        ChildStep::SetProcessGroup => Some("hook child: setpgid failed\n"),
        ChildStep::DetachSession => None,
        ChildStep::OpenNull => Some("hook child: open(/dev/null) failed\n"),
        ChildStep::BindNullStdin => Some("hook child: dup2(devnull, 0) failed\n"),
        ChildStep::CloseNull => None,
        ChildStep::BindStdout(_) => Some("hook child: dup2(stdout, 1) failed\n"),
        ChildStep::BindStderr(_) => Some("hook child: dup2(stderr, 2) failed\n"),
        ChildStep::CloseFd(_) => None,
        ChildStep::CloseFrom(_) => None,
        ChildStep::ApplyCaps(_) => Some("hook child: setrlimit failed\n"),
        ChildStep::Umask(_) => None,
        ChildStep::NoNewPrivs => Some("hook child: prctl(NO_NEW_PRIVS) failed\n"),
        ChildStep::SetGroups => Some("hook child: setgroups failed\n"),
        ChildStep::SetGid(_) => Some("hook child: setgid failed\n"),
        ChildStep::SetUid(_) => Some("hook child: setuid failed\n"),
        ChildStep::Exec => Some("hook child: execve failed\n"),
    }
}

/// Most descriptors closed one by one.
pub const CLOSE_LOOP_CAP: u64 = 65536;

/// The first descriptor that is not closed, where they are closed one by one: the limit on open
/// files, at most [`CLOSE_LOOP_CAP`]; 1024 where the limit is unknown.
pub fn close_loop_bound(open_files_limit: Option<u64>) -> (r: i32)
    ensures
        r == match open_files_limit {
            Some(n) => if n < CLOSE_LOOP_CAP {
                n as int
            } else {
                CLOSE_LOOP_CAP as int
            },
            None => 1024,
        },
{
    match open_files_limit {
        Some(n) => if n < CLOSE_LOOP_CAP {
            n as i32
        } else {
            65536
        },
        None => 1024,
    }
}

/// Whether the groups, the group and the user are set one after the other, from place `i` on.
pub open spec fn drops_at(plan: Seq<ChildStep>, i: int, u: UserInfo) -> bool {
    &&& 0 <= i && i + 2 < plan.len()
    &&& plan[i] == ChildStep::SetGroups
    &&& plan[i + 1] == ChildStep::SetGid(u.gid)
    &&& plan[i + 2] == ChildStep::SetUid(u.uid)
}

/// A child that runs as a user drops its groups, its group and its user in that order, right
/// before it runs its program, and it runs the program only then.
pub proof fn privileges_are_dropped_before_the_program(
    u: UserInfo,
    caps: RlimitCaps,
    stdout_fd: i32,
    stderr_fd: i32,
    i: int,
)
    requires
        0 <= i < child_plan(Some(u), caps, stdout_fd, stderr_fd).len(),
    ensures
        child_plan(Some(u), caps, stdout_fd, stderr_fd)[i] == ChildStep::Exec <==> i == child_plan(
            Some(u),
            caps,
            stdout_fd,
            stderr_fd,
        ).len() - 1,
        drops_at(
            child_plan(Some(u), caps, stdout_fd, stderr_fd),
            child_plan(Some(u), caps, stdout_fd, stderr_fd).len() - 4,
            u,
        ),
{
    let plan = child_plan(Some(u), caps, stdout_fd, stderr_fd);
    let a = stream_steps(stdout_fd, stderr_fd);
    let b = limit_steps(caps);
    let c = drop_steps(Some(u));
    assert(plan.len() == a.len() + 7);
    assert(plan[a.len() as int + 3] == c[0]);
    assert(plan[a.len() as int + 4] == c[1]);
    assert(plan[a.len() as int + 5] == c[2]);
    if i < a.len() {
        assert(plan[i] == a[i]);
        let p = step_if(stdout_fd > 2, ChildStep::CloseFd(stdout_fd));
        let q = step_if(
            stderr_fd > 2 && stderr_fd != stdout_fd,
            ChildStep::CloseFd(stderr_fd),
        );
        assert(a[i] != ChildStep::Exec);
    } else if i < a.len() + 3 {
        assert(plan[i] == b[i - a.len()]);
    }
}

/// What a child does, step by step: its own group and session, its three streams, every other
/// descriptor closed, then the limits, a mask that leaves nothing to others and no new privileges,
/// then the user, and last the program.
pub proof fn child_goes_step_by_step(
    run_as: Option<UserInfo>,
    caps: RlimitCaps,
    stdout_fd: i32,
    stderr_fd: i32,
)
    ensures
        ({
            let plan = child_plan(run_as, caps, stdout_fd, stderr_fd);
            let drops: int = if run_as is Some { 3 } else { 0 };
            let closes: int = (if stdout_fd > 2 { 1int } else { 0 }) + (if stderr_fd > 2 && stderr_fd
                != stdout_fd { 1int } else { 0 });
            let limits = 8 + closes;
            &&& plan.len() == limits + 3 + drops + 1
            &&& plan[0] == ChildStep::SetProcessGroup
            &&& plan[1] == ChildStep::DetachSession
            &&& plan[2] == ChildStep::OpenNull
            &&& plan[3] == ChildStep::BindNullStdin
            &&& plan[4] == ChildStep::CloseNull
            &&& plan[5] == ChildStep::BindStdout(stdout_fd)
            &&& plan[6] == ChildStep::BindStderr(stderr_fd)
            &&& stdout_fd > 2 ==> plan[7] == ChildStep::CloseFd(stdout_fd)
            &&& stderr_fd > 2 && stderr_fd != stdout_fd ==> plan[limits - 2] == ChildStep::CloseFd(
                stderr_fd,
            )
            &&& plan[limits - 1] == ChildStep::CloseFrom(3)
            &&& plan[limits] == ChildStep::ApplyCaps(caps)
            &&& plan[limits + 1] == ChildStep::Umask(0o077)
            &&& plan[limits + 2] == ChildStep::NoNewPrivs
            &&& run_as matches Some(u) ==> plan[limits + 3] == ChildStep::SetGroups && plan[limits
                + 4] == ChildStep::SetGid(u.gid) && plan[limits + 5] == ChildStep::SetUid(u.uid)
            &&& plan.last() == ChildStep::Exec
        }),
{
}

/// Without a user nothing of the user is changed.
pub proof fn root_stays_root(caps: RlimitCaps, stdout_fd: i32, stderr_fd: i32, i: int)
    requires
        0 <= i < child_plan(None, caps, stdout_fd, stderr_fd).len(),
    ensures
        !(child_plan(None, caps, stdout_fd, stderr_fd)[i] is SetUid),
        !(child_plan(None, caps, stdout_fd, stderr_fd)[i] is SetGid),
        !(child_plan(None, caps, stdout_fd, stderr_fd)[i] is SetGroups),
{
}

/// A step that guards the program must not fail: only what is best effort may.
pub proof fn guarding_steps_are_fatal(s: ChildStep)
    ensures
        step_failure(s) is None <==> s is DetachSession || s is CloseNull || s is CloseFd || s
            is CloseFrom || s is Umask,
{
}

} // verus!
