//! Waiting for a hook, and ending it at its deadline.
//!
//! [`HookWait`] decides; its caller polls the child, sleeps, and signals the child's process
//! group. At the deadline the group is asked to terminate; two seconds later it is killed. Times
//! are nanoseconds of a monotonic clock.

use crate::hooks::result::HookError;
use crate::time::Duration;
use vstd::prelude::*;

verus! {

/// How a child was found.
#[derive(Debug, Clone, Copy, PartialEq, Eq, Structural)]
pub enum WaitStatus {
    /// It exited: process id and exit code.
    Exited(i32, i32),
    /// A signal ended it: process id, signal number, whether it dumped core.
    Signaled(i32, i32, bool),
    /// It still runs.
    StillAlive,
    /// Stopped, continued or traced.
    Other,
}

/// How a child ended.
#[derive(Debug, Clone, Copy, PartialEq, Eq, Structural)]
pub struct ExitStatus {
    /// Exit code, where it exited.
    pub code: Option<i32>,
    /// Signal number, where a signal ended it.
    pub signal: Option<i32>,
}

impl ExitStatus {
    /// The exit status in a wait status.
    pub open spec fn of(ws: WaitStatus) -> ExitStatus {
        match ws {
            WaitStatus::Exited(_, code) => ExitStatus { code: Some(code), signal: None },
            WaitStatus::Signaled(_, sig, _) => ExitStatus { code: None, signal: Some(sig) },
            _ => ExitStatus { code: None, signal: None },
        }
    }

    /// The exit status in a wait status.
    pub fn from_wait_status(ws: WaitStatus) -> (r: ExitStatus)
        ensures
            r == Self::of(ws),
    {
        match ws {
            WaitStatus::Exited(_, code) => ExitStatus { code: Some(code), signal: None },
            WaitStatus::Signaled(_, sig, _) => ExitStatus { code: None, signal: Some(sig) },
            WaitStatus::StillAlive => ExitStatus { code: None, signal: None },
            WaitStatus::Other => ExitStatus { code: None, signal: None },
        }
    }

    /// The exit code, or 128 plus the signal number; `-1` where there is neither.
    pub fn conventional_code(&self) -> (r: i32)
        requires
            self.code is None && self.signal is Some ==> self.signal->0 <= i32::MAX - 128,
        ensures
            r == match (self.code, self.signal) {
                (Some(c), _) => c as int,
                (None, Some(s)) => 128 + s,
                (None, None) => -1,
            },
    {
        match (self.code, self.signal) {
            (Some(c), _) => c,
            (None, Some(s)) => 128 + s,
            (None, None) => -1,
        }
    }
}

/// How waiting for a child ended.
#[derive(Debug, Clone, Copy, PartialEq, Eq, Structural)]
pub struct WaitOutcome {
    /// How the child ended.
    pub status: ExitStatus,
    /// Whether its deadline had expired.
    pub killed_by_timeout: bool,
    /// How long it ran.
    pub elapsed: Duration,
}

/// Pause between two polls, in milliseconds.
pub const POLL_INTERVAL_MS: u64 = 50;

/// Grace between the request to terminate and the kill, in nanoseconds: two seconds.
pub const TERM_GRACE_NANOS: u64 = 2_000_000_000;

/// How far the end of a child has been brought about.
#[derive(Debug, Clone, Copy, PartialEq, Eq, Structural)]
pub enum WaitPhase {
    /// It may run.
    Running,
    /// The request to terminate is being sent.
    TermPending,
    /// It has been asked to terminate; the time by which it must.
    Terminating(u64),
    /// The kill is being sent.
    KillPending,
    /// It was killed and is to be reaped.
    Reaping,
}

/// What polling a child gave.
#[derive(Debug)]
pub enum ChildReply {
    /// Its status.
    Status(WaitStatus),
    /// The call was interrupted.
    Interrupted,
    /// The call failed; the text of the error.
    Failed(String),
}

/// What signalling the group gave.
#[derive(Debug)]
pub enum SignalReply {
    /// It was delivered.
    Delivered,
    /// The group is gone.
    NoSuchGroup,
    /// The call failed; the text of the error.
    Failed(String),
}

/// What the caller is to do next.
#[derive(Debug)]
pub enum WaitAction {
    /// Sleep, then poll the child.
    SleepAndPoll(Duration),
    /// Poll the child.
    Poll,
    /// Ask the group to terminate.
    Terminate,
    /// Kill the group.
    Kill,
    /// Wait for the child without a limit.
    Reap,
    /// Nothing: the child ended.
    Done(WaitOutcome),
    /// Nothing: waiting failed.
    Fail(HookError),
}

/// Waiting for one child.
#[derive(Debug, Clone, Copy, PartialEq, Eq, Structural)]
pub struct HookWait {
    /// When the child was started.
    pub start: u64,
    /// When its time is up.
    pub deadline: u64,
    /// How far its end has been brought about.
    pub phase: WaitPhase,
}

/// A sum, at most what 64 bits hold.
pub open spec fn later(t: u64, by: u64) -> u64 {
    if t + by > u64::MAX {
        u64::MAX
    } else {
        (t + by) as u64
    }
}

fn add_time(t: u64, by: u64) -> (r: u64)
    ensures
        r == later(t, by),
{
    if t > u64::MAX - by {
        u64::MAX
    } else {
        t + by
    }
}

/// How long a child has run.
pub open spec fn run_time(start: u64, now: u64) -> Duration {
    Duration::of_nanos(if now >= start {
        (now - start) as u64
    } else {
        0
    })
}

/// Whether the deadline of a child has expired.
pub open spec fn past_deadline(p: WaitPhase) -> bool {
    p != WaitPhase::Running
}

/// The state and the action after a poll.
pub open spec fn after_poll(s: HookWait, reply: ChildReply, now: u64) -> (HookWait, WaitAction) {
    match reply {
        ChildReply::Interrupted => (s, if s.phase == WaitPhase::Reaping {
            WaitAction::Reap
        } else {
            WaitAction::Poll
        }),
        ChildReply::Failed(e) => (s, WaitAction::Fail(HookError::Wait(e))),
        ChildReply::Status(ws) => if ws == WaitStatus::StillAlive && s.phase != WaitPhase::Reaping {
            match s.phase {
                WaitPhase::Running => if now >= s.deadline {
                    (HookWait { phase: WaitPhase::TermPending, ..s }, WaitAction::Terminate)
                } else {
                    (s, WaitAction::SleepAndPoll(Duration::of_millis(POLL_INTERVAL_MS)))
                },
                WaitPhase::Terminating(by) => if now >= by {
                    (HookWait { phase: WaitPhase::KillPending, ..s }, WaitAction::Kill)
                } else {
                    (s, WaitAction::SleepAndPoll(Duration::of_millis(POLL_INTERVAL_MS)))
                },
                _ => (s, WaitAction::SleepAndPoll(Duration::of_millis(POLL_INTERVAL_MS))),
            }
        } else {
            (
                s,
                WaitAction::Done(
                    WaitOutcome {
                        status: ExitStatus::of(ws),
                        killed_by_timeout: past_deadline(s.phase),
                        elapsed: run_time(s.start, now),
                    },
                ),
            )
        },
    }
}

/// The state and the action after a signal was sent. That the group is gone is no failure.
pub open spec fn after_signal(s: HookWait, reply: SignalReply, now: u64) -> (HookWait, WaitAction) {
    match reply {
        SignalReply::Failed(e) => (s, WaitAction::Fail(HookError::Wait(e))),
        _ => match s.phase {
            WaitPhase::TermPending => (
                HookWait { phase: WaitPhase::Terminating(later(now, TERM_GRACE_NANOS)), ..s },
                WaitAction::Poll,
            ),
            WaitPhase::KillPending => (
                HookWait { phase: WaitPhase::Reaping, ..s },
                WaitAction::Reap,
            ),
            _ => (s, WaitAction::Poll),
        },
    }
}

impl HookWait {
    /// Starts waiting for a child that was started at `now`.
    pub fn new(now: u64, timeout: Duration) -> (r: HookWait)
        ensures
            r == (HookWait {
                start: now,
                deadline: later(now, timeout.capped_nanos()),
                phase: WaitPhase::Running,
            }),
    {
        HookWait {
            start: now,
            deadline: add_time(now, timeout.to_nanos()),
            phase: WaitPhase::Running,
        }
    }

    /// Takes in what a poll gave.
    pub fn on_poll(&mut self, reply: ChildReply, now: u64) -> (r: WaitAction)
        ensures
            (*final(self), r) == after_poll(*old(self), reply, now),
    {
        match reply {
            ChildReply::Interrupted => {
                if self.phase == WaitPhase::Reaping {
                    WaitAction::Reap
                } else {
                    WaitAction::Poll
                }
            },
            ChildReply::Failed(e) => WaitAction::Fail(HookError::Wait(e)),
            ChildReply::Status(ws) => {
                if ws == WaitStatus::StillAlive && self.phase != WaitPhase::Reaping {
                    match self.phase {
                        WaitPhase::Running => {
                            if now >= self.deadline {
                                self.phase = WaitPhase::TermPending;
                                return WaitAction::Terminate;
                            }
                        },
                        WaitPhase::Terminating(by) => {
                            if now >= by {
                                self.phase = WaitPhase::KillPending;
                                return WaitAction::Kill;
                            }
                        },
                        _ => {},
                    }
                    WaitAction::SleepAndPoll(Duration::from_millis(POLL_INTERVAL_MS))
                } else {
                    let elapsed: u64 = if now >= self.start {
                        now - self.start
                    } else {
                        0
                    };
                    WaitAction::Done(
                        WaitOutcome {
                            status: ExitStatus::from_wait_status(ws),
                            killed_by_timeout: self.phase != WaitPhase::Running,
                            elapsed: Duration::from_nanos(elapsed),
                        },
                    )
                }
            },
        }
    }

    /// Takes in what sending a signal gave.
    pub fn on_signal(&mut self, reply: SignalReply, now: u64) -> (r: WaitAction)
        ensures
            (*final(self), r) == after_signal(*old(self), reply, now),
    {
        match reply {
            SignalReply::Failed(e) => {
                return WaitAction::Fail(HookError::Wait(e));
            },
            SignalReply::Delivered => {},
            SignalReply::NoSuchGroup => {},
        }
        match self.phase {
            WaitPhase::TermPending => {
                self.phase = WaitPhase::Terminating(add_time(now, TERM_GRACE_NANOS));
                WaitAction::Poll
            },
            WaitPhase::KillPending => {
                self.phase = WaitPhase::Reaping;
                WaitAction::Reap
            },
            _ => WaitAction::Poll,
        }
    }
}

/// A child is asked to terminate only once its time is up, and only once.
pub proof fn terminate_waits_for_the_deadline(s: HookWait, reply: ChildReply, now: u64)
    ensures
        after_poll(s, reply, now).1 is Terminate ==> s.phase == WaitPhase::Running && now
            >= s.deadline && after_poll(s, reply, now).0.phase == WaitPhase::TermPending,
        s.phase != WaitPhase::Running ==> after_poll(s, reply, now).0.phase != WaitPhase::Running,
{
}

/// A child is killed only where it was asked to terminate at least two seconds earlier: `asked`
/// is when that request was delivered, `s` the state before it, `t` any later state that the
/// request's grace still governs.
pub proof fn kill_follows_the_grace(
    s: HookWait,
    signal: SignalReply,
    asked: u64,
    t: HookWait,
    reply: ChildReply,
    now: u64,
)
    requires
        s.phase == WaitPhase::TermPending,
        !(signal is Failed),
        t == after_signal(s, signal, asked).0,
    ensures
        after_poll(t, reply, now).1 is Kill ==> now >= later(asked, TERM_GRACE_NANOS),
{
}

/// A child that is killed has been asked to terminate.
pub proof fn kill_needs_terminate(s: HookWait, reply: ChildReply, now: u64)
    ensures
        after_poll(s, reply, now).1 is Kill ==> s.phase is Terminating,
{
}

/// Waiting ends well exactly when the child ended, and the outcome says whether its time was up.
pub proof fn outcome_tells_the_timeout(s: HookWait, ws: WaitStatus, now: u64)
    requires
        ws != WaitStatus::StillAlive,
    ensures
        after_poll(s, ChildReply::Status(ws), now).1 matches WaitAction::Done(o) && o.status
            == ExitStatus::of(ws) && o.killed_by_timeout == (s.phase != WaitPhase::Running),
{
}

/// A child that is still alive is left alone for fifty milliseconds at a time until its deadline,
/// then asked to terminate, and killed two seconds after that.
pub proof fn live_child_is_stopped_in_time(s: HookWait, now: u64, by: u64)
    ensures
        s.phase == WaitPhase::Running && now < s.deadline ==> after_poll(
            s,
            ChildReply::Status(WaitStatus::StillAlive),
            now,
        ) == (s, WaitAction::SleepAndPoll(Duration { secs: 0, nanos: 50_000_000 })),
        s.phase == WaitPhase::Running && now >= s.deadline ==> after_poll(
            s,
            ChildReply::Status(WaitStatus::StillAlive),
            now,
        ).1 is Terminate,
        s.phase == WaitPhase::Terminating(by) && now < by ==> after_poll(
            s,
            ChildReply::Status(WaitStatus::StillAlive),
            now,
        ) == (s, WaitAction::SleepAndPoll(Duration { secs: 0, nanos: 50_000_000 })),
        s.phase == WaitPhase::Terminating(by) && now >= by ==> after_poll(
            s,
            ChildReply::Status(WaitStatus::StillAlive),
            now,
        ).1 is Kill,
{
}

/// A signal that was delivered, or found no one, moves the waiting on; after the kill the child is
/// reaped, and only a failed signal is an error.
pub proof fn signals_move_the_waiting_on(s: HookWait, reply: SignalReply, now: u64)
    requires
        !(reply is Failed),
    ensures
        s.phase == WaitPhase::TermPending && now <= u64::MAX - 2_000_000_000 ==> after_signal(
            s,
            reply,
            now,
        ).0.phase == WaitPhase::Terminating((now + 2_000_000_000) as u64),
        s.phase == WaitPhase::KillPending ==> after_signal(s, reply, now).1 is Reap && after_signal(
            s,
            reply,
            now,
        ).0.phase == WaitPhase::Reaping,
        !(after_signal(s, reply, now).1 is Fail),
        after_signal(s, reply, now).0.start == s.start && after_signal(s, reply, now).0.deadline
            == s.deadline,
{
}

/// How a child ended is told as it was: its own code, or the signal that ended it, and how long it
/// ran.
pub proof fn end_is_told_as_it_was(s: HookWait, pid: i32, code: i32, core: bool, now: u64)
    ensures
        after_poll(s, ChildReply::Status(WaitStatus::Exited(pid, code)), now).1 matches WaitAction::Done(
            o,
        ) && o.status.code == Some(code) && o.status.signal is None && (now >= s.start
            ==> o.elapsed.total_nanos() == now - s.start),
        after_poll(s, ChildReply::Status(WaitStatus::Signaled(pid, code, core)), now).1 matches WaitAction::Done(
            o,
        ) && o.status.code is None && o.status.signal == Some(code) && (now >= s.start
            ==> o.elapsed.total_nanos() == now - s.start),
{
}

/// A wait that was interrupted is taken up again, and one that failed is an error.
pub proof fn interrupted_wait_goes_on(s: HookWait, why: String, now: u64)
    ensures
        after_poll(s, ChildReply::Interrupted, now).0 == s,
        after_poll(s, ChildReply::Interrupted, now).1 is Reap <==> s.phase == WaitPhase::Reaping,
        after_poll(s, ChildReply::Interrupted, now).1 is Poll <==> s.phase != WaitPhase::Reaping,
        after_poll(s, ChildReply::Failed(why), now).1 == WaitAction::Fail(HookError::Wait(why)),
{
}

/// A time is put off by as much as is asked for, as far as the clock goes.
pub proof fn deadlines_are_put_off(t: u64, by: u64)
    ensures
        t + by <= u64::MAX ==> later(t, by) == t + by,
        t + by > u64::MAX ==> later(t, by) == u64::MAX,
{
}

} // verus!
