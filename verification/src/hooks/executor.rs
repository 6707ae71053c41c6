//! Hook execution and the policy on its failures.

use crate::audit::{
    bare_event, with_number, with_text, AuditEvent, AuditLevel, EventModel, ValueModel,
};
use crate::collections::clone_strings;
use crate::hooks::result::{HookError, HookOutcome};
use crate::hooks::stage::HookStage;
use crate::hooks::validator::{HookConfig, OnFailure};
use crate::hooks::vars::HookVars;
use crate::time::Duration;
use vstd::prelude::*;

verus! {

/// One execution: the hook and how it ended.
pub ghost struct Execution {
    /// The hook.
    pub hook: HookConfig,
    /// Its values.
    pub vars: HookVars,
    /// How it ended.
    pub result: Result<HookOutcome, HookError>,
}

/// What runs hooks. Nothing is assumed of how a hook ends; only that each call is one more
/// execution.
pub trait HookExecutor {
    /// The executions so far, oldest first. An implementation says which they are.
    closed spec fn history(&self) -> Seq<Execution> {
        arbitrary()
    }

    /// Runs a hook to completion, or to its deadline. A non-zero exit code and a timeout are part
    /// of the outcome: [`apply_on_failure`] judges them.
    fn execute(&mut self, hook: &HookConfig, vars: &HookVars) -> (r: Result<HookOutcome, HookError>)
        ensures
            final(self).history() == old(self).history().push(
                Execution { hook: *hook, vars: *vars, result: r },
            ),
    ;
}

/// An executor that runs nothing: it notes each call and returns prepared outcomes in order, then
/// successes.
pub struct NoopExecutor {
    outcomes: Vec<Result<HookOutcome, HookError>>,
    calls: Vec<(HookStage, Vec<String>)>,
    past: Ghost<Seq<Execution>>,
}

/// A call as contracts speak of it.
pub open spec fn call_model(c: (HookStage, Vec<String>)) -> (HookStage, Seq<String>) {
    (c.0, c.1@)
}

/// The outcome of a hook that succeeded at once.
pub open spec fn is_default_outcome(hook: HookConfig, o: HookOutcome) -> bool {
    &&& o.stage == hook.stage
    &&& o.command@ == hook.command@
    &&& o.exit_code == 0
    &&& !o.killed_by_timeout
    &&& o.duration == Duration::of_secs(0)
    &&& o.timeout == hook.timeout
    &&& o.stdout_lines == 0
    &&& o.stderr_lines == 0
}

impl NoopExecutor {
    /// The outcomes that are still prepared.
    pub closed spec fn prepared(&self) -> Seq<Result<HookOutcome, HookError>> {
        self.outcomes@
    }

    /// The calls noted so far.
    pub closed spec fn noted(&self) -> Seq<(HookStage, Seq<String>)> {
        self.calls@.map_values(|c: (HookStage, Vec<String>)| call_model(c))
    }

    /// An executor with no outcomes prepared.
    pub fn new() -> (r: NoopExecutor)
        ensures
            r.prepared() == Seq::<Result<HookOutcome, HookError>>::empty(),
            r.noted() == Seq::<(HookStage, Seq<String>)>::empty(),
            r.history() == Seq::<Execution>::empty(),
    {
        let r = NoopExecutor { outcomes: Vec::new(), calls: Vec::new(), past: Ghost(Seq::empty()) };
        assert(r.noted() =~= Seq::<(HookStage, Seq<String>)>::empty());
        r
    }

    /// An executor that returns `outcome` for the next call.
    pub fn with_outcome(outcome: HookOutcome) -> (r: NoopExecutor)
        ensures
            r.prepared() == seq![Ok::<HookOutcome, HookError>(outcome)],
            r.noted() == Seq::<(HookStage, Seq<String>)>::empty(),
            r.history() == Seq::<Execution>::empty(),
    {
        let mut r = NoopExecutor::new();
        r.outcomes.push(Ok(outcome));
        assert(r.prepared() =~= seq![Ok::<HookOutcome, HookError>(outcome)]);
        r
    }

    /// An executor that returns the given outcomes in order.
    pub fn with_outcomes(outcomes: Vec<Result<HookOutcome, HookError>>) -> (r: NoopExecutor)
        ensures
            r.prepared() == outcomes@,
            r.noted() == Seq::<(HookStage, Seq<String>)>::empty(),
            r.history() == Seq::<Execution>::empty(),
    {
        let mut r = NoopExecutor::new();
        r.outcomes = outcomes;
        r
    }

    /// The calls noted so far, in order.
    pub fn calls(&self) -> (r: Vec<(HookStage, Vec<String>)>)
        ensures
            r@.map_values(|c: (HookStage, Vec<String>)| call_model(c)) == self.noted(),
    {
        let mut out: Vec<(HookStage, Vec<String>)> = Vec::new();
        let mut i: usize = 0;
        while i < self.calls.len()
            invariant
                i <= self.calls@.len(),
                out@.len() == i,
                forall|k: int|
                    0 <= k < i ==> call_model(#[trigger] out@[k]) == call_model(self.calls@[k]),
            decreases self.calls@.len() - i,
        {
            out.push((self.calls[i].0, clone_strings(&self.calls[i].1)));
            i = i + 1;
        }
        assert(out@.map_values(|c: (HookStage, Vec<String>)| call_model(c)) =~= self.noted());
        out
    }
}

impl Default for NoopExecutor {
    fn default() -> (r: NoopExecutor)
        ensures
            r.prepared() == Seq::<Result<HookOutcome, HookError>>::empty(),
            r.noted() == Seq::<(HookStage, Seq<String>)>::empty(),
            r.history() == Seq::<Execution>::empty(),
    {
        NoopExecutor::new()
    }
}

impl HookExecutor for NoopExecutor {
    closed spec fn history(&self) -> Seq<Execution> {
        self.past@
    }

    fn execute(&mut self, hook: &HookConfig, vars: &HookVars) -> (r: Result<HookOutcome, HookError>)
        ensures
            final(self).noted() == old(self).noted().push((hook.stage, hook.command@)),
            old(self).prepared().len() > 0 ==> r == old(self).prepared()[0]
                && final(self).prepared() == old(self).prepared().drop_first(),
            old(self).prepared().len() == 0 ==> final(self).prepared() == old(self).prepared() && (
            r matches Ok(o) && is_default_outcome(*hook, o)),
    {
        let ghost before = self.noted();
        self.calls.push((hook.stage, clone_strings(&hook.command)));
        assert(self.noted() =~= before.push((hook.stage, hook.command@)));
        let r = if self.outcomes.len() > 0 {
            self.outcomes.remove(0)
        } else {
            Ok(
                HookOutcome {
                    stage: hook.stage,
                    command: clone_strings(&hook.command),
                    exit_code: 0,
                    killed_by_timeout: false,
                    duration: Duration::from_secs(0),
                    timeout: hook.timeout,
                    stdout_lines: 0,
                    stderr_lines: 0,
                },
            )
        };
        proof {
            self.past@ = self.past@.push(Execution { hook: *hook, vars: *vars, result: r });
            if old(self).prepared().len() > 0 {
                assert(self.outcomes@ =~= old(self).prepared().drop_first());
            }
        }
        r
    }
}

/// The error that a policy makes of how a hook ended, if any:
///
/// | state                         | abort         | warn      | ignore |
/// |-------------------------------|---------------|-----------|--------|
/// | exit code zero                | none          | none      | none   |
/// | another exit code             | `NonZeroExit` | none      | none   |
/// | killed at its deadline        | `Timeout`     | `Timeout` | none   |
/// | could not be run              | that error    | none      | none   |
///
/// What is tolerated is still worth an event: see [`failure_event`].
pub open spec fn policy_error(
    outcome: Result<HookOutcome, HookError>,
    on_failure: OnFailure,
) -> Option<HookError> {
    match outcome {
        Ok(o) => if o.killed_by_timeout {
            if on_failure == OnFailure::Ignore {
                None
            } else {
                Some(HookError::Timeout { timeout_ms: capped_millis(o.timeout) })
            }
        } else if o.exit_code != 0 && on_failure == OnFailure::Abort {
            Some(HookError::NonZeroExit { exit_code: o.exit_code })
        } else {
            None
        },
        Err(e) => if on_failure == OnFailure::Abort {
            Some(e)
        } else {
            None
        },
    }
}

/// A span in milliseconds, at most what 64 bits hold.
pub open spec fn capped_millis(d: Duration) -> u64 {
    if d.millis() > u64::MAX {
        u64::MAX
    } else {
        d.millis() as u64
    }
}

/// A span in milliseconds, at most what 64 bits hold.
pub fn millis_u64(d: Duration) -> (r: u64)
    ensures
        r == capped_millis(d),
{
    let ms: u128 = d.as_millis();
    if ms > u64::MAX as u128 {
        u64::MAX
    } else {
        ms as u64
    }
}

/// Applies a failure policy to how a hook ended. A timeout is an error under `warn` too: the hook
/// did not choose its exit.
pub fn apply_on_failure(outcome: Result<HookOutcome, HookError>, on_failure: OnFailure) -> (r: Result<
    (),
    HookError,
>)
    ensures
        r == match policy_error(outcome, on_failure) {
            None => Ok::<(), HookError>(()),
            Some(e) => Err::<(), HookError>(e),
        },
{
    match outcome {
        Ok(o) => {
            if o.killed_by_timeout {
                if matches!(on_failure, OnFailure::Ignore) {
                    Ok(())
                } else {
                    Err(HookError::Timeout { timeout_ms: millis_u64(o.timeout) })
                }
            } else if o.exit_code != 0 && matches!(on_failure, OnFailure::Abort) {
                Err(HookError::NonZeroExit { exit_code: o.exit_code })
            } else {
                Ok(())
            }
        },
        Err(e) => match on_failure {
            OnFailure::Abort => Err(e),
            OnFailure::Warn => Ok(()),
            OnFailure::Ignore => Ok(()),
        },
    }
}

/// How loudly a tolerated failure is noted.
pub open spec fn failure_level(on_failure: OnFailure) -> AuditLevel {
    if on_failure == OnFailure::Warn {
        AuditLevel::Warn
    } else {
        AuditLevel::Debug
    }
}

/// The event of a hook that was killed at its deadline, where that is tolerated.
pub open spec fn timeout_ignored_event(o: HookOutcome) -> EventModel {
    with_text(
        with_number(
            with_text(
                bare_event("tessera.hook.timeout"@, AuditLevel::Debug, ""@),
                "stage"@,
                o.stage.name(),
            ),
            "duration_ms"@,
            o.duration.millis() as int,
        ),
        "message"@,
        "hook timeout suppressed by on_failure=ignore"@,
    )
}

/// The event of another exit code than zero, where that is tolerated.
pub open spec fn exit_tolerated_event(o: HookOutcome, on_failure: OnFailure) -> EventModel {
    with_text(
        with_number(
            with_text(
                bare_event("tessera.hook.failed"@, failure_level(on_failure), ""@),
                "stage"@,
                o.stage.name(),
            ),
            "exit_code"@,
            o.exit_code as int,
        ),
        "message"@,
        if on_failure == OnFailure::Warn {
            "hook exited non-zero (on_failure=warn)"@
        } else {
            "hook exited non-zero (on_failure=ignore)"@
        },
    )
}

/// The event of a hook that could not be run, where that is tolerated.
pub open spec fn error_tolerated_event(e: HookError, on_failure: OnFailure) -> EventModel {
    with_text(
        with_text(
            bare_event("tessera.hook.failed"@, failure_level(on_failure), ""@),
            "error"@,
            e.message_text(),
        ),
        "message"@,
        if on_failure == OnFailure::Warn {
            "hook executor error (on_failure=warn)"@
        } else {
            "hook executor error (on_failure=ignore)"@
        },
    )
}

/// Whether a hook ended as it should.
pub open spec fn went_well(outcome: Result<HookOutcome, HookError>) -> bool {
    outcome matches Ok(o) && !o.killed_by_timeout && o.exit_code == 0
}

/// The event of how a hook ended: there is one where it failed and its policy tolerates that.
pub open spec fn tolerated_event(
    outcome: Result<HookOutcome, HookError>,
    on_failure: OnFailure,
) -> Option<EventModel> {
    if went_well(outcome) || policy_error(outcome, on_failure) is Some {
        None
    } else {
        match outcome {
            Ok(o) => if o.killed_by_timeout {
                Some(timeout_ignored_event(o))
            } else {
                Some(exit_tolerated_event(o, on_failure))
            },
            Err(e) => Some(error_tolerated_event(e, on_failure)),
        }
    }
}

/// The event of how a hook ended, for a failure that its policy tolerates: a warning under `warn`,
/// a debug message under `ignore`.
pub fn failure_event(outcome: &Result<HookOutcome, HookError>, on_failure: OnFailure) -> (r: Option<
    AuditEvent,
>)
    ensures
        match r {
            Some(e) => tolerated_event(*outcome, on_failure) == Some(e@),
            None => tolerated_event(*outcome, on_failure) is None,
        },
{
    let level = match on_failure {
        OnFailure::Abort => {
            return None;
        },
        OnFailure::Warn => AuditLevel::Warn,
        OnFailure::Ignore => AuditLevel::Debug,
    };
    let warns = matches!(on_failure, OnFailure::Warn);
    match outcome {
        Ok(o) => {
            let stage = o.stage.as_str();
            if o.killed_by_timeout {
                if warns {
                    return None;
                }
                let e = AuditEvent::new("tessera.hook.timeout", AuditLevel::Debug, "");
                let ms: u128 = o.duration.as_millis();
                let e = e.text("stage", stage).integer("duration_ms", ms as i128);
                return Some(e.text("message", "hook timeout suppressed by on_failure=ignore"));
            }
            if o.exit_code == 0 {
                return None;
            }
            let e = AuditEvent::new("tessera.hook.failed", level, "");
            let e = e.text("stage", stage).number("exit_code", o.exit_code as i64);
            let message = if warns {
                "hook exited non-zero (on_failure=warn)"
            } else {
                "hook exited non-zero (on_failure=ignore)"
            };
            Some(e.text("message", message))
        },
        Err(why) => {
            let e = AuditEvent::new("tessera.hook.failed", level, "");
            let e = e.text("error", why.message().as_str());
            let message = if warns {
                "hook executor error (on_failure=warn)"
            } else {
                "hook executor error (on_failure=ignore)"
            };
            Some(e.text("message", message))
        },
    }
}

/// No failure of a hook goes unseen: it is an error to the caller, or it is worth an event, and
/// never both.
pub proof fn failures_are_seen(outcome: Result<HookOutcome, HookError>, on_failure: OnFailure)
    ensures
        went_well(outcome) ==> policy_error(outcome, on_failure) is None && tolerated_event(
            outcome,
            on_failure,
        ) is None,
        !went_well(outcome) ==> (policy_error(outcome, on_failure) is Some) != (tolerated_event(
            outcome,
            on_failure,
        ) is Some),
{
}

/// What counts as a failure of a hook, by its policy: a timeout always but under `ignore`, another
/// exit code than zero and an error only under `abort`; under `ignore` nothing does.
pub proof fn failures_count_by_policy(o: HookOutcome, e: HookError, on_failure: OnFailure)
    ensures
        policy_error(Ok(o), OnFailure::Ignore) is None,
        policy_error(Err(e), OnFailure::Ignore) is None,
        policy_error(Err(e), OnFailure::Warn) is None,
        policy_error(Err(e), OnFailure::Abort) == Some(e),
        o.exit_code == 0 && !o.killed_by_timeout ==> policy_error(Ok(o), on_failure) is None,
        o.exit_code != 0 && !o.killed_by_timeout ==> policy_error(Ok(o), OnFailure::Warn) is None
            && policy_error(Ok(o), OnFailure::Abort) == Some(
            HookError::NonZeroExit { exit_code: o.exit_code },
        ),
        o.killed_by_timeout && on_failure != OnFailure::Ignore ==> policy_error(Ok(o), on_failure)
            == Some(HookError::Timeout { timeout_ms: capped_millis(o.timeout) }),
{
}

/// A timeout is reported in whole milliseconds of what was configured.
pub proof fn timeouts_are_reported_in_milliseconds(secs: u64, nanos: u32)
    requires
        secs <= 120,
        nanos < 1_000_000_000,
    ensures
        capped_millis(Duration { secs, nanos }) == secs * 1000 + nanos / 1_000_000,
{
    let total = secs * 1_000_000_000 + nanos;
    assert(total / 1_000_000 == secs * 1000 + nanos / 1_000_000) by (nonlinear_arith)
        requires
            total == secs * 1_000_000_000 + nanos,
            0 <= secs,
            0 <= nanos,
    ;
}

/// What is noted of a tolerated failure: its stage and exit code or error, loudly under `warn` and
/// softly under `ignore`.
pub proof fn tolerated_failures_say_what_happened(
    o: HookOutcome,
    e: HookError,
    on_failure: OnFailure,
)
    requires
        on_failure != OnFailure::Abort,
    ensures
        o.exit_code != 0 && !o.killed_by_timeout ==> (tolerated_event(Ok(o), on_failure) matches Some(
            event,
        ) && event.fields[0] == ("stage"@, ValueModel::Text(o.stage.name())) && event.fields[1] == (
            "exit_code"@,
            ValueModel::Int(o.exit_code as int),
        ) && event.target == "tessera.hook.failed"@ && (event.level == AuditLevel::Warn)
            == (on_failure == OnFailure::Warn) && (event.level == AuditLevel::Debug) == (on_failure
            == OnFailure::Ignore)),
        tolerated_event(Err(e), on_failure) matches Some(event) && event.fields[0] == (
            "error"@,
            ValueModel::Text(e.message_text()),
        ) && event.target == "tessera.hook.failed"@ && (event.level == AuditLevel::Warn) == (
        on_failure == OnFailure::Warn) && (event.level == AuditLevel::Debug) == (on_failure
            == OnFailure::Ignore),
        o.killed_by_timeout && on_failure == OnFailure::Ignore ==> (tolerated_event(
            Ok(o),
            on_failure,
        ) matches Some(event) && event.target == "tessera.hook.timeout"@ && event.level
            == AuditLevel::Debug && event.fields[0] == ("stage"@, ValueModel::Text(o.stage.name()))
            && event.fields[1] == ("duration_ms"@, ValueModel::Int(o.duration.millis() as int))),
{
}

/// An execution that is only noted succeeds at once, without a line of output.
pub proof fn noted_hook_succeeds(hook: HookConfig, o: HookOutcome)
    requires
        is_default_outcome(hook, o),
    ensures
        o.exit_code == 0 && !o.killed_by_timeout,
        o.stage == hook.stage && o.command@ == hook.command@ && o.timeout == hook.timeout,
        o.duration.secs == 0 && o.duration.nanos == 0,
        o.stdout_lines == 0 && o.stderr_lines == 0,
{
}

} // verus!
