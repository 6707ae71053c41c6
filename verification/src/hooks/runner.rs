//! Running the hooks of a stage, in the order in which they are configured.

use crate::audit::{AuditLog, EventModel};
use crate::config::validated::ValidatedConfig;
use crate::hooks::executor::{
    apply_on_failure, failure_event, policy_error, tolerated_event, Execution, HookExecutor,
};
use crate::hooks::result::{HookError, HookOutcome};
use crate::hooks::stage::HookStage;
use crate::hooks::validator::HookConfig;
use crate::hooks::vars::HookVars;
use vstd::prelude::*;

verus! {

/// The hooks of a stage, in the order of the configuration.
pub open spec fn stage_hooks(hooks: Seq<HookConfig>, stage: HookStage) -> Seq<HookConfig>
    decreases hooks.len(),
{
    if hooks.len() == 0 {
        Seq::empty()
    } else {
        let rest = stage_hooks(hooks.drop_last(), stage);
        if hooks.last().stage == stage {
            rest.push(hooks.last())
        } else {
            rest
        }
    }
}

/// Whether the policy of a hook tolerates how it ended.
pub open spec fn tolerated(e: Execution) -> bool {
    policy_error(e.result, e.hook.on_failure) is None
}

/// Whether `run` is a run of `hooks`: they are executed in order, with the same values, none
/// after the first that is not tolerated, and the result is the error of that one.
pub open spec fn is_run(
    hooks: Seq<HookConfig>,
    vars: HookVars,
    run: Seq<Execution>,
    r: Result<(), HookError>,
) -> bool {
    &&& run.len() <= hooks.len()
    &&& forall|i: int|
        0 <= i < run.len() ==> (#[trigger] run[i]).hook == hooks[i] && run[i].vars == vars
    &&& forall|i: int| 0 <= i < run.len() - 1 ==> tolerated(#[trigger] run[i])
    &&& match r {
        Ok(()) => run.len() == hooks.len() && (run.len() > 0 ==> tolerated(run.last())),
        Err(e) => run.len() > 0 && policy_error(run.last().result, run.last().hook.on_failure)
            == Some(e),
    }
}

/// The events of one execution: one where the hook failed and its policy tolerates that.
pub open spec fn execution_events(e: Execution) -> Seq<EventModel> {
    match tolerated_event(e.result, e.hook.on_failure) {
        Some(event) => seq![event],
        None => Seq::empty(),
    }
}

/// The events of a run, in the order of its executions.
pub open spec fn run_events(run: Seq<Execution>) -> Seq<EventModel>
    decreases run.len(),
{
    if run.len() == 0 {
        Seq::empty()
    } else {
        run_events(run.drop_last()) + execution_events(run.last())
    }
}

proof fn lemma_stage_hooks_prefix(hooks: Seq<HookConfig>, n: int, stage: HookStage)
    requires
        0 <= n <= hooks.len(),
    ensures
        stage_hooks(hooks.take(n), stage).len() <= stage_hooks(hooks, stage).len(),
        stage_hooks(hooks, stage).take(stage_hooks(hooks.take(n), stage).len() as int)
            == stage_hooks(hooks.take(n), stage),
    decreases hooks.len(),
{
    let a = stage_hooks(hooks.take(n), stage);
    if n == hooks.len() {
        assert(hooks.take(n) =~= hooks);
        assert(a.take(a.len() as int) =~= a);
    } else {
        assert(hooks.drop_last().take(n) =~= hooks.take(n));
        lemma_stage_hooks_prefix(hooks.drop_last(), n, stage);
        let b = stage_hooks(hooks.drop_last(), stage);
        let c = stage_hooks(hooks, stage);
        assert(c.take(a.len() as int) =~= b.take(a.len() as int));
    }
}

/// Runs every hook of a stage, in the order of the configuration, up to the first whose policy
/// turns its end into an error. The failures that are tolerated are recorded.
pub fn run_hooks_for_stage<E: HookExecutor>(
    cfg: &ValidatedConfig,
    stage: HookStage,
    executor: &mut E,
    vars: &HookVars,
    log: &mut AuditLog,
) -> (r: Result<(), HookError>)
    ensures
        exists|run: Seq<Execution>|
            final(executor).history() == old(executor).history() + run && #[trigger] is_run(
                stage_hooks(cfg.hooks@, stage),
                *vars,
                run,
                r,
            ) && final(log)@ == old(log)@ + run_events(run),
{
    run_hooks(&cfg.hooks, stage, executor, vars, log)
}

/// Runs every hook of a stage in a list of hooks.
pub fn run_hooks<E: HookExecutor>(
    hooks: &Vec<HookConfig>,
    stage: HookStage,
    executor: &mut E,
    vars: &HookVars,
    log: &mut AuditLog,
) -> (r: Result<(), HookError>)
    ensures
        exists|run: Seq<Execution>|
            final(executor).history() == old(executor).history() + run && #[trigger] is_run(
                stage_hooks(hooks@, stage),
                *vars,
                run,
                r,
            ) && final(log)@ == old(log)@ + run_events(run),
{
    let ghost before = log@;
    let ghost start = executor.history();
    let ghost all = stage_hooks(hooks@, stage);
    let ghost mut run: Seq<Execution> = Seq::empty();
    let mut i: usize = 0;
    proof {
        assert(hooks@.take(0) =~= Seq::<HookConfig>::empty());
        assert(start + run =~= start);
        assert(before + run_events(run) =~= before);
    }
    while i < hooks.len()
        invariant
            i <= hooks@.len(),
            all == stage_hooks(hooks@, stage),
            start == old(executor).history(),
            executor.history() == start + run,
            before == old(log)@,
            log@ == before + run_events(run),
            run.len() == stage_hooks(hooks@.take(i as int), stage).len(),
            forall|k: int|
                0 <= k < run.len() ==> (#[trigger] run[k]).hook == all[k] && run[k].vars == *vars
                    && tolerated(run[k]),
        decreases hooks@.len() - i,
    {
        let ghost here = stage_hooks(hooks@.take(i as int), stage);
        let ghost next = stage_hooks(hooks@.take(i + 1), stage);
        proof {
            assert(hooks@.take(i + 1).drop_last() =~= hooks@.take(i as int));
            lemma_stage_hooks_prefix(hooks@, i + 1, stage);
        }
        if hooks[i].stage == stage {
            proof {
                assert(next[here.len() as int] == hooks@[i as int]);
                assert(all.take(next.len() as int)[here.len() as int] == hooks@[i as int]);
            }
            let outcome = executor.execute(&hooks[i], vars);
            let ghost e = Execution { hook: hooks@[i as int], vars: *vars, result: outcome };
            let ghost grown = run.push(e);
            assert(executor.history() =~= start + grown);
            assert(grown.drop_last() =~= run);
            note_failure(&outcome, &hooks[i], log);
            assert(log@ =~= before + run_events(grown));
            match apply_on_failure(outcome, hooks[i].on_failure) {
                Ok(()) => {
                    proof {
                        run = grown;
                    }
                },
                Err(err) => {
                    assert(is_run(all, *vars, grown, Err::<(), HookError>(err)));
                    return Err(err);
                },
            }
        }
        i = i + 1;
    }
    assert(hooks@.take(hooks@.len() as int) =~= hooks@);
    assert(is_run(all, *vars, run, Ok::<(), HookError>(())));
    Ok(())
}

fn note_failure(outcome: &Result<HookOutcome, HookError>, hook: &HookConfig, log: &mut AuditLog)
    ensures
        match tolerated_event(*outcome, hook.on_failure) {
            Some(e) => final(log)@ == old(log)@.push(e),
            None => final(log)@ == old(log)@,
        },
{
    if let Some(e) = failure_event(outcome, hook.on_failure) {
        log.record(e);
    }
}

/// What a run of a stage does next, where hooks are executed elsewhere.
#[derive(Debug)]
pub enum StageStep {
    /// Execute the hook at this place of the list.
    Run(usize),
    /// Nothing: this is what the run came to.
    Done(Result<(), HookError>),
}

/// Whether a step is to run the first hook of the stage from a place on, or to end well where
/// there is none.
pub open spec fn is_stage_step(
    hooks: Seq<HookConfig>,
    stage: HookStage,
    from: int,
    step: StageStep,
) -> bool {
    match step {
        StageStep::Run(at) => from <= at < hooks.len() && hooks[at as int].stage == stage && forall|
            i: int,
        |
            from <= i < at ==> (#[trigger] hooks[i]).stage != stage,
        StageStep::Done(r) => r is Ok && forall|i: int|
            from <= i < hooks.len() ==> (#[trigger] hooks[i]).stage != stage,
    }
}

fn stage_step(hooks: &Vec<HookConfig>, stage: HookStage, from: usize) -> (r: StageStep)
    requires
        from <= hooks@.len(),
    ensures
        is_stage_step(hooks@, stage, from as int, r),
{
    let mut i: usize = from;
    while i < hooks.len()
        invariant
            from <= i <= hooks@.len(),
            forall|k: int| from <= k < i ==> (#[trigger] hooks@[k]).stage != stage,
        decreases hooks@.len() - i,
    {
        if hooks[i].stage == stage {
            return StageStep::Run(i);
        }
        i = i + 1;
    }
    StageStep::Done(Ok(()))
}

/// Begins a run of a stage: its first hook, if there is one.
pub fn begin_stage(hooks: &Vec<HookConfig>, stage: HookStage) -> (r: StageStep)
    ensures
        is_stage_step(hooks@, stage, 0, r),
{
    stage_step(hooks, stage, 0)
}

/// Goes on after the hook at a place ended: with the error that its policy makes of its end, else
/// with the next hook of the stage. A failure that is tolerated is recorded.
pub fn after_hook(
    hooks: &Vec<HookConfig>,
    stage: HookStage,
    at: usize,
    outcome: Result<HookOutcome, HookError>,
    log: &mut AuditLog,
) -> (r: StageStep)
    requires
        at < hooks@.len(),
    ensures
        match policy_error(outcome, hooks@[at as int].on_failure) {
            Some(e) => r == StageStep::Done(Err(e)),
            None => is_stage_step(hooks@, stage, at + 1, r),
        },
        match tolerated_event(outcome, hooks@[at as int].on_failure) {
            Some(e) => final(log)@ == old(log)@.push(e),
            None => final(log)@ == old(log)@,
        },
{
    let total: usize = hooks.len();
    assert(at < total);
    note_failure(&outcome, &hooks[at], log);
    match apply_on_failure(outcome, hooks[at].on_failure) {
        Err(e) => StageStep::Done(Err(e)),
        Ok(_) => stage_step(hooks, stage, at + 1),
    }
}

/// Number of hooks configured for a stage.
pub fn count_for_stage(cfg: &ValidatedConfig, stage: HookStage) -> (r: usize)
    ensures
        r == stage_hooks(cfg.hooks@, stage).len(),
{
    count_hooks(&cfg.hooks, stage)
}

/// Number of hooks of a stage in a list of hooks.
pub fn count_hooks(hooks: &Vec<HookConfig>, stage: HookStage) -> (r: usize)
    ensures
        r == stage_hooks(hooks@, stage).len(),
{
    let mut n: usize = 0;
    let mut i: usize = 0;
    assert(hooks@.take(0) =~= Seq::<HookConfig>::empty());
    while i < hooks.len()
        invariant
            i <= hooks@.len(),
            n <= i,
            n == stage_hooks(hooks@.take(i as int), stage).len(),
        decreases hooks@.len() - i,
    {
        assert(hooks@.take(i + 1).drop_last() =~= hooks@.take(i as int));
        if hooks[i].stage == stage {
            n = n + 1;
        }
        i = i + 1;
    }
    assert(hooks@.take(hooks@.len() as int) =~= hooks@);
    n
}

/// Only hooks of the stage are among the hooks of a stage.
pub proof fn stage_hooks_are_of_the_stage(hooks: Seq<HookConfig>, stage: HookStage)
    ensures
        forall|i: int|
            0 <= i < stage_hooks(hooks, stage).len() ==> (#[trigger] stage_hooks(hooks, stage)[i]).stage
                == stage && hooks.contains(stage_hooks(hooks, stage)[i]),
    decreases hooks.len(),
{
    if hooks.len() > 0 {
        let p = hooks.drop_last();
        stage_hooks_are_of_the_stage(p, stage);
        let a = stage_hooks(p, stage);
        let b = stage_hooks(hooks, stage);
        assert forall|i: int| 0 <= i < b.len() implies (#[trigger] b[i]).stage == stage
            && hooks.contains(b[i]) by {
            if i < a.len() {
                assert(b[i] == a[i]);
                let k = choose|k: int| 0 <= k < p.len() && p[k] == a[i];
                assert(hooks[k] == b[i]);
            } else {
                assert(hooks[hooks.len() - 1] == b[i]);
            }
        }
    }
}

/// The hooks of a stage are the configured ones, filtered by their stage: none is left out, and
/// their order is kept.
pub proof fn stage_hooks_are_filtered(hooks: Seq<HookConfig>, stage: HookStage)
    ensures
        stage_hooks(hooks, stage) == hooks.filter(|h: HookConfig| h.stage == stage),
    decreases hooks.len(),
{
    reveal(Seq::filter);
    if hooks.len() > 0 {
        stage_hooks_are_filtered(hooks.drop_last(), stage);
    }
}

/// A run that ends well has executed every hook, each with the given values and none that its
/// policy does not tolerate.
pub proof fn good_run_is_complete(
    hooks: Seq<HookConfig>,
    vars: HookVars,
    run: Seq<Execution>,
    i: int,
)
    requires
        is_run(hooks, vars, run, Ok(())),
        0 <= i < hooks.len(),
    ensures
        run.len() == hooks.len(),
        run[i].hook == hooks[i],
        run[i].vars == vars,
        policy_error(run[i].result, hooks[i].on_failure) is None,
{
    if i < run.len() - 1 {
        assert(tolerated(run[i]));
    }
}

/// A run that fails stops at the hook whose end is not tolerated: its error is the result, every
/// hook before it was executed and tolerated, and none after it.
pub proof fn failed_run_stops_at_its_error(
    hooks: Seq<HookConfig>,
    vars: HookVars,
    run: Seq<Execution>,
    e: HookError,
    i: int,
)
    requires
        is_run(hooks, vars, run, Err(e)),
        0 <= i < run.len(),
    ensures
        0 < run.len() <= hooks.len(),
        run[i].hook == hooks[i],
        run[i].vars == vars,
        i < run.len() - 1 ==> policy_error(run[i].result, run[i].hook.on_failure) is None,
        policy_error(run.last().result, hooks[run.len() - 1].on_failure) == Some(e),
{
    if i < run.len() - 1 {
        assert(tolerated(run[i]));
    }
    assert(run[run.len() - 1].hook == hooks[run.len() - 1]);
}

/// Every execution whose failure is tolerated leaves its event, in the order of the run.
pub proof fn each_execution_leaves_its_event(run: Seq<Execution>, e: Execution)
    ensures
        run_events(Seq::<Execution>::empty()).len() == 0,
        tolerated_event(e.result, e.hook.on_failure) matches Some(event) ==> run_events(run.push(e))
            == run_events(run).push(event),
        tolerated_event(e.result, e.hook.on_failure) is None ==> run_events(run.push(e))
            == run_events(run),
{
    assert(run.push(e).drop_last() =~= run);
    match tolerated_event(e.result, e.hook.on_failure) {
        Some(event) => {
            assert(run_events(run) + seq![event] =~= run_events(run).push(event));
        },
        None => {
            assert(run_events(run) + Seq::<EventModel>::empty() =~= run_events(run));
        },
    }
}

} // verus!
