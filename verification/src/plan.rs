//! How an agent runs its steps one after the other: before each step the status its memo
//! reports, and when a step fails what it reports (the resources left behind and why) and that
//! it stops there.

use crate::provider::{ProviderError, Resources};
use crate::text::owned;
use vstd::prelude::*;

verus! {

/// One step of an agent's plan.
#[derive(Clone, Copy, Debug, PartialEq, Eq)]
pub struct PlannedStep<S> {
    /// What the step does.
    pub step: S,
    /// The status that the memo reports, sent to the controller before the step runs.
    pub status: Option<&'static str>,
    /// The resources left behind when the step fails.
    pub on_failure: Resources,
    /// Why the step failed, as the agent reports it; `None` where the agent reports the step's own
    /// error as it is.
    pub failure: Option<&'static str>,
    /// How long the step may wait, in seconds, when it waits for something.
    pub wait_secs: Option<u64>,
    /// Whether a failure of the step ends the run; the failure of a step that is not fatal is
    /// only reported, and the run goes on.
    pub fatal: bool,
}

/// How the step the agent ran came out: a success, a success after which nothing is left to do,
/// or a failure with the step's own error.
#[derive(Clone, Debug, PartialEq, Eq)]
pub enum StepOutcome {
    Succeeded,
    Finished,
    Failed(ProviderError),
}

/// What the agent does next.
#[derive(Clone, Debug, PartialEq, Eq)]
pub enum StepAction<S> {
    /// Send the status (when there is one), then run the step, waiting at most `wait_secs`.
    Run { step: S, status: Option<&'static str>, wait_secs: Option<u64> },
    /// Stop and report this error.
    Fail(ProviderError),
    /// Every step is done.
    Done,
}

/// Whether `a` is the action for the step at `index` of `plan`: running it, or being done when
/// there is none.
pub open spec fn runs_step<S>(a: StepAction<S>, plan: Seq<PlannedStep<S>>, index: int) -> bool {
    if 0 <= index < plan.len() {
        a == StepAction::Run {
            step: plan[index].step,
            status: plan[index].status,
            wait_secs: plan[index].wait_secs,
        }
    } else {
        a is Done
    }
}

/// Whether `r` is what follows the step at `index` of `plan` coming out as `outcome`: after a
/// success the next step (or the end), after a step that finished the work the end, after a
/// failure the step's error and the end of the plan, unless the step is not fatal: then its
/// failure is only reported and the next step follows.
pub open spec fn step_transition<S>(
    plan: Seq<PlannedStep<S>>,
    index: int,
    outcome: StepOutcome,
    r: (usize, StepAction<S>),
) -> bool {
    match outcome {
        StepOutcome::Succeeded => r.0 == index + 1 && runs_step(r.1, plan, index + 1),
        StepOutcome::Finished => r.0 == plan.len() && r.1 is Done,
        StepOutcome::Failed(own) => if !plan[index].fatal {
            r.0 == index + 1 && runs_step(r.1, plan, index + 1)
        } else {
            r.0 == plan.len() && (r.1 matches StepAction::Fail(e) && match plan[index].failure {
                Some(m) => e.resources == plan[index].on_failure && e.context@ == m@,
                None => e == own,
            })
        },
    }
}

/// The first action of an agent that runs `plan`.
pub fn first_action<S: Copy>(plan: &Vec<PlannedStep<S>>) -> (r: StepAction<S>)
    ensures
        runs_step(r, plan@, 0),
{
    if plan.len() > 0 {
        StepAction::Run { step: plan[0].step, status: plan[0].status, wait_secs: plan[0].wait_secs }
    } else {
        StepAction::Done
    }
}

/// The next position in `plan` and the next action, once the step at `index` came out as
/// `outcome`.
pub fn next_action<S: Copy>(plan: &Vec<PlannedStep<S>>, index: usize, outcome: StepOutcome) -> (r: (
    usize,
    StepAction<S>,
))
    requires
        index < plan@.len(),
    ensures
        step_transition(plan@, index as int, outcome, r),
{
    let n = plan.len();
    let outcome = match outcome {
        StepOutcome::Failed(e) => if plan[index].fatal {
            StepOutcome::Failed(e)
        } else {
            StepOutcome::Succeeded
        },
        o => o,
    };
    match outcome {
        StepOutcome::Failed(own) => match plan[index].failure {
            Some(m) => (
                n,
                StepAction::Fail(ProviderError::new_with_context(plan[index].on_failure, owned(m))),
            ),
            None => (n, StepAction::Fail(own)),
        },
        StepOutcome::Finished => (n, StepAction::Done),
        StepOutcome::Succeeded => {
            let next = index + 1;
            if next < plan.len() {
                (
                    next,
                    StepAction::Run {
                        step: plan[next].step,
                        status: plan[next].status,
                        wait_secs: plan[next].wait_secs,
                    },
                )
            } else {
                (next, StepAction::Done)
            }
        },
    }
}

/// A run of a plan ends after its last step or at the first failure of a fatal step, and reports
/// the failing step's resources (or its own error): from any position, a success moves one step
/// on, a step that finishes the work ends the run, a failure of a fatal step ends the run, and a
/// failure of another step moves one step on.
pub proof fn lemma_plan_runs_forward<S>(
    plan: Seq<PlannedStep<S>>,
    index: int,
    outcome: StepOutcome,
    r: (usize, StepAction<S>),
)
    requires
        0 <= index < plan.len(),
        step_transition(plan, index, outcome, r),
    ensures
        r.0 > index,
        r.0 <= plan.len(),
        r.1 is Done ==> r.0 == plan.len(),
        r.1 matches StepAction::Fail(e) ==> plan[index].fatal && (plan[index].failure is Some
            ==> e.resources == plan[index].on_failure),
        !plan[index].fatal && outcome is Failed ==> r.0 == index + 1,
{
}


/// The memo an agent holds once the steps of `steps` have run in order, from `memo`: `sent` gives
/// the memo after a step from the one before it and the `facts` the agent has learned.
pub open spec fn memo_after<S, M, F>(
    memo: M,
    steps: Seq<PlannedStep<S>>,
    facts: F,
    sent: spec_fn(M, PlannedStep<S>, F) -> M,
) -> M
    decreases steps.len(),
{
    if steps.len() == 0 {
        memo
    } else {
        sent(memo_after(memo, steps.drop_last(), facts, sent), steps.last(), facts)
    }
}

/// Running two runs of steps one after the other leaves the memo that running them as one does.
pub proof fn lemma_memo_after_append<S, M, F>(
    memo: M,
    a: Seq<PlannedStep<S>>,
    b: Seq<PlannedStep<S>>,
    facts: F,
    sent: spec_fn(M, PlannedStep<S>, F) -> M,
)
    ensures
        memo_after(memo, a + b, facts, sent) == memo_after(
            memo_after(memo, a, facts, sent),
            b,
            facts,
            sent,
        ),
    decreases b.len(),
{
    if b.len() == 0 {
        assert(a + b =~= a);
    } else {
        assert((a + b).drop_last() =~= a + b.drop_last());
        lemma_memo_after_append(memo, a, b.drop_last(), facts, sent);
    }
}

/// The memo after a single step is the memo that step sends.
pub proof fn lemma_memo_after_one<S, M, F>(
    memo: M,
    p: PlannedStep<S>,
    facts: F,
    sent: spec_fn(M, PlannedStep<S>, F) -> M,
)
    ensures
        memo_after(memo, seq![p], facts, sent) == sent(memo, p, facts),
{
    assert(seq![p].drop_last() =~= Seq::<PlannedStep<S>>::empty());
    assert(memo_after(memo, Seq::<PlannedStep<S>>::empty(), facts, sent) == memo);
    assert(seq![p].last() == p);
}

/// What every step keeps, the run of steps keeps: where `keep` holds of the memo and no step of
/// `steps` can break it, it holds of the memo after them.
pub proof fn lemma_memo_after_keeps<S, M, F>(
    memo: M,
    steps: Seq<PlannedStep<S>>,
    facts: F,
    sent: spec_fn(M, PlannedStep<S>, F) -> M,
    keep: spec_fn(M) -> bool,
)
    requires
        keep(memo),
        forall|m: M, i: int| 0 <= i < steps.len() && #[trigger] keep(m) ==> keep(
            sent(m, #[trigger] steps[i], facts),
        ),
    ensures
        keep(memo_after(memo, steps, facts, sent)),
    decreases steps.len(),
{
    if steps.len() > 0 {
        let rest = steps.drop_last();
        assert forall|m: M, i: int| 0 <= i < rest.len() && #[trigger] keep(m) implies keep(
            sent(m, #[trigger] rest[i], facts),
        ) by {
            assert(rest[i] == steps[i]);
        }
        lemma_memo_after_keeps(memo, rest, facts, sent, keep);
        assert(steps.last() == steps[steps.len() - 1]);
    }
}


/// Whether no step of `steps` is `s`.
pub open spec fn avoids<S>(steps: Seq<PlannedStep<S>>, s: S) -> bool
    decreases steps.len(),
{
    steps.len() == 0 || (steps.last().step != s && avoids(steps.drop_last(), s))
}

/// A run of steps that avoids `s` holds no step `s` anywhere.
pub proof fn lemma_avoids<S>(steps: Seq<PlannedStep<S>>, s: S)
    requires
        avoids(steps, s),
    ensures
        forall|i: int| 0 <= i < steps.len() ==> #[trigger] steps[i].step != s,
    decreases steps.len(),
{
    if steps.len() > 0 {
        lemma_avoids(steps.drop_last(), s);
        assert forall|i: int| 0 <= i < steps.len() implies #[trigger] steps[i].step != s by {
            if i < steps.len() - 1 {
                assert(steps[i] == steps.drop_last()[i]);
            }
        }
    }
}

} // verus!
