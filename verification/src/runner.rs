//! The orchestrator: a strictly linear state machine over the plan. It hands
//! out one action at a time; the driver performs it and reports the outcome.
//! On success the run advances; on the first failure it stops for good,
//! remembering the failing stage and cause, and no later action — in
//! particular no cleanup — is ever handed out.

use vstd::prelude::*;
use crate::error::Error;
use crate::pipeline::{
    build_plan, spec_plan, stages_monotone, views_of_steps, Action, ActionModel, PlanStep,
    PlanStepModel, Stage,
};
use crate::target::{resolve, spec_resolve};

verus! {

/// What the driver reports back about one performed action.
#[derive(Clone, Copy, Debug, PartialEq, Eq, Structural)]
pub enum StepOutcome {
    /// The action succeeded.
    Success,
    /// The action failed, fatally, with this cause.
    Failure(Error),
}

/// Where a run stands.
#[derive(Clone, Copy, Debug, PartialEq, Eq, Structural)]
pub enum Status {
    /// More actions remain.
    Running,
    /// Every action of the plan succeeded.
    Done,
    /// An action failed: the stage it belonged to, and the cause. Terminal.
    Failed(Stage, Error),
}

/// The mathematical state of a run: the plan, the position of the next
/// action, and the status.
#[verifier::ext_equal]
pub struct RunnerModel {
    pub plan: Seq<PlanStepModel>,
    pub next: int,
    pub status: Status,
}

/// A well-formed run state: the position is inside the plan while the run
/// is live, and the plan walks the stages in order.
pub open spec fn runner_wf(m: RunnerModel) -> bool {
    &&& 0 <= m.next <= m.plan.len()
    &&& (m.status is Running ==> m.next < m.plan.len())
    &&& stages_monotone(m.plan)
}

/// A run that has not started yet.
pub open spec fn spec_start(plan: Seq<PlanStepModel>) -> RunnerModel {
    RunnerModel { plan, next: 0, status: Status::Running }
}

/// The action a run hands out: the one at its position, as long as it is
/// running; nothing once it is done or failed.
pub open spec fn spec_next_action(m: RunnerModel) -> Option<ActionModel> {
    if m.status is Running {
        Some(m.plan[m.next].action)
    } else {
        None
    }
}

/// How a run advances on one reported outcome: success moves to the next
/// action (or finishes the run after the last one); failure freezes the run
/// at the failing action, recording its stage and the cause.
pub open spec fn spec_step(m: RunnerModel, outcome: StepOutcome) -> RunnerModel
    recommends
        m.status is Running,
{
    match outcome {
        StepOutcome::Success => RunnerModel {
            plan: m.plan,
            next: m.next + 1,
            status: if m.next + 1 == m.plan.len() {
                Status::Done
            } else {
                Status::Running
            },
        },
        StepOutcome::Failure(e) => RunnerModel {
            plan: m.plan,
            next: m.next,
            status: Status::Failed(m.plan[m.next].stage, e),
        },
    }
}

/// The state after driving a run with a sequence of outcomes, one consumed
/// per handed-out action, stopping early when the run leaves the running
/// state.
pub open spec fn spec_run(m: RunnerModel, outcomes: Seq<StepOutcome>) -> RunnerModel
    decreases outcomes.len(),
{
    if m.status is Running && outcomes.len() > 0 {
        spec_run(spec_step(m, outcomes[0]), outcomes.subrange(1, outcomes.len() as int))
    } else {
        m
    }
}

/// How many actions such a drive hands out.
pub open spec fn spec_attempted(m: RunnerModel, outcomes: Seq<StepOutcome>) -> int
    decreases outcomes.len(),
{
    if m.status is Running && outcomes.len() > 0 {
        1 + spec_attempted(spec_step(m, outcomes[0]), outcomes.subrange(1, outcomes.len() as int))
    } else {
        0
    }
}

/// A run that is done or failed hands out nothing and never moves again,
/// whatever is reported to it.
pub proof fn lemma_stopped_run_is_final(m: RunnerModel, outcomes: Seq<StepOutcome>)
    requires
        !(m.status is Running),
    ensures
        spec_next_action(m) is None,
        spec_run(m, outcomes) == m,
        spec_attempted(m, outcomes) == 0,
{
}

proof fn lemma_run_first_failure(m: RunnerModel, outcomes: Seq<StepOutcome>, k: int)
    requires
        runner_wf(m),
        m.status is Running,
        0 <= k < outcomes.len(),
        m.next + k < m.plan.len(),
        outcomes[k] is Failure,
        forall|j: int| 0 <= j < k ==> outcomes[j] is Success,
    ensures
        spec_attempted(m, outcomes) == k + 1,
        spec_run(m, outcomes).plan == m.plan,
        spec_run(m, outcomes).next == m.next + k,
        outcomes[k] matches StepOutcome::Failure(e) && spec_run(m, outcomes).status
            == Status::Failed(m.plan[m.next + k].stage, e),
    decreases k,
{
    let rest = outcomes.subrange(1, outcomes.len() as int);
    if k == 0 {
        let after = spec_step(m, outcomes[0]);
        assert(!(after.status is Running));
        lemma_stopped_run_is_final(after, rest);
    } else {
        let after = spec_step(m, outcomes[0]);
        assert(after.status is Running);
        assert(rest[k - 1] == outcomes[k]);
        assert(forall|j: int| 0 <= j < k - 1 ==> rest[j] == outcomes[j + 1]);
        lemma_run_first_failure(after, rest, k - 1);
    }
}

/// The pipeline aborts on its first failure. Starting a plan from its
/// beginning and reporting the first failure at the plan's position `k`:
/// exactly the first `k + 1` actions are ever handed out, the run ends
/// failed with the stage and cause of position `k`, and — when the failing
/// stage is not the cleanup stage — no cleanup action was among the actions
/// handed out.
pub proof fn lemma_abort_on_first_failure(
    plan: Seq<PlanStepModel>,
    outcomes: Seq<StepOutcome>,
    k: int,
)
    requires
        stages_monotone(plan),
        0 <= k < plan.len(),
        k < outcomes.len(),
        outcomes[k] is Failure,
        forall|j: int| 0 <= j < k ==> outcomes[j] is Success,
    ensures
        spec_attempted(spec_start(plan), outcomes) == k + 1,
        spec_run(spec_start(plan), outcomes).next == k,
        outcomes[k] matches StepOutcome::Failure(e) && spec_run(spec_start(plan), outcomes).status
            == Status::Failed(plan[k].stage, e),
        !(plan[k].stage is Clean) ==> forall|i: int|
            0 <= i <= k ==> !((#[trigger] plan[i].stage) is Clean),
{
    let m = spec_start(plan);
    lemma_run_first_failure(m, outcomes, k);
    if !(plan[k].stage is Clean) {
        assert forall|i: int| 0 <= i <= k implies !((#[trigger] plan[i].stage) is Clean) by {
            assert(crate::pipeline::stage_index(plan[i].stage) <= crate::pipeline::stage_index(
                plan[k].stage,
            ));
        }
    }
}

/// A live run over the plan of one target.
#[derive(Debug)]
pub struct Runner {
    plan: Vec<PlanStep>,
    next: usize,
    status: Status,
}

impl View for Runner {
    type V = RunnerModel;

    closed spec fn view(&self) -> RunnerModel {
        RunnerModel {
            plan: views_of_steps(self.plan@),
            next: self.next as int,
            status: self.status,
        }
    }
}

impl Runner {
    /// Starts a run for an architecture token with an explicit parallelism
    /// hint. An unrecognized token is rejected here, before any action is
    /// handed out, so before any network or filesystem activity.
    pub fn new(token: &str, jobs: usize) -> (r: Result<Runner, Error>)
        ensures
            match r {
                Ok(runner) => {
                    &&& spec_resolve(token@) matches Some(t) && runner@ == spec_start(
                        spec_plan(t, jobs),
                    )
                    &&& runner_wf(runner@)
                },
                Err(e) => spec_resolve(token@) is None && e == Error::InputError,
            },
    {
        let t = match resolve(token) {
            Ok(t) => t,
            Err(e) => {
                return Err(e);
            },
        };
        let plan = build_plan(&t, jobs);
        let runner = Runner { plan, next: 0, status: Status::Running };
        proof {
            crate::pipeline::lemma_plan_stages_monotone(t@, jobs);
            assert(runner@ =~= spec_start(spec_plan(t@, jobs)));
        }
        Ok(runner)
    }

    /// Starts a run with the parallelism hint taken from the host: one
    /// worker per logical processor.
    pub fn for_host(token: &str) -> (r: Result<Runner, Error>)
        ensures
            match r {
                Ok(runner) => {
                    &&& spec_resolve(token@) matches Some(t) && exists|jobs: usize|
                        1 <= jobs && runner@ == spec_start(#[trigger] spec_plan(t, jobs))
                    &&& runner_wf(runner@)
                },
                Err(e) => spec_resolve(token@) is None && e == Error::InputError,
            },
    {
        let jobs = logical_cpus();
        Self::new(token, jobs)
    }

    /// Where the run stands.
    pub fn status(&self) -> (s: Status)
        ensures
            s == self@.status,
    {
        self.status
    }

    /// The next action to perform, while the run is live.
    pub fn next_action(&self) -> (r: Option<&Action>)
        requires
            runner_wf(self@),
        ensures
            match r {
                Some(a) => spec_next_action(self@) == Some(a@),
                None => spec_next_action(self@) is None,
            },
    {
        match self.status {
            Status::Running => Some(&self.plan[self.next].action),
            _ => None,
        }
    }

    /// Takes the driver's report on the action last handed out and advances
    /// or aborts accordingly.
    pub fn step(&mut self, outcome: StepOutcome)
        requires
            runner_wf(old(self)@),
            old(self)@.status is Running,
        ensures
            final(self)@ == spec_step(old(self)@, outcome),
            runner_wf(final(self)@),
    {
        match outcome {
            StepOutcome::Success => {
                let len = self.plan.len();
                proof {
                    assert(views_of_steps(self.plan@).len() == self.plan@.len());
                    assert(self.next < len);
                }
                self.next += 1;
                if self.next == len {
                    self.status = Status::Done;
                }
                proof {
                    assert(self@ =~= spec_step(old(self)@, outcome));
                }
            },
            StepOutcome::Failure(e) => {
                let stage = self.plan[self.next].stage;
                self.status = Status::Failed(stage, e);
                proof {
                    assert(self@ =~= spec_step(old(self)@, outcome));
                }
            },
        }
    }
}

/// Relies on num_cpus::get: the number of logical processors available to
/// this process, documented to always be at least one.
#[verifier::external_body]
fn logical_cpus() -> (n: usize)
    ensures
        1 <= n,
{
    num_cpus::get()
}

} // verus!
