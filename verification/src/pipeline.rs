//! The step pipeline: ordered execution with rollback on failure.
//!
//! A pipeline owns an ordered list of steps and a cursor. Steps that
//! decline to run are skipped; executed steps advance the cursor; the
//! first failure or cancellation halts the run, and rollback is owed to
//! exactly the steps that executed before the halt, in strictly descending
//! index order, so that later side effects are undone first. Performing a
//! step's real work is the caller's part; the caller reports each step's
//! outcome and the pipeline decides everything else.

use vstd::pervasive::VecAdditionalExecFns;
use vstd::prelude::*;

use crate::error::InstallerError;

verus! {

/// The overall state of an installation attempt.
#[derive(Debug, Clone, Copy, PartialEq, Eq, Structural)]
pub enum InstallState {
    /// Installation not started.
    NotStarted,
    /// Checking system requirements.
    CheckingRequirements,
    /// Downloading files.
    Downloading,
    /// Installing components.
    Installing,
    /// Verifying the installation.
    Verifying,
    /// Installation completed successfully.
    Completed,
    /// Installation failed.
    Failed,
    /// Installation cancelled by the user.
    Cancelled,
}

impl InstallState {
    /// Whether the installation is in progress.
    pub fn is_in_progress(&self) -> (r: bool)
        ensures
            r == (*self == InstallState::CheckingRequirements || *self == InstallState::Downloading
                || *self == InstallState::Installing || *self == InstallState::Verifying),
    {
        match self {
            InstallState::CheckingRequirements => true,
            InstallState::Downloading => true,
            InstallState::Installing => true,
            InstallState::Verifying => true,
            _ => false,
        }
    }

    /// Whether the installation is finished, by success, failure, or
    /// cancellation.
    pub fn is_finished(&self) -> (r: bool)
        ensures
            r == (*self == InstallState::Completed || *self == InstallState::Failed || *self
                == InstallState::Cancelled),
    {
        match self {
            InstallState::Completed => true,
            InstallState::Failed => true,
            InstallState::Cancelled => true,
            _ => false,
        }
    }
}

/// The execution status of one step.
#[derive(Debug, Clone, PartialEq, Eq)]
pub enum StepStatus {
    /// Not reached yet, or skipped.
    Pending,
    /// Currently executing.
    InProgress,
    /// Executed successfully.
    Completed,
    /// Execution failed; carries the error's kind name.
    Failed(String),
}

/// One step's display entry: its name and its status.
#[derive(Debug, Clone)]
pub struct StepInfo {
    /// The step's display name.
    pub name: String,
    /// The step's current status.
    pub status: StepStatus,
}

impl StepInfo {
    /// Creates a pending entry for a named step.
    pub fn new(name: String) -> (r: StepInfo)
        ensures
            r.name == name,
            r.status is Pending,
    {
        StepInfo { name, status: StepStatus::Pending }
    }
}

/// What happened when the caller ran one step.
#[derive(Debug, Clone, PartialEq, Eq)]
pub enum StepOutcome {
    /// The step declined to run; nothing was executed.
    Skipped,
    /// The step executed and succeeded.
    Succeeded,
    /// The step executed and failed.
    Failed(InstallerError),
    /// The user cancelled before or during the step.
    Cancelled,
}

/// The pipeline's lifecycle: it starts once, runs, and ends in exactly one
/// of three terminal states.
#[derive(Debug, Clone, Copy, PartialEq, Eq, Structural)]
pub enum PipelineState {
    /// Not started.
    NotStarted,
    /// Between start and a terminal state.
    Running,
    /// Every step was skipped or succeeded.
    Completed,
    /// A step failed; the pipeline carries its error.
    Failed,
    /// The user cancelled the run.
    Cancelled,
}

/// The indices in `outcomes` before `k` that executed successfully, in
/// ascending order.
pub open spec fn succeeded_before(outcomes: Seq<StepOutcome>, k: int) -> Seq<usize>
    decreases k,
{
    if k <= 0 {
        Seq::empty()
    } else {
        let rest = succeeded_before(outcomes, k - 1);
        if outcomes[k - 1] is Succeeded {
            rest.push((k - 1) as usize)
        } else {
            rest
        }
    }
}

/// The run halts at `k`: the step there failed or was cancelled, and no
/// earlier step did.
pub open spec fn halts_at(outcomes: Seq<StepOutcome>, k: int) -> bool {
    &&& 0 <= k < outcomes.len()
    &&& (outcomes[k] is Failed || outcomes[k] is Cancelled)
    &&& forall|j: int| 0 <= j < k ==> !(outcomes[j] is Failed || outcomes[j] is Cancelled)
}

/// An ordered sequence of installation steps with a cursor, the record of
/// which steps executed, and the terminal state of the attempt.
#[derive(Debug, Clone)]
pub struct StepPipeline {
    /// The steps, in execution order.
    pub steps: Vec<StepInfo>,
    /// The next step to run; advances monotonically.
    pub cursor: usize,
    /// Indices of the steps that executed successfully, in ascending order.
    pub executed: Vec<usize>,
    /// Lifecycle state.
    pub state: PipelineState,
    /// The index of the failed step, once one failed.
    pub failed_step: Option<usize>,
    /// The first failure's error; never replaced by rollback failures.
    pub error: Option<InstallerError>,
    /// Rollback failures collected as secondary diagnostics.
    pub rollback_failures: Vec<InstallerError>,
}

impl StepPipeline {
    /// Structural invariant: the cursor stays within bounds, the executed
    /// record is a strictly increasing list of already-passed indices, and a
    /// failed pipeline carries its error.
    pub open spec fn wf(&self) -> bool {
        &&& self.cursor <= self.steps@.len()
        &&& forall|i: int| 0 <= i < self.executed@.len() ==> self.executed@[i] < self.cursor
        &&& forall|i: int, j: int|
            0 <= i < j < self.executed@.len() ==> self.executed@[i] < self.executed@[j]
        &&& (self.state is NotStarted ==> self.cursor == 0 && self.executed@.len() == 0)
        &&& (self.state is Completed ==> self.cursor == self.steps@.len())
        &&& (self.state is Failed ==> self.failed_step is Some && self.error is Some)
    }

    /// Creates a pipeline over the named steps, none of them run yet.
    pub fn new(names: Vec<String>) -> (r: StepPipeline)
        ensures
            r.wf(),
            r.steps@.len() == names@.len(),
            forall|i: int|
                0 <= i < names@.len() ==> r.steps@[i].name == names@[i] && r.steps@[i].status
                    is Pending,
            r.state is NotStarted,
            r.cursor == 0,
            r.executed@.len() == 0,
            r.error is None,
            r.rollback_failures@.len() == 0,
    {
        let mut steps: Vec<StepInfo> = Vec::new();
        let mut i: usize = 0;
        while i < names.len()
            invariant
                0 <= i <= names@.len(),
                steps@.len() == i,
                forall|j: int|
                    0 <= j < i ==> steps@[j].name == names@[j] && steps@[j].status is Pending,
            decreases names@.len() - i,
        {
            steps.push(StepInfo::new(names[i].clone()));
            i += 1;
        }
        StepPipeline {
            steps,
            cursor: 0,
            executed: Vec::new(),
            state: PipelineState::NotStarted,
            failed_step: None,
            error: None,
            rollback_failures: Vec::new(),
        }
    }

    /// The index the cursor stands at.
    pub fn current_step(&self) -> (r: usize)
        ensures
            r == self.cursor,
    {
        self.cursor
    }

    /// The number of steps.
    pub fn total_steps(&self) -> (r: usize)
        ensures
            r == self.steps@.len(),
    {
        self.steps.len()
    }

    /// Whether every step has been passed.
    pub fn is_complete(&self) -> (r: bool)
        ensures
            r == (self.cursor >= self.steps@.len()),
    {
        self.cursor >= self.steps.len()
    }

    /// The steps, for display.
    pub fn steps(&self) -> (r: &Vec<StepInfo>)
        ensures
            r == self.steps,
    {
        &self.steps
    }

    /// Starts the run: an empty pipeline completes at once, any other
    /// becomes running with its first step in progress.
    pub fn start(&mut self)
        requires
            old(self).wf(),
            old(self).state is NotStarted,
        ensures
            final(self).wf(),
            final(self).steps@.len() == old(self).steps@.len(),
            final(self).cursor == 0,
            final(self).executed@ == old(self).executed@,
            final(self).error == old(self).error,
            final(self).state == if old(self).steps@.len() == 0 {
                PipelineState::Completed
            } else {
                PipelineState::Running
            },
            forall|i: int|
                0 <= i < final(self).steps@.len() ==> final(self).steps@[i].name == old(self).steps@[i].name,
            forall|i: int|
                1 <= i < final(self).steps@.len() ==> final(self).steps@[i].status == old(self).steps@[i].status,
            final(self).steps@.len() > 0 ==> final(self).steps@[0].status is InProgress,
    {
        if self.steps.len() == 0 {
            self.state = PipelineState::Completed;
        } else {
            self.state = PipelineState::Running;
            let name = self.steps[0].name.clone();
            self.steps.set(0, StepInfo { name, status: StepStatus::InProgress });
        }
    }

    /// Passes over the current step without running it: the step declined,
    /// so it stays pending and no failure is recorded.
    pub fn skip_current(&mut self)
        requires
            old(self).wf(),
            old(self).state is Running,
            old(self).cursor < old(self).steps@.len(),
        ensures
            final(self).wf(),
            final(self).steps@.len() == old(self).steps@.len(),
            final(self).cursor == old(self).cursor + 1,
            final(self).executed@ == old(self).executed@,
            final(self).error == old(self).error,
            final(self).state == if old(self).cursor + 1 == old(self).steps@.len() {
                PipelineState::Completed
            } else {
                PipelineState::Running
            },
            forall|i: int|
                0 <= i < final(self).steps@.len() ==> final(self).steps@[i].name == old(self).steps@[i].name,
            forall|i: int|
                0 <= i < final(self).steps@.len() && i != old(self).cursor ==> final(self).steps@[i].status == old(self).steps@[i].status,
            final(self).steps@[old(self).cursor as int].status is Pending,
    {
        let n = self.steps.len();
        let c = self.cursor;
        let name = self.steps[c].name.clone();
        self.steps.set(c, StepInfo { name, status: StepStatus::Pending });
        self.cursor = c + 1;
        if self.cursor == n {
            self.state = PipelineState::Completed;
        }
    }

    /// Records that the current step executed and succeeded, and advances.
    pub fn complete_current(&mut self)
        requires
            old(self).wf(),
            old(self).state is Running,
            old(self).cursor < old(self).steps@.len(),
        ensures
            final(self).wf(),
            final(self).steps@.len() == old(self).steps@.len(),
            final(self).cursor == old(self).cursor + 1,
            final(self).executed@ == old(self).executed@.push(old(self).cursor),
            final(self).error == old(self).error,
            final(self).state == if old(self).cursor + 1 == old(self).steps@.len() {
                PipelineState::Completed
            } else {
                PipelineState::Running
            },
            forall|i: int|
                0 <= i < final(self).steps@.len() ==> final(self).steps@[i].name == old(self).steps@[i].name,
            forall|i: int|
                0 <= i < final(self).steps@.len() && i != old(self).cursor ==> final(self).steps@[i].status == old(self).steps@[i].status,
            final(self).steps@[old(self).cursor as int].status is Completed,
    {
        let n = self.steps.len();
        let c = self.cursor;
        let name = self.steps[c].name.clone();
        self.steps.set(c, StepInfo { name, status: StepStatus::Completed });
        self.executed.push(c);
        self.cursor = c + 1;
        if self.cursor == n {
            self.state = PipelineState::Completed;
        }
    }

    /// Records that the current step failed: the pipeline halts in `Failed`,
    /// carrying this step's index and error; the executed record is kept for
    /// the rollback sweep.
    pub fn fail_current(&mut self, error: InstallerError)
        requires
            old(self).wf(),
            old(self).state is Running,
            old(self).cursor < old(self).steps@.len(),
        ensures
            final(self).wf(),
            final(self).steps@.len() == old(self).steps@.len(),
            final(self).cursor == old(self).cursor,
            final(self).executed@ == old(self).executed@,
            final(self).state is Failed,
            final(self).failed_step == Some(old(self).cursor),
            final(self).error == Some(error),
            forall|i: int|
                0 <= i < final(self).steps@.len() ==> final(self).steps@[i].name == old(self).steps@[i].name,
            forall|i: int|
                0 <= i < final(self).steps@.len() && i != old(self).cursor ==> final(self).steps@[i].status == old(self).steps@[i].status,
            final(self).steps@[old(self).cursor as int].status is Failed,
    {
        let c = self.cursor;
        let name = self.steps[c].name.clone();
        let kind = error.kind_name();
        self.steps.set(c, StepInfo { name, status: StepStatus::Failed(kind) });
        self.failed_step = Some(c);
        self.error = Some(error);
        self.state = PipelineState::Failed;
    }

    /// Records a user cancellation: the pipeline halts in `Cancelled`; the
    /// executed record is kept for the same rollback sweep as a failure.
    pub fn cancel(&mut self)
        requires
            old(self).wf(),
            old(self).state is Running,
        ensures
            final(self).wf(),
            final(self).state is Cancelled,
            final(self).steps@ == old(self).steps@,
            final(self).cursor == old(self).cursor,
            final(self).executed@ == old(self).executed@,
            final(self).error == old(self).error,
    {
        self.state = PipelineState::Cancelled;
    }

    /// Records that rolling back one step failed. The original error is
    /// never replaced; rollback failures are secondary diagnostics.
    pub fn note_rollback_failure(&mut self, error: InstallerError)
        requires
            old(self).wf(),
        ensures
            final(self).wf(),
            final(self).error == old(self).error,
            final(self).state == old(self).state,
            final(self).executed@ == old(self).executed@,
            final(self).steps@ == old(self).steps@,
            final(self).cursor == old(self).cursor,
            final(self).failed_step == old(self).failed_step,
            final(self).rollback_failures@ == old(self).rollback_failures@.push(error),
    {
        self.rollback_failures.push(error);
    }

    /// The indices owed a rollback, in the order to roll them back: exactly
    /// the executed steps, later ones first.
    pub fn rollback_order(&self) -> (r: Vec<usize>)
        requires
            self.wf(),
        ensures
            r@ == self.executed@.reverse(),
            forall|i: int, j: int| 0 <= i < j < r@.len() ==> r@[i] > r@[j],
    {
        let mut order: Vec<usize> = Vec::new();
        let n = self.executed.len();
        let mut i: usize = 0;
        while i < n
            invariant
                n == self.executed@.len(),
                self.wf(),
                0 <= i <= n,
                order@.len() == i,
                forall|j: int| 0 <= j < i ==> order@[j] == self.executed@[n - 1 - j],
            decreases n - i,
        {
            order.push(self.executed[n - 1 - i]);
            i += 1;
        }
        proof {
            assert(order@ =~= self.executed@.reverse());
        }
        order
    }
}

/// Runs a whole pipeline against the outcome each step would report.
///
/// This is the pipeline algorithm in pure form: step `i` of the result is
/// driven by `outcomes[i]`. The returned pipeline ends `Completed` when no
/// outcome is a failure or cancellation; otherwise it halts at the first
/// failing (or cancelled) step `k`, carrying that step's error, with exactly
/// the successfully executed steps before `k` recorded for rollback.
pub fn run_steps(names: Vec<String>, outcomes: Vec<StepOutcome>) -> (r: StepPipeline)
    requires
        names@.len() == outcomes@.len(),
    ensures
        r.wf(),
        r.steps@.len() == outcomes@.len(),
        (forall|k: int|
            0 <= k < outcomes@.len() ==> !(outcomes@[k] is Failed || outcomes@[k] is Cancelled))
            ==> (r.state is Completed && r.error is None && r.executed@ == succeeded_before(
            outcomes@,
            outcomes@.len() as int,
        )),
        forall|k: int|
            halts_at(outcomes@, k) ==> (r.executed@ == succeeded_before(outcomes@, k)
                && (outcomes@[k] is Failed ==> (r.state is Failed && r.failed_step == Some(
                k as usize,
            ) && r.error == outcomes_error(outcomes@, k))) && (outcomes@[k] is Cancelled ==> (
            r.state is Cancelled && r.error is None))),
{
    let ghost all = outcomes@;
    let mut rest = outcomes;
    let mut pipeline = StepPipeline::new(names);
    pipeline.start();
    let n = rest.len();
    let mut i: usize = 0;
    while i < n
        invariant
            all == outcomes@,
            n == all.len(),
            rest@ == all.skip(i as int),
            pipeline.wf(),
            pipeline.steps@.len() == n,
            0 <= i <= n,
            pipeline.cursor == i,
            pipeline.error is None,
            pipeline.executed@ == succeeded_before(all, i as int),
            pipeline.state == if i < n {
                PipelineState::Running
            } else {
                PipelineState::Completed
            },
            forall|j: int| 0 <= j < i ==> !(all[j] is Failed || all[j] is Cancelled),
        decreases n - i,
    {
        let outcome = rest.remove(0);
        proof {
            assert(outcome == all[i as int]);
            assert(rest@ =~= all.skip(i + 1));
        }
        match outcome {
            StepOutcome::Skipped => {
                pipeline.skip_current();
            },
            StepOutcome::Succeeded => {
                pipeline.complete_current();
            },
            StepOutcome::Failed(e) => {
                pipeline.fail_current(e);
                proof {
                    assert(halts_at(all, i as int));
                    assert(forall|k: int| halts_at(all, k) ==> k == i as int);
                }
                return pipeline;
            },
            StepOutcome::Cancelled => {
                pipeline.cancel();
                proof {
                    assert(halts_at(all, i as int));
                    assert(forall|k: int| halts_at(all, k) ==> k == i as int);
                }
                return pipeline;
            },
        }
        i += 1;
    }
    pipeline
}

/// The error of the outcome at `k`, if it is a failure.
pub open spec fn outcomes_error(outcomes: Seq<StepOutcome>, k: int) -> Option<InstallerError> {
    match outcomes[k] {
        StepOutcome::Failed(e) => Some(e),
        _ => None,
    }
}

/// Step `i` of `n` at `p` percent, rescaled into the pipeline's overall
/// `[0, 100]`: step `i` occupies the band from `i/n*100` to `(i+1)/n*100`.
pub open spec fn scaled_percent(step_index: int, total_steps: int, step_percent: int) -> int {
    (step_index * 100 + step_percent) / total_steps
}

/// Computes [`scaled_percent`] exactly: a step's own progress rescaled into
/// the pipeline's overall progress.
pub fn scale_step_progress(step_index: usize, total_steps: usize, step_percent: u64) -> (r: u64)
    requires
        0 < total_steps,
        step_index < total_steps,
        step_percent <= 100,
    ensures
        r == scaled_percent(step_index as int, total_steps as int, step_percent as int),
        r <= 100,
{
    let wide: u128 = ((step_index as u128) * 100 + (step_percent as u128)) / (total_steps as u128);
    proof {
        let i = step_index as int;
        let n = total_steps as int;
        let p = step_percent as int;
        vstd::arithmetic::mul::lemma_mul_inequality(i + 1, n, 100);
        assert(i * 100 + p <= n * 100);
        vstd::arithmetic::div_mod::lemma_div_is_ordered(i * 100 + p, n * 100, n);
        assert(n * 100 / n == 100) by (nonlinear_arith)
            requires n > 0;
        vstd::arithmetic::div_mod::lemma_div_pos_is_pos(i * 100 + p, n);
    }
    wide as u64
}

/// Rescaled pipeline progress never decreases: a later step, or the same
/// step further along, maps to an overall percentage at least as large.
pub proof fn lemma_scaled_percent_monotone(i1: int, p1: int, i2: int, p2: int, n: int)
    requires
        0 < n,
        0 <= i1 <= i2 < n,
        0 <= p1 <= 100,
        0 <= p2 <= 100,
        i1 < i2 || p1 <= p2,
    ensures
        scaled_percent(i1, n, p1) <= scaled_percent(i2, n, p2),
{
    if i1 < i2 {
        vstd::arithmetic::mul::lemma_mul_inequality(i1 + 1, i2, 100);
        assert(i1 * 100 + p1 <= i2 * 100 + p2);
    }
    vstd::arithmetic::div_mod::lemma_div_is_ordered(i1 * 100 + p1, i2 * 100 + p2, n);
}

} // verus!
