//! Running a list of steps one after the other, stopping for good at the
//! first that fails. The build of a target and the build of a composite
//! target are both such runs.

use vstd::prelude::*;
use crate::backend::BuildPlan;
use crate::error::NuMakeError;
use crate::plan::{task_views, StepKind, Task, TaskModel};

verus! {

/// Where a run stands: the step it is at, and whether it has failed there.
pub struct RunState {
    pub position: nat,
    pub failed: bool,
}

/// The state on arrival at step `position`: a blocked step fails the run
/// before anything is done for it.
pub open spec fn enter(blocked: Seq<bool>, position: nat) -> RunState {
    RunState { position, failed: position < blocked.len() && blocked[position as int] }
}

/// The state after the step at hand has been reported. A run that has
/// failed or has no step left stays as it is; a failure is kept where it
/// happened; a success moves on to the next step.
pub open spec fn step(blocked: Seq<bool>, st: RunState, success: bool) -> RunState {
    if st.failed || st.position >= blocked.len() {
        st
    } else if !success {
        RunState { position: st.position, failed: true }
    } else {
        enter(blocked, st.position + 1)
    }
}

/// The state after the reports `outcomes`, from the start.
pub open spec fn run(blocked: Seq<bool>, outcomes: Seq<bool>) -> RunState
    decreases outcomes.len(),
{
    if outcomes.len() == 0 {
        enter(blocked, 0)
    } else {
        step(blocked, run(blocked, outcomes.drop_last()), outcomes.last())
    }
}

/// The step to perform in a state, if any: none once the run has failed or
/// has reached its end.
pub open spec fn pending(blocked: Seq<bool>, st: RunState) -> Option<nat> {
    if st.failed || st.position >= blocked.len() {
        None
    } else {
        Some(st.position)
    }
}

/// A run that has failed stays where it failed, whatever is reported later:
/// no later step is ever handed out.
pub proof fn law_failure_is_final(blocked: Seq<bool>, outcomes: Seq<bool>, k: int)
    requires
        0 <= k <= outcomes.len(),
        run(blocked, outcomes.take(k)).failed,
    ensures
        run(blocked, outcomes) == run(blocked, outcomes.take(k)),
        pending(blocked, run(blocked, outcomes)) is None,
    decreases outcomes.len() - k,
{
    if k < outcomes.len() {
        let shorter = outcomes.drop_last();
        assert(shorter.take(k) =~= outcomes.take(k));
        law_failure_is_final(blocked, shorter, k);
    } else {
        assert(outcomes.take(k) =~= outcomes);
    }
}

/// While every report is a success and no step is blocked, the run is at
/// the step after the last report.
pub proof fn law_successes_advance(blocked: Seq<bool>, outcomes: Seq<bool>)
    requires
        outcomes.len() <= blocked.len(),
        forall|i: int| 0 <= i < outcomes.len() ==> outcomes[i],
        forall|i: int| 0 <= i <= outcomes.len() && i < blocked.len() ==> !blocked[i],
    ensures
        run(blocked, outcomes) == (RunState { position: outcomes.len(), failed: false }),
    decreases outcomes.len(),
{
    if outcomes.len() > 0 {
        law_successes_advance(blocked, outcomes.drop_last());
    }
}

/// The first failed step ends the run: with successes before it and a
/// failure at step `j`, the run stays at `j`, failed, and hands out no
/// further step, whatever is reported afterwards.
pub proof fn law_fail_fast(blocked: Seq<bool>, outcomes: Seq<bool>, j: int)
    requires
        0 <= j < outcomes.len(),
        j < blocked.len(),
        forall|i: int| 0 <= i < j ==> outcomes[i],
        !outcomes[j],
        forall|i: int| 0 <= i <= j ==> !blocked[i],
    ensures
        run(blocked, outcomes) == (RunState { position: j as nat, failed: true }),
        pending(blocked, run(blocked, outcomes)) is None,
{
    let upto = outcomes.take(j + 1);
    assert(upto.drop_last() =~= outcomes.take(j));
    law_successes_advance(blocked, outcomes.take(j));
    assert(upto.last() == outcomes[j]);
    law_failure_is_final(blocked, outcomes, j + 1);
}

/// A run whose steps succeed arrives at the first blocked step and fails
/// there, before anything is done for that step; it hands out no further
/// step, whatever is reported afterwards.
pub proof fn law_blocked_step_ends_the_run(blocked: Seq<bool>, outcomes: Seq<bool>, j: int)
    requires
        0 <= j < blocked.len(),
        blocked[j],
        forall|i: int| 0 <= i < j ==> !blocked[i],
        j <= outcomes.len(),
        forall|i: int| 0 <= i < j ==> outcomes[i],
    ensures
        run(blocked, outcomes) == (RunState { position: j as nat, failed: true }),
        pending(blocked, run(blocked, outcomes)) is None,
{
    let upto = outcomes.take(j);
    if j > 0 {
        assert(upto.drop_last() =~= outcomes.take(j - 1));
        law_successes_advance(blocked, outcomes.take(j - 1));
        assert(upto.last() == outcomes[j - 1]);
    }
    law_failure_is_final(blocked, outcomes, j);
}

/// A run over a number of steps, some of which may be blocked.
#[derive(Debug)]
pub struct Progress {
    blocked: Vec<bool>,
    position: usize,
    failed: bool,
}

impl Progress {
    /// Which steps are blocked.
    pub closed spec fn blocked(&self) -> Seq<bool> {
        self.blocked@
    }

    /// Where the run stands.
    pub closed spec fn state(&self) -> RunState {
        RunState { position: self.position as nat, failed: self.failed }
    }

    /// The position is a step or the end, and a run that has not failed
    /// does not stand at a blocked step.
    pub closed spec fn wf(&self) -> bool {
        &&& self.position <= self.blocked@.len()
        &&& !self.failed && self.position < self.blocked@.len() ==> !self.blocked@[self.position as int]
    }

    /// A run that has not failed does not stand at a blocked step.
    pub proof fn lemma_not_blocked(&self)
        requires
            self.wf(),
        ensures
            self.state().position <= self.blocked().len(),
            !self.state().failed && self.state().position < self.blocked().len()
                ==> !self.blocked()[self.state().position as int],
    {
    }

    /// A run at its start.
    pub fn new(blocked: Vec<bool>) -> (p: Progress)
        ensures
            p.wf(),
            p.blocked() == blocked@,
            p.state() == enter(blocked@, 0),
    {
        let failed = blocked.len() > 0 && blocked[0];
        Progress { blocked, position: 0, failed }
    }

    /// The step to perform now, if any.
    pub fn current(&self) -> (r: Option<usize>)
        requires
            self.wf(),
        ensures
            match r {
                Some(i) => pending(self.blocked(), self.state()) == Some(i as nat),
                None => pending(self.blocked(), self.state()) is None,
            },
    {
        if self.failed || self.position >= self.blocked.len() {
            None
        } else {
            Some(self.position)
        }
    }

    /// Whether the run has failed.
    pub fn has_failed(&self) -> (r: bool)
        ensures
            r == self.state().failed,
    {
        self.failed
    }

    /// Whether every step has been performed with success.
    pub fn is_done(&self) -> (r: bool)
        ensures
            r == (!self.state().failed && self.state().position >= self.blocked().len()),
    {
        !self.failed && self.position >= self.blocked.len()
    }

    /// The step at which the run stands.
    pub fn position(&self) -> (r: usize)
        ensures
            r == self.state().position,
    {
        self.position
    }

    /// Takes the report on the step at hand.
    pub fn report(&mut self, success: bool)
        requires
            old(self).wf(),
        ensures
            final(self).wf(),
            final(self).blocked() == old(self).blocked(),
            final(self).state() == step(old(self).blocked(), old(self).state(), success),
    {
        if self.failed || self.position >= self.blocked.len() {
            return ;
        }
        if !success {
            self.failed = true;
            return ;
        }
        self.position = self.position + 1;
        if self.position < self.blocked.len() && self.blocked[self.position] {
            self.failed = true;
        }
    }
}

/// The phases of the build of a target.
#[derive(Debug, Clone, Copy, PartialEq, Eq, Structural)]
pub enum Phase {
    Setup,
    Compile,
    Resource,
    Link,
    CopyAssets,
    Done,
    Failed,
}

/// The phase to which a task belongs.
pub open spec fn phase_of(task: TaskModel) -> Phase {
    match task {
        TaskModel::CreateDirs(_) => Phase::Setup,
        TaskModel::Run { kind, .. } => match kind {
            StepKind::Compile => Phase::Compile,
            StepKind::Resource => Phase::Resource,
            StepKind::Convert => Phase::Resource,
            StepKind::Link => Phase::Link,
        },
        TaskModel::SaveCleanSet { .. } => Phase::Compile,
        TaskModel::Copy { .. } => Phase::CopyAssets,
        TaskModel::Reject { .. } => Phase::CopyAssets,
    }
}

/// Which tasks fail the build on arrival: the refused assets.
pub open spec fn refusals(tasks: Seq<TaskModel>) -> Seq<bool> {
    Seq::new(tasks.len(), |i: int| tasks[i] is Reject)
}

/// The phase of a build that stands at `st` in `tasks`.
pub open spec fn phase_at(tasks: Seq<TaskModel>, st: RunState) -> Phase {
    if st.failed {
        Phase::Failed
    } else if st.position >= tasks.len() {
        Phase::Done
    } else {
        phase_of(tasks[st.position as int])
    }
}

/// A build whose tools all succeed fails at the first asset whose
/// destination lies outside the output directory: the assets before it have
/// been copied, the refused one and those after it are not, and the build
/// ends as failed.
pub proof fn law_refused_asset_ends_the_build(tasks: Seq<TaskModel>, outcomes: Seq<bool>, j: int)
    requires
        0 <= j < tasks.len(),
        tasks[j] is Reject,
        forall|i: int| 0 <= i < j ==> !(tasks[i] is Reject),
        j <= outcomes.len(),
        forall|i: int| 0 <= i < j ==> outcomes[i],
    ensures
        run(refusals(tasks), outcomes) == (RunState { position: j as nat, failed: true }),
        pending(refusals(tasks), run(refusals(tasks), outcomes)) is None,
        phase_at(tasks, run(refusals(tasks), outcomes)) == Phase::Failed,
{
    law_blocked_step_ends_the_run(refusals(tasks), outcomes, j);
}

/// The build of one target in progress: its tasks, and how far it has come.
#[derive(Debug)]
pub struct BuildRun {
    tasks: Vec<Task>,
    progress: Progress,
}

impl BuildRun {
    /// The tasks of the build.
    pub closed spec fn tasks(&self) -> Seq<TaskModel> {
        task_views(self.tasks@)
    }

    /// Where the build stands.
    pub closed spec fn state(&self) -> RunState {
        self.progress.state()
    }

    /// The progress is that of the tasks.
    pub closed spec fn wf(&self) -> bool {
        &&& self.progress.wf()
        &&& self.progress.blocked() == refusals(task_views(self.tasks@))
    }

    /// A build about to perform the first of `tasks`.
    pub fn new(tasks: Vec<Task>) -> (r: BuildRun)
        ensures
            r.wf(),
            r.tasks() == task_views(tasks@),
            r.state() == enter(refusals(task_views(tasks@)), 0),
    {
        let mut blocked: Vec<bool> = Vec::new();
        let mut i: usize = 0;
        while i < tasks.len()
            invariant
                i <= tasks.len(),
                blocked@ == refusals(task_views(tasks@)).take(i as int),
            decreases tasks.len() - i,
        {
            let b = match &tasks[i] {
                Task::Reject { .. } => true,
                _ => false,
            };
            blocked.push(b);
            assert(refusals(task_views(tasks@)).take(i + 1) =~= refusals(
                task_views(tasks@),
            ).take(i as int).push(b));
            i += 1;
        }
        assert(refusals(task_views(tasks@)).take(tasks.len() as int) =~= refusals(
            task_views(tasks@),
        ));
        BuildRun { tasks, progress: Progress::new(blocked) }
    }

    /// A build about to perform the first task of `plan`.
    pub fn start(plan: BuildPlan) -> (r: BuildRun)
        ensures
            r.wf(),
            r.tasks() == plan@.tasks(),
            r.state() == enter(refusals(plan@.tasks()), 0),
    {
        BuildRun::new(plan.into_tasks())
    }

    /// The task to perform now; none once the build has failed or is done.
    pub fn next_task(&self) -> (r: Option<&Task>)
        requires
            self.wf(),
        ensures
            match r {
                Some(t) => {
                    &&& pending(refusals(self.tasks()), self.state()) == Some(
                        self.state().position,
                    )
                    &&& t@ == self.tasks()[self.state().position as int]
                    &&& !(t@ is Reject)
                },
                None => pending(refusals(self.tasks()), self.state()) is None,
            },
    {
        match self.progress.current() {
            Some(i) => {
                proof {
                    self.progress.lemma_not_blocked();
                }
                Some(&self.tasks[i])
            },
            None => None,
        }
    }

    /// Takes the report on the task at hand: a success moves the build on,
    /// a failure ends it.
    pub fn report(&mut self, success: bool)
        requires
            old(self).wf(),
        ensures
            final(self).wf(),
            final(self).tasks() == old(self).tasks(),
            final(self).state() == step(refusals(old(self).tasks()), old(self).state(), success),
    {
        self.progress.report(success);
    }

    /// The phase in which the build stands.
    pub fn phase(&self) -> (p: Phase)
        requires
            self.wf(),
        ensures
            p == phase_at(self.tasks(), self.state()),
    {
        if self.progress.has_failed() {
            Phase::Failed
        } else if self.progress.is_done() {
            Phase::Done
        } else {
            let i = self.progress.position();
            match &self.tasks[i] {
                Task::CreateDirs(_) => Phase::Setup,
                Task::Run { kind, .. } => match kind {
                    StepKind::Compile => Phase::Compile,
                    StepKind::Resource => Phase::Resource,
                    StepKind::Convert => Phase::Resource,
                    StepKind::Link => Phase::Link,
                },
                Task::SaveCleanSet { .. } => Phase::Compile,
                Task::Copy { .. } => Phase::CopyAssets,
                Task::Reject { .. } => Phase::CopyAssets,
            }
        }
    }

    /// The error of the engine that ended the build, if one did: a refused
    /// asset. A build that a failing tool ended has none.
    pub fn error(&self) -> (e: Option<NuMakeError>)
        requires
            self.wf(),
        ensures
            e == if self.state().failed && self.state().position < self.tasks().len()
                && self.tasks()[self.state().position as int] is Reject {
                Some(NuMakeError::AssetCopyPathOutsideWorkingDirectory)
            } else {
                None
            },
    {
        if self.progress.has_failed() && self.progress.position() < self.tasks.len() {
            match &self.tasks[self.progress.position()] {
                Task::Reject { .. } => Some(NuMakeError::AssetCopyPathOutsideWorkingDirectory),
                _ => None,
            }
        } else {
            None
        }
    }
}

} // verus!
