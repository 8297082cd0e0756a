//! Work that only the operating system can do, written down as data.
//!
//! The library decides what has to happen; the program around it makes it
//! happen. A [`Procedure`] lists the actions in order, grouped into tasks,
//! and says for each what a failure means. The caller performs one action at
//! a time and reports how it went; [`Procedure::advance`] answers with the
//! next action or with the result of the whole procedure.

use vstd::prelude::*;
use crate::errors::{Error, ErrorView};
use crate::text::strings;
use crate::config::opt_text;

verus! {

/// One thing for the operating system to do.
#[derive(Debug)]
pub enum Action {
    /// Run a program with arguments, in a directory if one is given, and wait for it.
    Run { program: String, args: Vec<String>, dir: Option<String> },
    /// Create a directory and its missing parents.
    CreateDirAll { path: String },
    /// Write a file, replacing what is there.
    WriteFile { path: String, content: String },
    /// Remove a file if it exists.
    RemoveFile { path: String },
    /// Remove a directory with all it holds.
    RemoveTree { path: String },
    /// Copy a directory tree.
    CopyTree { from: String, to: String },
    /// Stop the foreground process of a runner, if there is one.
    StopRunner { runner_id: String },
    /// Start a runner as a foreground process.
    StartRunner { runner_id: String },
    /// Remove the registration of a runner at the remote side.
    Unregister { runner_id: String },
}

/// The view of an [`Action`].
pub enum ActionView {
    Run { program: Seq<char>, args: Seq<Seq<char>>, dir: Option<Seq<char>> },
    CreateDirAll { path: Seq<char> },
    WriteFile { path: Seq<char>, content: Seq<char> },
    RemoveFile { path: Seq<char> },
    RemoveTree { path: Seq<char> },
    CopyTree { from: Seq<char>, to: Seq<char> },
    StopRunner { runner_id: Seq<char> },
    StartRunner { runner_id: Seq<char> },
    Unregister { runner_id: Seq<char> },
}

impl View for Action {
    type V = ActionView;

    open spec fn view(&self) -> ActionView {
        match self {
            Action::Run { program, args, dir } => ActionView::Run {
                program: program@,
                args: strings(args@),
                dir: opt_text(*dir),
            },
            Action::CreateDirAll { path } => ActionView::CreateDirAll { path: path@ },
            Action::WriteFile { path, content } => ActionView::WriteFile {
                path: path@,
                content: content@,
            },
            Action::RemoveFile { path } => ActionView::RemoveFile { path: path@ },
            Action::RemoveTree { path } => ActionView::RemoveTree { path: path@ },
            Action::CopyTree { from, to } => ActionView::CopyTree { from: from@, to: to@ },
            Action::StopRunner { runner_id } => ActionView::StopRunner { runner_id: runner_id@ },
            Action::StartRunner { runner_id } => ActionView::StartRunner { runner_id: runner_id@ },
            Action::Unregister { runner_id } => ActionView::Unregister { runner_id: runner_id@ },
        }
    }
}

/// An action and what its failure means.
#[derive(Debug)]
pub struct Step {
    pub action: Action,
    /// `None`: a failure of this step is ignored. `Some(message)`: a failure
    /// ends the task; where the action ran and reported failure, the error is
    /// a service error with this message.
    pub required: Option<String>,
}

/// The view of a [`Step`].
pub struct StepView {
    pub action: ActionView,
    pub required: Option<Seq<char>>,
}

impl View for Step {
    type V = StepView;

    open spec fn view(&self) -> StepView {
        StepView { action: self.action@, required: opt_text(self.required) }
    }
}

/// The views of a vector of steps.
pub open spec fn steps_view(v: Seq<Step>) -> Seq<StepView> {
    Seq::new(v.len(), |i: int| v[i]@)
}

/// Steps that belong together: a failed required step ends the task.
#[derive(Debug)]
pub struct Task {
    pub steps: Vec<Step>,
    /// Whether the procedure goes on with the next task when this one fails.
    pub best_effort: bool,
}

/// The view of a [`Task`].
pub struct TaskView {
    pub steps: Seq<StepView>,
    pub best_effort: bool,
}

impl View for Task {
    type V = TaskView;

    open spec fn view(&self) -> TaskView {
        TaskView { steps: steps_view(self.steps@), best_effort: self.best_effort }
    }
}

/// The views of a vector of tasks.
pub open spec fn tasks_view(v: Seq<Task>) -> Seq<TaskView> {
    Seq::new(v.len(), |i: int| v[i]@)
}

/// Tasks to carry out in order.
#[derive(Debug)]
pub struct Procedure {
    pub tasks: Vec<Task>,
}

impl View for Procedure {
    type V = Seq<TaskView>;

    open spec fn view(&self) -> Seq<TaskView> {
        tasks_view(self.tasks@)
    }
}

/// How an action went.
#[derive(Debug)]
pub enum StepOutcome {
    /// The action was carried out.
    Done,
    /// The program ran and reported failure.
    Failed,
    /// The action could not be carried out at all.
    Broken(Error),
}

/// The view of a [`StepOutcome`].
pub enum OutcomeView {
    Done,
    Failed,
    Broken(ErrorView),
}

impl View for StepOutcome {
    type V = OutcomeView;

    open spec fn view(&self) -> OutcomeView {
        match self {
            StepOutcome::Done => OutcomeView::Done,
            StepOutcome::Failed => OutcomeView::Failed,
            StepOutcome::Broken(e) => OutcomeView::Broken(e@),
        }
    }
}

/// A position in a procedure: a step of a task.
#[derive(Debug, Clone, Copy, PartialEq, Eq, Structural)]
pub struct Cursor {
    pub task: usize,
    pub step: usize,
}

/// The view of a [`Cursor`]: the indices as mathematical integers.
pub struct Position {
    pub task: int,
    pub step: int,
}

impl View for Cursor {
    type V = Position;

    open spec fn view(&self) -> Position {
        Position { task: self.task as int, step: self.step as int }
    }
}

/// What the caller does next.
#[derive(Debug)]
pub enum Progress {
    /// Perform the action at the cursor and report its outcome.
    Perform(Cursor),
    /// The procedure has ended.
    Finished(Result<(), Error>),
}

/// The view of [`Progress`].
pub enum ProgressView {
    Perform(Position),
    Finished(Result<(), ErrorView>),
}

impl View for Progress {
    type V = ProgressView;

    open spec fn view(&self) -> ProgressView {
        match self {
            Progress::Perform(c) => ProgressView::Perform(c@),
            Progress::Finished(Ok(())) => ProgressView::Finished(Ok(())),
            Progress::Finished(Err(e)) => ProgressView::Finished(Err(e@)),
        }
    }
}

/// Whether the cursor names a step of the procedure.
pub open spec fn in_procedure(p: Seq<TaskView>, c: Position) -> bool {
    0 <= c.task < p.len() && 0 <= c.step < p[c.task].steps.len()
}

/// The first step at or after step `step` of task `task`; tasks that have no
/// step left are passed over. Where no step is left the procedure has
/// ended well.
pub open spec fn seek(p: Seq<TaskView>, task: int, step: int) -> ProgressView
    decreases p.len() - task,
{
    if task < 0 || step < 0 || task >= p.len() {
        ProgressView::Finished(Ok(()))
    } else if step < p[task].steps.len() {
        ProgressView::Perform(Position { task, step })
    } else {
        seek(p, task + 1, 0)
    }
}

/// The error that an outcome means for a step, if any.
pub open spec fn failure_of(step: StepView, outcome: OutcomeView) -> Option<ErrorView> {
    match step.required {
        None => None,
        Some(message) => match outcome {
            OutcomeView::Done => None,
            OutcomeView::Failed => Some(ErrorView::Service(message)),
            OutcomeView::Broken(e) => Some(e),
        },
    }
}

/// What follows the step at `c` once its outcome is known. No failure: the
/// next step. A failure in a best-effort task: the first step of the next
/// task. A failure elsewhere: the procedure ends with that error.
pub open spec fn after(p: Seq<TaskView>, c: Position, outcome: OutcomeView) -> ProgressView {
    match failure_of(p[c.task].steps[c.step], outcome) {
        None => seek(p, c.task, c.step + 1),
        Some(e) => if p[c.task].best_effort {
            seek(p, c.task + 1, 0)
        } else {
            ProgressView::Finished(Err(e))
        },
    }
}

/// The tasks, each made best-effort: a failure of one never ends the procedure.
pub open spec fn tolerant(p: Seq<TaskView>) -> Seq<TaskView> {
    Seq::new(p.len(), |i: int| TaskView { best_effort: true, ..p[i] })
}

impl Procedure {
    /// The same tasks, each made best-effort.
    pub fn tolerated(self) -> (r: Procedure)
        ensures
            r@ == tolerant(self@),
    {
        let mut tasks = self.tasks;
        let ghost before = tasks@;
        let mut i: usize = 0;
        while i < tasks.len()
            invariant
                i <= tasks.len(),
                tasks@.len() == before.len(),
                forall|k: int| 0 <= k < i ==> tasks@[k]@ == (TaskView { best_effort: true, ..before[k]@ }),
                forall|k: int| i <= k < tasks.len() ==> tasks@[k] == before[k],
            decreases tasks.len() - i,
        {
            let ghost prior = tasks@;
            tasks[i].best_effort = true;
            assert(forall|k: int| 0 <= k < prior.len() && k != i ==> tasks@[k] == prior[k]);
            i += 1;
        }
        let r = Procedure { tasks };
        assert(r@ =~= tolerant(self@));
        r
    }

    /// A procedure with nothing to do.
    pub fn empty() -> (r: Procedure)
        ensures
            r@ == Seq::<TaskView>::empty(),
    {
        let r = Procedure { tasks: Vec::new() };
        assert(r@ =~= Seq::<TaskView>::empty());
        r
    }

    /// The tasks of `self`, then those of `other`.
    pub fn followed_by(self, other: Procedure) -> (r: Procedure)
        ensures
            r@ == self@ + other@,
    {
        let mut tasks = self.tasks;
        let mut rest = other.tasks;
        tasks.append(&mut rest);
        let r = Procedure { tasks };
        assert(r@ =~= self@ + other@);
        r
    }

    /// The first step at or after the given position.
    fn seek_from(&self, task: usize, step: usize) -> (r: Progress)
        ensures
            r@ == seek(self@, task as int, step as int),
    {
        let mut t: usize = task;
        let mut s: usize = step;
        while t < self.tasks.len()
            invariant
                seek(self@, task as int, step as int) == seek(self@, t as int, s as int),
            decreases self.tasks.len() - t,
        {
            if s < self.tasks[t].steps.len() {
                return Progress::Perform(Cursor { task: t, step: s });
            }
            t += 1;
            s = 0;
        }
        Progress::Finished(Ok(()))
    }

    /// Where the procedure starts.
    pub fn start(&self) -> (r: Progress)
        ensures
            r@ == seek(self@, 0, 0),
            r@ matches ProgressView::Perform(c) ==> in_procedure(self@, c),
    {
        proof {
            lemma_seek_in_procedure(self@, 0, 0);
        }
        self.seek_from(0, 0)
    }

    /// The action at a cursor.
    pub fn action_at(&self, c: Cursor) -> (r: &Action)
        requires
            in_procedure(self@, c@),
        ensures
            r@ == self@[c.task as int].steps[c.step as int].action,
    {
        assert(self@.len() == self.tasks@.len());
        assert(self@[c.task as int] == self.tasks@[c.task as int]@);
        assert(self@[c.task as int].steps.len() == self.tasks@[c.task as int].steps@.len());
        assert(self@[c.task as int].steps[c.step as int] == self.tasks@[c.task as int].steps@[c.step as int]@);
        &self.tasks[c.task].steps[c.step].action
    }

    /// What follows the step at `c`, given how its action went.
    pub fn advance(&self, c: Cursor, outcome: StepOutcome) -> (r: Progress)
        requires
            in_procedure(self@, c@),
        ensures
            r@ == after(self@, c@, outcome@),
            r@ matches ProgressView::Perform(next) ==> in_procedure(self@, next),
    {
        proof {
            lemma_seek_in_procedure(self@, c.task as int, c.step + 1);
            lemma_seek_in_procedure(self@, c.task + 1, 0);
        }
        assert(self@.len() == self.tasks@.len());
        assert(self@[c.task as int] == self.tasks@[c.task as int]@);
        assert(self@[c.task as int].steps.len() == self.tasks@[c.task as int].steps@.len());
        assert(self@[c.task as int].steps[c.step as int] == self.tasks@[c.task as int].steps@[c.step as int]@);
        let task_count = self.tasks.len();
        let task = &self.tasks[c.task];
        let step_count = task.steps.len();
        let step = &task.steps[c.step];
        assert(c.task < task_count && c.step < step_count);
        let failure = match &step.required {
            None => None,
            Some(message) => match outcome {
                StepOutcome::Done => None,
                StepOutcome::Failed => Some(Error::Service(message.clone())),
                StepOutcome::Broken(e) => Some(e),
            },
        };
        match failure {
            None => self.seek_from(c.task, c.step + 1),
            Some(e) => if task.best_effort {
                self.seek_from(c.task + 1, 0)
            } else {
                Progress::Finished(Err(e))
            },
        }
    }
}

/// A cursor that `seek` hands out names a step of the procedure.
pub proof fn lemma_seek_in_procedure(p: Seq<TaskView>, task: int, step: int)
    ensures
        seek(p, task, step) matches ProgressView::Perform(c) ==> in_procedure(p, c) && c.task
            >= task,
    decreases p.len() - task,
{
    if task < 0 || step < 0 || task >= p.len() {
    } else if step < p[task].steps.len() {
    } else {
        lemma_seek_in_procedure(p, task + 1, 0);
    }
}

/// A step whose failure is ignored never ends a procedure with an error, and
/// neither does any step of a best-effort task.
pub proof fn lemma_tolerated_failures(p: Seq<TaskView>, c: Position, outcome: OutcomeView)
    requires
        in_procedure(p, c),
        p[c.task].best_effort || p[c.task].steps[c.step].required is None,
    ensures
        !(after(p, c, outcome) matches ProgressView::Finished(Err(_))),
{
    lemma_seek_never_fails(p, c.task, c.step + 1);
    lemma_seek_never_fails(p, c.task + 1, 0);
}

/// Looking for the next step never produces an error.
pub proof fn lemma_seek_never_fails(p: Seq<TaskView>, task: int, step: int)
    ensures
        !(seek(p, task, step) matches ProgressView::Finished(Err(_))),
    decreases p.len() - task,
{
    if task < 0 || step < 0 || task >= p.len() {
    } else if step < p[task].steps.len() {
    } else {
        lemma_seek_never_fails(p, task + 1, 0);
    }
}

/// A procedure only ends with an error at a required step of a task that is
/// not best-effort, and only when that step did not go well; the error is
/// the one that the step's outcome means.
pub proof fn lemma_errors_come_from_required_steps(
    p: Seq<TaskView>,
    c: Position,
    outcome: OutcomeView,
)
    requires
        in_procedure(p, c),
        after(p, c, outcome) matches ProgressView::Finished(Err(_)),
    ensures
        !p[c.task].best_effort,
        p[c.task].steps[c.step].required is Some,
        outcome != OutcomeView::Done,
        after(p, c, outcome) == ProgressView::Finished(
            Err(failure_of(p[c.task].steps[c.step], outcome)->0),
        ),
{
    lemma_seek_never_fails(p, c.task, c.step + 1);
    lemma_seek_never_fails(p, c.task + 1, 0);
}

} // verus!
