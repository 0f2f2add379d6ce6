//! The run of a task against the database: a server's or a migration's. It performs its
//! steps in order, connects to the database on the way, does its work (serving, or running
//! the migrations) and then always closes the database before it reports how the work went.
//! The caller performs each step and reports its outcome; these functions decide what
//! comes next.
use vstd::prelude::*;

verus! {

/// One piece of outside work that a task asks its caller to perform.
#[derive(Debug, Clone, Copy, PartialEq, Eq, Structural)]
pub enum TaskStep {
    /// Bind the TCP listener.
    OpenListener,
    /// Build the routes that do not need the database.
    BuildEndpoints,
    /// Connect to the database.
    ConnectDatabase,
    /// Open the session storage kept in the database.
    OpenSessionStorage,
    /// Build the session middleware from the storage.
    BuildSessionMiddleware,
    /// Build the application's router against the database.
    BuildApp,
    /// Serve requests until the server stops.
    Serve,
    /// Run the database migrations.
    RunMigrations,
}

/// The kinds of task, each with its own steps.
#[derive(Debug, Clone, Copy, PartialEq, Eq, Structural)]
pub enum TaskKind {
    /// The axum server: listener, database, router, serving.
    AxumServer,
    /// The poem server: listener, endpoints, database, session storage and middleware, serving.
    PoemServer,
    /// The migration runner: database, migrations.
    Migration,
}

/// The steps of a task, in the order it performs them; the last is its work.
pub open spec fn plan(kind: TaskKind) -> Seq<TaskStep> {
    match kind {
        TaskKind::AxumServer => seq![
            TaskStep::OpenListener,
            TaskStep::ConnectDatabase,
            TaskStep::BuildApp,
            TaskStep::Serve,
        ],
        TaskKind::PoemServer => seq![
            TaskStep::OpenListener,
            TaskStep::BuildEndpoints,
            TaskStep::ConnectDatabase,
            TaskStep::OpenSessionStorage,
            TaskStep::BuildSessionMiddleware,
            TaskStep::Serve,
        ],
        TaskKind::Migration => seq![TaskStep::ConnectDatabase, TaskStep::RunMigrations],
    }
}

/// The position of a task's work in its plan: its last step.
pub open spec fn work_index(kind: TaskKind) -> nat {
    (plan(kind).len() - 1) as nat
}

/// How a task that failed hands its error on.
#[derive(Debug, Clone, PartialEq, Eq)]
pub enum RunFailure {
    /// The error of the step that failed, unchanged.
    Propagate,
    /// The error of the step that failed, under this context.
    WithContext(String),
    /// A new error with this text.
    Message(String),
}

/// The abstract value of a [`RunFailure`].
pub enum FailureView {
    Propagate,
    WithContext(Seq<char>),
    Message(Seq<char>),
}

impl View for RunFailure {
    type V = FailureView;

    open spec fn view(&self) -> FailureView {
        match self {
            RunFailure::Propagate => FailureView::Propagate,
            RunFailure::WithContext(c) => FailureView::WithContext(c@),
            RunFailure::Message(m) => FailureView::Message(m@),
        }
    }
}

/// The outcome of a step, as the caller reports it.
#[derive(Debug, Clone, PartialEq, Eq)]
pub enum TaskEvent {
    /// The step succeeded.
    Succeeded,
    /// The step failed; the text of its error.
    Failed(String),
}

/// The abstract value of a [`TaskEvent`].
pub enum EventView {
    Succeeded,
    Failed(Seq<char>),
}

impl View for TaskEvent {
    type V = EventView;

    open spec fn view(&self) -> EventView {
        match self {
            TaskEvent::Succeeded => EventView::Succeeded,
            TaskEvent::Failed(m) => EventView::Failed(m@),
        }
    }
}

/// Where a task stands.
#[derive(Debug)]
pub enum Phase {
    /// The step at this position of the plan is due.
    Running(usize),
    /// The work is over with this outcome; the database must be closed.
    Closing(Result<(), RunFailure>),
    /// The task is over with this outcome.
    Done(Result<(), RunFailure>),
}

/// The abstract value of a [`Phase`].
pub enum PhaseView {
    Running(nat),
    Closing(Result<(), FailureView>),
    Done(Result<(), FailureView>),
}

/// The abstract value of an outcome.
pub open spec fn outcome_view(r: Result<(), RunFailure>) -> Result<(), FailureView> {
    match r {
        Ok(()) => Ok(()),
        Err(f) => Err(f@),
    }
}

impl View for Phase {
    type V = PhaseView;

    open spec fn view(&self) -> PhaseView {
        match self {
            Phase::Running(i) => PhaseView::Running(*i as nat),
            Phase::Closing(r) => PhaseView::Closing(outcome_view(*r)),
            Phase::Done(r) => PhaseView::Done(outcome_view(*r)),
        }
    }
}

/// What the caller must do next.
#[derive(Debug)]
pub enum TaskAction {
    /// Perform this step and report its outcome.
    Perform(TaskStep),
    /// Close the database connection and report the outcome.
    CloseDatabase,
    /// Stop, returning this outcome.
    Finish(Result<(), RunFailure>),
}

/// The abstract value of a [`TaskAction`].
pub enum ActionView {
    Perform(TaskStep),
    CloseDatabase,
    Finish(Result<(), FailureView>),
}

impl View for TaskAction {
    type V = ActionView;

    open spec fn view(&self) -> ActionView {
        match self {
            TaskAction::Perform(s) => ActionView::Perform(*s),
            TaskAction::CloseDatabase => ActionView::CloseDatabase,
            TaskAction::Finish(r) => ActionView::Finish(outcome_view(*r)),
        }
    }
}

/// The text of the error when the database connection of a server fails.
pub open spec fn connect_failure_text(error: Seq<char>) -> Seq<char> {
    "could not get db connection: "@ + error
}

/// The context put on the error when the migration runner cannot connect.
pub open spec fn connect_failure_context() -> Seq<char> {
    "could not get db connection"@
}

/// The text of the error when serving fails.
pub open spec fn serve_failure_text(error: Seq<char>) -> Seq<char> {
    "server error: "@ + error
}

/// The text of the error when the migrations fail.
pub open spec fn migration_failure_text(error: Seq<char>) -> Seq<char> {
    "migration failed: "@ + error
}

/// How a failure of `step` with the error text `error` is handed on.
pub open spec fn step_failure(kind: TaskKind, step: TaskStep, error: Seq<char>) -> FailureView {
    match step {
        TaskStep::ConnectDatabase => match kind {
            TaskKind::Migration => FailureView::WithContext(connect_failure_context()),
            _ => FailureView::Message(connect_failure_text(error)),
        },
        TaskStep::Serve => FailureView::Message(serve_failure_text(error)),
        TaskStep::RunMigrations => FailureView::Message(migration_failure_text(error)),
        _ => FailureView::Propagate,
    }
}

/// Whether a phase is one that the task can be in.
pub open spec fn phase_ok(kind: TaskKind, phase: PhaseView) -> bool {
    match phase {
        PhaseView::Running(i) => i < plan(kind).len(),
        _ => true,
    }
}

/// What a task in `phase` asks of its caller.
pub open spec fn action_of(kind: TaskKind, phase: PhaseView) -> ActionView {
    match phase {
        PhaseView::Running(i) => ActionView::Perform(plan(kind)[i as int]),
        PhaseView::Closing(_) => ActionView::CloseDatabase,
        PhaseView::Done(r) => ActionView::Finish(r),
    }
}

/// Where a task in `phase` goes when the caller reports `event`.
pub open spec fn next_phase(kind: TaskKind, phase: PhaseView, event: EventView) -> PhaseView {
    match phase {
        PhaseView::Running(i) => {
            let step = plan(kind)[i as int];
            match event {
                EventView::Succeeded => if i == work_index(kind) {
                    PhaseView::Closing(Ok(()))
                } else {
                    PhaseView::Running(i + 1)
                },
                EventView::Failed(e) => if i == work_index(kind) {
                    PhaseView::Closing(Err(step_failure(kind, step, e)))
                } else {
                    PhaseView::Done(Err(step_failure(kind, step, e)))
                },
            }
        },
        PhaseView::Closing(r) => match event {
            EventView::Succeeded => PhaseView::Done(r),
            EventView::Failed(_) => PhaseView::Done(Err(FailureView::Propagate)),
        },
        PhaseView::Done(r) => PhaseView::Done(r),
    }
}

/// The phase a task reaches from its start through the reported `events`.
pub open spec fn phase_after(kind: TaskKind, events: Seq<EventView>) -> PhaseView
    decreases events.len(),
{
    if events.len() == 0 {
        PhaseView::Running(0)
    } else {
        next_phase(kind, phase_after(kind, events.drop_last()), events.last())
    }
}

/// A task against the database, from its first step to its outcome.
pub struct DatabaseTask {
    kind: TaskKind,
    phase: Phase,
}

impl View for DatabaseTask {
    type V = (TaskKind, PhaseView);

    closed spec fn view(&self) -> (TaskKind, PhaseView) {
        (self.kind, self.phase@)
    }
}

impl DatabaseTask {
    /// Whether the task is in a phase it can be in.
    pub closed spec fn wf(&self) -> bool {
        phase_ok(self.kind, self.phase@)
    }

    /// A task of this kind before its first step.
    pub fn new(kind: TaskKind) -> (task: Self)
        ensures
            task.wf(),
            task@ == (kind, PhaseView::Running(0)),
    {
        DatabaseTask { kind, phase: Phase::Running(0) }
    }

    /// What the caller must do next.
    pub fn action(&self) -> (a: TaskAction)
        requires
            self.wf(),
        ensures
            a@ == action_of(self@.0, self@.1),
    {
        match &self.phase {
            Phase::Running(i) => TaskAction::Perform(step_at(self.kind, *i)),
            Phase::Closing(_) => TaskAction::CloseDatabase,
            Phase::Done(r) => TaskAction::Finish(copy_outcome(r)),
        }
    }

    /// Takes in the outcome of what [`DatabaseTask::action`] asked for.
    pub fn advance(&mut self, event: TaskEvent)
        requires
            old(self).wf(),
        ensures
            final(self).wf(),
            final(self)@ == (old(self)@.0, next_phase(old(self)@.0, old(self)@.1, event@)),
    {
        let kind = self.kind;
        let next = match &self.phase {
            Phase::Running(i) => {
                let i = *i;
                let step = step_at(kind, i);
                let last = plan_len(kind) - 1;
                match event {
                    TaskEvent::Succeeded => if i == last {
                        Phase::Closing(Ok(()))
                    } else {
                        Phase::Running(i + 1)
                    },
                    TaskEvent::Failed(e) => {
                        let failure = failure_of(kind, step, e);
                        if i == last {
                            Phase::Closing(Err(failure))
                        } else {
                            Phase::Done(Err(failure))
                        }
                    },
                }
            },
            Phase::Closing(r) => match event {
                TaskEvent::Succeeded => Phase::Done(copy_outcome(r)),
                TaskEvent::Failed(_) => Phase::Done(Err(RunFailure::Propagate)),
            },
            Phase::Done(r) => Phase::Done(copy_outcome(r)),
        };
        self.phase = next;
    }

    /// Whether the task is over.
    pub fn is_finished(&self) -> (b: bool)
        ensures
            b == (self@.1 is Done),
    {
        matches!(self.phase, Phase::Done(_))
    }
}

/// A task is at step `k` only after the `k` steps before it succeeded, and nothing else.
pub proof fn lemma_running_after_successes(kind: TaskKind, events: Seq<EventView>, k: nat)
    requires
        phase_after(kind, events) == PhaseView::Running(k),
    ensures
        events.len() == k,
        forall|j: int| 0 <= j < k ==> #[trigger] events[j] is Succeeded,
    decreases events.len(),
{
    if events.len() > 0 {
        let prev = phase_after(kind, events.drop_last());
        match prev {
            PhaseView::Running(i) => {
                lemma_running_after_successes(kind, events.drop_last(), i);
                assert forall|j: int| 0 <= j < k implies #[trigger] events[j] is Succeeded by {
                    if j < i {
                        assert(events[j] == events.drop_last()[j]);
                    }
                }
            },
            _ => {},
        }
    }
}

/// A task leaves its work only to close the database, whatever the work's outcome; a task
/// that finishes without failing before its work finishes from the closing phase; and a
/// finished task stays finished with the same outcome.
pub proof fn lemma_work_is_followed_by_closing(kind: TaskKind, phase: PhaseView, event: EventView)
    requires
        phase_ok(kind, phase),
    ensures
        phase == PhaseView::Running(work_index(kind)) ==> next_phase(kind, phase, event) is Closing,
        (next_phase(kind, phase, event) is Done && !(phase is Done)) ==> (phase is Closing || (
        phase matches PhaseView::Running(i) && i < work_index(kind))),
        phase_ok(kind, next_phase(kind, phase, event)),
        phase is Done ==> next_phase(kind, phase, event) == phase,
{
}

/// The database is closed only after a connection that succeeded: a task that asks to close
/// it has performed every step before its work with success, the connection among them, and
/// has then done its work.
pub proof fn lemma_closing_follows_connection(kind: TaskKind, events: Seq<EventView>)
    requires
        phase_after(kind, events) is Closing,
    ensures
        events.len() == work_index(kind) + 1,
        forall|j: int| 0 <= j < work_index(kind) ==> #[trigger] events[j] is Succeeded,
        exists|c: int|
            0 <= c < work_index(kind) && #[trigger] plan(kind)[c] == TaskStep::ConnectDatabase,
{
    let prev = phase_after(kind, events.drop_last());
    assert(events.len() > 0);
    match prev {
        PhaseView::Running(i) => {
            lemma_running_after_successes(kind, events.drop_last(), i);
            assert forall|j: int| 0 <= j < work_index(kind) implies #[trigger] events[j] is Succeeded by {
                assert(events[j] == events.drop_last()[j]);
            }
        },
        _ => {},
    }
    match kind {
        TaskKind::AxumServer => assert(plan(kind)[1] == TaskStep::ConnectDatabase),
        TaskKind::PoemServer => assert(plan(kind)[2] == TaskStep::ConnectDatabase),
        TaskKind::Migration => assert(plan(kind)[0] == TaskStep::ConnectDatabase),
    }
}

/// `n` successful outcomes in a row.
pub open spec fn successes(n: nat) -> Seq<EventView> {
    Seq::new(n, |i: int| EventView::Succeeded)
}

/// After `k` successes, a task is at step `k`, as long as that is not past its work.
pub proof fn lemma_successes_reach_step(kind: TaskKind, k: nat)
    requires
        k <= work_index(kind),
    ensures
        phase_after(kind, successes(k)) == PhaseView::Running(k),
    decreases k,
{
    if k > 0 {
        lemma_successes_reach_step(kind, (k - 1) as nat);
        assert(successes(k).drop_last() =~= successes((k - 1) as nat));
    }
}

/// What a task returns when every step before its work succeeded: the close's error if
/// closing the database failed, and otherwise the outcome of the work, failures handed on
/// as the task's kind says.
pub proof fn lemma_task_outcome(kind: TaskKind, work: EventView, close: EventView)
    ensures
        phase_after(kind, successes(work_index(kind)).push(work).push(close)) == PhaseView::Done(
            if close is Failed {
                Err(FailureView::Propagate)
            } else {
                match work {
                    EventView::Succeeded => Ok(()),
                    EventView::Failed(e) => Err(
                        step_failure(kind, plan(kind)[work_index(kind) as int], e),
                    ),
                }
            },
        ),
{
    let w = work_index(kind);
    lemma_successes_reach_step(kind, w);
    let first = successes(w).push(work);
    assert(first.drop_last() =~= successes(w));
    let full = first.push(close);
    assert(full.drop_last() =~= first);
    assert(first.last() == work);
    assert(full.last() == close);
    assert(phase_after(kind, first) == next_phase(kind, PhaseView::Running(w), work));
    assert(phase_after(kind, full) == next_phase(kind, phase_after(kind, first), close));
}

/// A task reaches the closing phase with a good outcome only by way of its work
/// succeeding: every step up to and including the work succeeded.
proof fn lemma_closing_ok_after_successes(kind: TaskKind, events: Seq<EventView>)
    requires
        phase_after(kind, events) == PhaseView::Closing(Ok(())),
    ensures
        events.len() == work_index(kind) + 1,
        forall|j: int| 0 <= j <= work_index(kind) ==> #[trigger] events[j] is Succeeded,
{
    assert(events.len() > 0);
    let prev = phase_after(kind, events.drop_last());
    match prev {
        PhaseView::Running(i) => {
            lemma_running_after_successes(kind, events.drop_last(), i);
            assert forall|j: int| 0 <= j <= work_index(kind) implies #[trigger] events[j] is Succeeded by {
                if j < work_index(kind) {
                    assert(events[j] == events.drop_last()[j]);
                }
            }
        },
        _ => {},
    }
}

/// A task reports success only when every one of its steps succeeded, its work included,
/// and the database was then closed without error: a failure of any step, or of the close,
/// is never swallowed.
pub proof fn lemma_success_only_after_every_step_succeeded(kind: TaskKind, events: Seq<EventView>)
    requires
        phase_after(kind, events) == PhaseView::Done(Ok(())),
    ensures
        events.len() >= work_index(kind) + 2,
        forall|j: int| 0 <= j <= work_index(kind) + 1 ==> #[trigger] events[j] is Succeeded,
    decreases events.len(),
{
    assert(events.len() > 0);
    let init = events.drop_last();
    let prev = phase_after(kind, init);
    match prev {
        PhaseView::Done(r) => {
            lemma_success_only_after_every_step_succeeded(kind, init);
            assert forall|j: int| 0 <= j <= work_index(kind) + 1 implies #[trigger] events[j] is Succeeded by {
                assert(events[j] == init[j]);
            }
        },
        PhaseView::Closing(r) => {
            lemma_closing_ok_after_successes(kind, init);
            assert forall|j: int| 0 <= j <= work_index(kind) + 1 implies #[trigger] events[j] is Succeeded by {
                if j <= work_index(kind) {
                    assert(events[j] == init[j]);
                }
            }
        },
        PhaseView::Running(i) => {},
    }
}

/// What a server does as its work is serve, and only the migration runner runs the
/// migrations: the work of the axum and poem servers is `Serve`, the work of the migration
/// runner is `RunMigrations`, no server's plan holds `RunMigrations`, and the migration
/// runner's plan holds no `Serve`.
pub proof fn lemma_servers_serve_and_migrations_migrate(kind: TaskKind, i: int)
    requires
        0 <= i < plan(kind).len(),
    ensures
        kind != TaskKind::Migration ==> action_of(kind, PhaseView::Running(work_index(kind)))
            == ActionView::Perform(TaskStep::Serve),
        kind == TaskKind::Migration ==> action_of(kind, PhaseView::Running(work_index(kind)))
            == ActionView::Perform(TaskStep::RunMigrations),
        plan(kind)[i] == TaskStep::RunMigrations ==> kind == TaskKind::Migration,
        plan(kind)[i] == TaskStep::Serve ==> kind != TaskKind::Migration,
{
}

/// The steps that a run in which everything succeeds asks for, in order: for the poem
/// server, listener, endpoints, database, session storage, session middleware and serving;
/// for the axum server, listener, database, router and serving; for the migration runner,
/// database and migrations. Then the database is closed and the task reports success.
pub proof fn lemma_successful_run_steps(kind: TaskKind, k: nat)
    ensures
        k <= work_index(kind) ==> action_of(kind, phase_after(kind, successes(k)))
            == ActionView::Perform(
            match kind {
                TaskKind::PoemServer => seq![
                    TaskStep::OpenListener,
                    TaskStep::BuildEndpoints,
                    TaskStep::ConnectDatabase,
                    TaskStep::OpenSessionStorage,
                    TaskStep::BuildSessionMiddleware,
                    TaskStep::Serve,
                ][k as int],
                TaskKind::AxumServer => seq![
                    TaskStep::OpenListener,
                    TaskStep::ConnectDatabase,
                    TaskStep::BuildApp,
                    TaskStep::Serve,
                ][k as int],
                TaskKind::Migration => seq![TaskStep::ConnectDatabase, TaskStep::RunMigrations][k as int],
            },
        ),
        k == work_index(kind) + 1 ==> action_of(kind, phase_after(kind, successes(k)))
            == ActionView::CloseDatabase,
        k == work_index(kind) + 2 ==> action_of(kind, phase_after(kind, successes(k)))
            == ActionView::Finish(Ok(())),
{
    let w = work_index(kind);
    if k <= w {
        lemma_successes_reach_step(kind, k);
    } else if k <= w + 2 {
        lemma_successes_reach_step(kind, w);
        assert(successes(w + 1).drop_last() =~= successes(w));
        assert(successes(w + 1).last() == EventView::Succeeded);
        if k == w + 2 {
            assert(successes(w + 2).drop_last() =~= successes(w + 1));
            assert(successes(w + 2).last() == EventView::Succeeded);
        }
    }
}

/// A copy of an outcome.
fn copy_outcome(r: &Result<(), RunFailure>) -> (c: Result<(), RunFailure>)
    ensures
        outcome_view(c) == outcome_view(*r),
{
    match r {
        Ok(()) => Ok(()),
        Err(RunFailure::Propagate) => Err(RunFailure::Propagate),
        Err(RunFailure::WithContext(c)) => Err(RunFailure::WithContext(c.clone())),
        Err(RunFailure::Message(m)) => Err(RunFailure::Message(m.clone())),
    }
}

/// The number of steps in a task's plan.
fn plan_len(kind: TaskKind) -> (n: usize)
    ensures
        n == plan(kind).len(),
{
    match kind {
        TaskKind::AxumServer => 4,
        TaskKind::PoemServer => 6,
        TaskKind::Migration => 2,
    }
}

/// The step at position `i` of a task's plan.
fn step_at(kind: TaskKind, i: usize) -> (s: TaskStep)
    requires
        i < plan(kind).len(),
    ensures
        s == plan(kind)[i as int],
{
    match kind {
        TaskKind::AxumServer => if i == 0 {
            TaskStep::OpenListener
        } else if i == 1 {
            TaskStep::ConnectDatabase
        } else if i == 2 {
            TaskStep::BuildApp
        } else {
            TaskStep::Serve
        },
        TaskKind::PoemServer => if i == 0 {
            TaskStep::OpenListener
        } else if i == 1 {
            TaskStep::BuildEndpoints
        } else if i == 2 {
            TaskStep::ConnectDatabase
        } else if i == 3 {
            TaskStep::OpenSessionStorage
        } else if i == 4 {
            TaskStep::BuildSessionMiddleware
        } else {
            TaskStep::Serve
        },
        TaskKind::Migration => if i == 0 {
            TaskStep::ConnectDatabase
        } else {
            TaskStep::RunMigrations
        },
    }
}

/// How a failure of `step` is handed on, with the error's text.
fn failure_of(kind: TaskKind, step: TaskStep, error: String) -> (f: RunFailure)
    ensures
        f@ == step_failure(kind, step, error@),
{
    match step {
        TaskStep::ConnectDatabase => match kind {
            TaskKind::Migration => {
                proof { reveal_strlit("could not get db connection"); }
                RunFailure::WithContext(String::from_str("could not get db connection"))
            },
            _ => {
                proof { reveal_strlit("could not get db connection: "); }
                RunFailure::Message(
                    String::from_str("could not get db connection: ").concat(error.as_str()),
                )
            },
        },
        TaskStep::Serve => {
            proof { reveal_strlit("server error: "); }
            RunFailure::Message(String::from_str("server error: ").concat(error.as_str()))
        },
        TaskStep::RunMigrations => {
            proof { reveal_strlit("migration failed: "); }
            RunFailure::Message(String::from_str("migration failed: ").concat(error.as_str()))
        },
        _ => RunFailure::Propagate,
    }
}

} // verus!
