//! The sequence executor: a state machine that runs the steps of a sequence
//! strictly one after another, driven by the events its caller reports
//! (stream ends, process exit, spawn failure, cancellation, teardown) and
//! answering with the notices the caller is to act on.

use vstd::prelude::*;
use crate::barrier::{CommandResult, RunningContext};
use crate::command::CommandStep;
use crate::resolve::{HelperCache, ResolveError, resolve_command, resolve_spec};
use crate::text::{decimal, push_decimal};

verus! {

/// How a step ended, as shown to the user.
#[derive(Clone, Copy, Debug, PartialEq, Eq)]
pub enum TaskStatus {
    Success,
    Failed,
    Cancelled,
}

/// How a sequence run ended. Steps are counted from one.
#[derive(Clone, Copy, Debug, PartialEq, Eq)]
pub enum RunOutcome {
    /// Every step succeeded.
    Completed,
    /// The process of step `step` of `total` exited unsuccessfully.
    FailedAt { step: usize, total: usize, exit_code: Option<i32> },
    /// Step `step` of `total` could not be turned into a program invocation.
    PrepareFailed { step: usize, total: usize, error: ResolveError },
    /// The process of step `step` of `total` could not be started.
    StartFailed { step: usize, total: usize },
    /// The user cancelled the run, or closed its window.
    Cancelled,
}

/// The start of every failure message: which step, counted from one, failed
/// out of how many.
pub open spec fn failure_prefix(step: usize, total: usize) -> Seq<char> {
    "Operation failed at step "@ + decimal(step as nat) + " of "@ + decimal(total as nat)
}

/// Writes the start of a failure message.
fn failure_message(step: usize, total: usize) -> (r: String)
    ensures
        r@ == failure_prefix(step, total),
{
    let mut s: String = "Operation failed at step ".to_owned();
    push_decimal(&mut s, step);
    s.append(" of ");
    push_decimal(&mut s, total);
    s
}

impl RunOutcome {
    /// The message shown to the user when a run ends so.
    pub open spec fn message_spec(self) -> Seq<char> {
        match self {
            RunOutcome::Completed => "All operations completed successfully!"@,
            RunOutcome::FailedAt { step, total, .. } => failure_prefix(step, total),
            RunOutcome::PrepareFailed { step, total, error } => failure_prefix(step, total) + ": "@
                + error.message_spec(),
            RunOutcome::StartFailed { step, total } => failure_prefix(step, total)
                + ": the command could not be started"@,
            RunOutcome::Cancelled => "Operation cancelled by user"@,
        }
    }

    /// The message shown to the user when a run ends so.
    pub fn message(&self) -> (r: String)
        ensures
            r@ == self.message_spec(),
    {
        match self {
            RunOutcome::Completed => "All operations completed successfully!".to_owned(),
            RunOutcome::FailedAt { step, total, .. } => failure_message(*step, *total),
            RunOutcome::PrepareFailed { step, total, error } => {
                let mut s = failure_message(*step, *total);
                s.append(": ");
                let reason = error.message();
                s.append(reason.as_str());
                s
            },
            RunOutcome::StartFailed { step, total } => {
                let mut s = failure_message(*step, *total);
                s.append(": the command could not be started");
                s
            },
            RunOutcome::Cancelled => "Operation cancelled by user".to_owned(),
        }
    }

    /// Whether the run completed.
    pub fn is_success(&self) -> (r: bool)
        ensures
            r == (*self == RunOutcome::Completed),
    {
        match self {
            RunOutcome::Completed => true,
            _ => false,
        }
    }
}

/// What happened to the step in flight, or to the run, as its caller saw it.
#[derive(Clone, Copy, Debug, PartialEq, Eq)]
pub enum Event {
    /// The standard output stream, or the standard error stream, ended.
    StreamClosed { is_error: bool },
    /// The process ended.
    Exited(CommandResult),
    /// The process could not be started.
    SpawnFailed,
    /// The user asked to cancel.
    CancelRequested,
    /// The window that hosts the run was closed.
    Closed,
}

/// What the caller is to do or show, in order.
#[derive(Clone, Copy, Debug, PartialEq, Eq)]
pub enum Notice {
    /// Step `index` (counted from zero) of `total` has begun.
    StepStarted { index: usize, total: usize },
    /// Terminate the process in flight.
    Kill,
    /// Step `index` (counted from zero) has ended in `status`.
    StepFinished { index: usize, status: TaskStatus },
    /// The run has ended.
    SequenceFinished { outcome: RunOutcome },
    /// Invoke the completion callback with `success`.
    Completed { success: bool },
}

/// Where a run stands.
#[derive(Clone, Copy, Debug, PartialEq, Eq)]
pub enum Phase {
    /// The step at the current index is about to begin.
    Ready,
    /// The process of the current step is in flight.
    Running,
    /// The run has ended; nothing changes it any more.
    Finished,
}

/// Why a run was not started.
#[derive(Clone, Copy, Debug, PartialEq, Eq)]
pub enum RunRejected {
    /// The sequence holds no step.
    Empty,
    /// Another run holds the guard.
    AlreadyRunning,
}

/// The process-wide guard that lets one run at a time proceed.
#[derive(Debug)]
pub struct ActionGuard {
    running: bool,
}

impl View for ActionGuard {
    type V = bool;

    /// Whether a run holds the guard.
    closed spec fn view(&self) -> bool {
        self.running
    }
}

impl ActionGuard {
    /// A guard that no run holds.
    pub fn new() -> (r: Self)
        ensures
            !r@,
    {
        ActionGuard { running: false }
    }
}

/// Whether a run currently holds the guard.
pub fn is_action_running(guard: &ActionGuard) -> (r: bool)
    ensures
        r == guard@,
{
    guard.running
}

/// The abstract state of a run.
pub struct RunModel {
    pub commands: Seq<CommandStep>,
    pub index: usize,
    pub cancelled: bool,
    pub phase: Phase,
    pub context: RunningContext,
    pub outcome: Option<RunOutcome>,
}

/// The notices that end a run: the outcome, then the completion callback,
/// which reports success only for a completed run.
pub open spec fn finish_notices(outcome: RunOutcome) -> Seq<Notice> {
    seq![
        Notice::SequenceFinished { outcome },
        Notice::Completed { success: outcome == RunOutcome::Completed },
    ]
}

/// The guard after a transition from `before` to `after`: released when the
/// run ends, untouched otherwise.
pub open spec fn guard_after(before: RunModel, after: RunModel, running: bool) -> bool {
    if before.phase != Phase::Finished && after.phase == Phase::Finished {
        false
    } else {
        running
    }
}

/// Why the current step of `m` does not resolve with the helper in use, if
/// it does not.
pub open spec fn step_failure(m: RunModel, helper: Option<Seq<char>>) -> Option<ResolveError> {
    if m.index < m.commands.len() {
        match resolve_spec(m.commands[m.index as int], helper) {
            Ok(_) => None,
            Err(e) => Some(e),
        }
    } else {
        None
    }
}

/// Starting a run of `commands` while the guard is or is not held.
pub open spec fn start_spec(running: bool, commands: Seq<CommandStep>) -> Result<
    RunModel,
    RunRejected,
> {
    if commands.len() == 0 {
        Err(RunRejected::Empty)
    } else if running {
        Err(RunRejected::AlreadyRunning)
    } else {
        Ok(RunModel::initial(commands))
    }
}

impl RunModel {
    /// A run of `commands` about to begin its first step.
    pub open spec fn initial(commands: Seq<CommandStep>) -> RunModel {
        RunModel {
            commands,
            index: 0,
            cancelled: false,
            phase: Phase::Ready,
            context: RunningContext::fresh(),
            outcome: None,
        }
    }

    /// The number of steps.
    pub open spec fn total(self) -> usize {
        self.commands.len() as usize
    }

    /// The states a run can reach.
    pub open spec fn wf(self) -> bool {
        &&& 1 <= self.commands.len() <= usize::MAX
        &&& self.index <= self.commands.len()
        &&& (self.phase == Phase::Running ==> self.index < self.commands.len()
            && !self.context.delivered)
        &&& (self.phase == Phase::Finished <==> self.outcome is Some)
    }

    /// The run ended in `outcome`.
    pub open spec fn finish(self, outcome: RunOutcome) -> RunModel {
        RunModel { phase: Phase::Finished, outcome: Some(outcome), ..self }
    }

    /// Beginning the current step, where `failure` tells why it does not
    /// resolve to a program invocation, if it does not.
    pub open spec fn begin(self, failure: Option<ResolveError>) -> (RunModel, Seq<Notice>) {
        if self.phase != Phase::Ready {
            (self, seq![])
        } else if self.cancelled {
            if self.index < self.commands.len() {
                (
                    self.finish(RunOutcome::Cancelled),
                    seq![Notice::StepFinished { index: self.index, status: TaskStatus::Cancelled }]
                        + finish_notices(RunOutcome::Cancelled),
                )
            } else {
                (self.finish(RunOutcome::Cancelled), finish_notices(RunOutcome::Cancelled))
            }
        } else if self.index >= self.commands.len() {
            (self.finish(RunOutcome::Completed), finish_notices(RunOutcome::Completed))
        } else {
            let started = seq![Notice::StepStarted { index: self.index, total: self.total() }];
            match failure {
                None => (
                    RunModel {
                        phase: Phase::Running,
                        context: RunningContext::fresh(),
                        ..self
                    },
                    started,
                ),
                Some(error) => {
                    let outcome = RunOutcome::PrepareFailed {
                        step: (self.index + 1) as usize,
                        total: self.total(),
                        error,
                    };
                    (
                        self.finish(outcome),
                        started + seq![
                            Notice::StepFinished { index: self.index, status: TaskStatus::Failed },
                        ] + finish_notices(outcome),
                    )
                },
            }
        }
    }

    /// The run after the barrier of the step in flight moved to `context` and
    /// handed over `delivered`.
    pub open spec fn settle(self, context: RunningContext, delivered: Option<CommandResult>) -> (
        RunModel,
        Seq<Notice>,
    ) {
        let m = RunModel { context, ..self };
        match delivered {
            None => (m, seq![]),
            Some(result) => if self.cancelled {
                (
                    m.finish(RunOutcome::Cancelled),
                    seq![Notice::StepFinished { index: self.index, status: TaskStatus::Cancelled }]
                        + finish_notices(RunOutcome::Cancelled),
                )
            } else {
                match result {
                    CommandResult::Success => (
                        RunModel { phase: Phase::Ready, index: (self.index + 1) as usize, ..m },
                        seq![
                            Notice::StepFinished {
                                index: self.index,
                                status: TaskStatus::Success,
                            },
                        ],
                    ),
                    CommandResult::Failure { exit_code } => {
                        let outcome = RunOutcome::FailedAt {
                            step: (self.index + 1) as usize,
                            total: self.total(),
                            exit_code,
                        };
                        (
                            m.finish(outcome),
                            seq![
                                Notice::StepFinished {
                                    index: self.index,
                                    status: TaskStatus::Failed,
                                },
                            ] + finish_notices(outcome),
                        )
                    },
                }
            },
        }
    }

    /// The run after `event`.
    pub open spec fn handle(self, event: Event) -> (RunModel, Seq<Notice>) {
        match self.phase {
            Phase::Finished => (self, seq![]),
            Phase::Ready => match event {
                Event::CancelRequested => (RunModel { cancelled: true, ..self }, seq![]),
                Event::Closed => (
                    self.finish(RunOutcome::Cancelled),
                    finish_notices(RunOutcome::Cancelled),
                ),
                _ => (self, seq![]),
            },
            Phase::Running => match event {
                Event::CancelRequested => if self.cancelled {
                    (self, seq![])
                } else {
                    (RunModel { cancelled: true, ..self }, seq![Notice::Kill])
                },
                Event::Closed => (
                    self.finish(RunOutcome::Cancelled),
                    seq![
                        Notice::Kill,
                        Notice::StepFinished { index: self.index, status: TaskStatus::Cancelled },
                    ] + finish_notices(RunOutcome::Cancelled),
                ),
                Event::SpawnFailed => if self.cancelled {
                    (
                        self.finish(RunOutcome::Cancelled),
                        seq![
                            Notice::StepFinished {
                                index: self.index,
                                status: TaskStatus::Cancelled,
                            },
                        ] + finish_notices(RunOutcome::Cancelled),
                    )
                } else {
                    let outcome = RunOutcome::StartFailed {
                        step: (self.index + 1) as usize,
                        total: self.total(),
                    };
                    (
                        self.finish(outcome),
                        seq![
                            Notice::StepFinished { index: self.index, status: TaskStatus::Failed },
                        ] + finish_notices(outcome),
                    )
                },
                Event::StreamClosed { is_error } => {
                    let (c, d) = self.context.stream_done_spec(is_error);
                    self.settle(c, d)
                },
                Event::Exited(result) => {
                    let (c, d) = self.context.exit_spec(result);
                    self.settle(c, d)
                },
            },
        }
    }
}

/// Releases the guard and returns the notices that end a run in `outcome`.
pub fn finalize_execution(guard: &mut ActionGuard, outcome: RunOutcome) -> (r: Vec<Notice>)
    ensures
        !final(guard)@,
        r@ == finish_notices(outcome),
{
    guard.running = false;
    let success = match outcome {
        RunOutcome::Completed => true,
        _ => false,
    };
    let mut notices: Vec<Notice> = Vec::new();
    notices.push(Notice::SequenceFinished { outcome });
    notices.push(Notice::Completed { success });
    assert(notices@ =~= finish_notices(outcome));
    notices
}

/// One run of a sequence of steps.
#[derive(Debug)]
pub struct SequenceRun {
    commands: Vec<CommandStep>,
    index: usize,
    cancelled: bool,
    phase: Phase,
    context: RunningContext,
    outcome: Option<RunOutcome>,
}

impl View for SequenceRun {
    type V = RunModel;

    closed spec fn view(&self) -> RunModel {
        RunModel {
            commands: self.commands@,
            index: self.index,
            cancelled: self.cancelled,
            phase: self.phase,
            context: self.context,
            outcome: self.outcome,
        }
    }
}

/// Takes the guard and starts a run of `commands` at its first step. An empty
/// sequence, or a guard that another run holds, is refused with the guard
/// left as it was.
pub fn run_commands_with_progress(guard: &mut ActionGuard, commands: Vec<CommandStep>) -> (r:
    Result<SequenceRun, RunRejected>)
    ensures
        match r {
            Ok(run) => {
                &&& start_spec(old(guard)@, commands@) == Ok::<RunModel, RunRejected>(run@)
                &&& run@.wf()
                &&& final(guard)@
            },
            Err(e) => {
                &&& start_spec(old(guard)@, commands@) == Err::<RunModel, RunRejected>(e)
                &&& final(guard)@ == old(guard)@
            },
        },
{
    if commands.len() == 0 {
        return Err(RunRejected::Empty);
    }
    if is_action_running(guard) {
        return Err(RunRejected::AlreadyRunning);
    }
    guard.running = true;
    let run = SequenceRun {
        commands,
        index: 0,
        cancelled: false,
        phase: Phase::Ready,
        context: RunningContext::new(),
        outcome: None,
    };
    Ok(run)
}

/// Begins the current step of a run that is ready for it: finishes the run
/// if it was cancelled or every step is done; otherwise reports the step and
/// resolves it, returning the program and arguments to spawn, or finishing
/// the run as failed when it does not resolve. The guard is released when the
/// run finishes.
pub fn execute_commands(run: &mut SequenceRun, guard: &mut ActionGuard, helpers: &HelperCache) -> (r:
    (Vec<Notice>, Option<(String, Vec<String>)>))
    requires
        old(run)@.wf(),
    ensures
        final(run)@.wf(),
        (final(run)@, r.0@) == old(run)@.begin(step_failure(old(run)@, helpers.current_spec())),
        final(guard)@ == guard_after(old(run)@, final(run)@, old(guard)@),
        r.1 is Some <==> (old(run)@.phase == Phase::Ready && final(run)@.phase == Phase::Running),
        r.1 matches Some(p) ==> resolve_spec(
            old(run)@.commands[old(run)@.index as int],
            helpers.current_spec(),
        ) == Ok::<(Seq<char>, Seq<Seq<char>>), ResolveError>((p.0@, p.1.deep_view())),
{
    match run.phase {
        Phase::Ready => {},
        _ => return (Vec::new(), None),
    }
    if run.cancelled {
        let mut notices: Vec<Notice> = Vec::new();
        if run.index < run.commands.len() {
            notices.push(Notice::StepFinished { index: run.index, status: TaskStatus::Cancelled });
        }
        run.phase = Phase::Finished;
        run.outcome = Some(RunOutcome::Cancelled);
        let mut tail = finalize_execution(guard, RunOutcome::Cancelled);
        notices.append(&mut tail);
        return (notices, None);
    }
    if run.index >= run.commands.len() {
        run.phase = Phase::Finished;
        run.outcome = Some(RunOutcome::Completed);
        let notices = finalize_execution(guard, RunOutcome::Completed);
        return (notices, None);
    }
    let total = run.commands.len();
    let mut notices: Vec<Notice> = Vec::new();
    notices.push(Notice::StepStarted { index: run.index, total });
    match resolve_command(&run.commands[run.index], helpers) {
        Ok(invocation) => {
            run.phase = Phase::Running;
            run.context = RunningContext::new();
            (notices, Some(invocation))
        },
        Err(error) => {
            notices.push(Notice::StepFinished { index: run.index, status: TaskStatus::Failed });
            let outcome = RunOutcome::PrepareFailed { step: run.index + 1, total, error };
            run.phase = Phase::Finished;
            run.outcome = Some(outcome);
            let mut tail = finalize_execution(guard, outcome);
            notices.append(&mut tail);
            (notices, None)
        },
    }
}

impl SequenceRun {
    /// Whether the run is in a reachable state.
    pub open spec fn wf(&self) -> bool {
        self@.wf()
    }

    /// Where the run stands.
    pub fn phase(&self) -> (r: Phase)
        ensures
            r == self@.phase,
    {
        self.phase
    }

    /// The current step, counted from zero.
    pub fn current_index(&self) -> (r: usize)
        ensures
            r == self@.index,
    {
        self.index
    }

    /// The number of steps.
    pub fn total(&self) -> (r: usize)
        ensures
            r == self@.commands.len(),
    {
        self.commands.len()
    }

    /// Whether the user asked to cancel.
    pub fn is_cancelled(&self) -> (r: bool)
        ensures
            r == self@.cancelled,
    {
        self.cancelled
    }

    /// How the run ended, once it has.
    pub fn outcome(&self) -> (r: Option<RunOutcome>)
        ensures
            r == self@.outcome,
    {
        self.outcome
    }

    /// The step at `index`.
    pub fn command(&self, index: usize) -> (r: &CommandStep)
        requires
            index < self@.commands.len(),
        ensures
            *r == self@.commands[index as int],
    {
        &self.commands[index]
    }

    /// Finishes the run in `outcome` after `notices`, releasing the guard.
    fn finish_with(&mut self, guard: &mut ActionGuard, notices: Vec<Notice>, outcome: RunOutcome) -> (r:
        Vec<Notice>)
        ensures
            final(self)@ == old(self)@.finish(outcome),
            !final(guard)@,
            r@ == notices@ + finish_notices(outcome),
    {
        let mut notices = notices;
        self.phase = Phase::Finished;
        self.outcome = Some(outcome);
        let mut tail = finalize_execution(guard, outcome);
        notices.append(&mut tail);
        notices
    }

    /// Acts on what the barrier of the step in flight handed over, if
    /// anything.
    fn settle(&mut self, guard: &mut ActionGuard, delivered: Option<CommandResult>) -> (r: Vec<Notice>)
        requires
            old(self)@.phase == Phase::Running,
            old(self)@.index < old(self)@.commands.len() <= usize::MAX,
        ensures
            (final(self)@, r@) == old(self)@.settle(old(self)@.context, delivered),
            final(guard)@ == guard_after(old(self)@, final(self)@, old(guard)@),
    {
        match delivered {
            None => Vec::new(),
            Some(result) => {
                let index = self.index;
                if self.cancelled {
                    let mut notices: Vec<Notice> = Vec::new();
                    notices.push(Notice::StepFinished { index, status: TaskStatus::Cancelled });
                    let r = self.finish_with(guard, notices, RunOutcome::Cancelled);
                    assert(r@ =~= seq![
                        Notice::StepFinished { index, status: TaskStatus::Cancelled },
                    ] + finish_notices(RunOutcome::Cancelled));
                    return r;
                }
                match result {
                    CommandResult::Success => {
                        self.phase = Phase::Ready;
                        self.index = index + 1;
                        let mut notices: Vec<Notice> = Vec::new();
                        notices.push(Notice::StepFinished { index, status: TaskStatus::Success });
                        assert(notices@ =~= seq![
                            Notice::StepFinished { index, status: TaskStatus::Success },
                        ]);
                        notices
                    },
                    CommandResult::Failure { exit_code } => {
                        let outcome = RunOutcome::FailedAt {
                            step: index + 1,
                            total: self.commands.len(),
                            exit_code,
                        };
                        let mut notices: Vec<Notice> = Vec::new();
                        notices.push(Notice::StepFinished { index, status: TaskStatus::Failed });
                        let r = self.finish_with(guard, notices, outcome);
                        assert(r@ =~= seq![
                            Notice::StepFinished { index, status: TaskStatus::Failed },
                        ] + finish_notices(outcome));
                        r
                    },
                }
            },
        }
    }

    /// Acts on `event`: records stream ends and the exit status in the step's
    /// barrier and, once it hands the outcome over, advances to the next step
    /// or finishes the run; a cancellation asks for the process in flight to
    /// be killed, and wins over the outcome that arrives after it. The guard
    /// is released when the run finishes.
    pub fn handle_event(&mut self, guard: &mut ActionGuard, event: Event) -> (r: Vec<Notice>)
        requires
            old(self).wf(),
        ensures
            final(self).wf(),
            (final(self)@, r@) == old(self)@.handle(event),
            final(guard)@ == guard_after(old(self)@, final(self)@, old(guard)@),
    {
        match self.phase {
            Phase::Finished => Vec::new(),
            Phase::Ready => match event {
                Event::CancelRequested => {
                    self.cancelled = true;
                    Vec::new()
                },
                Event::Closed => {
                    let r = self.finish_with(guard, Vec::new(), RunOutcome::Cancelled);
                    assert(r@ =~= finish_notices(RunOutcome::Cancelled));
                    r
                },
                _ => Vec::new(),
            },
            Phase::Running => {
                let index = self.index;
                match event {
                    Event::CancelRequested => {
                        if self.cancelled {
                            Vec::new()
                        } else {
                            self.cancelled = true;
                            let mut notices: Vec<Notice> = Vec::new();
                            notices.push(Notice::Kill);
                            assert(notices@ =~= seq![Notice::Kill]);
                            notices
                        }
                    },
                    Event::Closed => {
                        let mut notices: Vec<Notice> = Vec::new();
                        notices.push(Notice::Kill);
                        notices.push(Notice::StepFinished { index, status: TaskStatus::Cancelled });
                        let r = self.finish_with(guard, notices, RunOutcome::Cancelled);
                        assert(r@ =~= seq![
                            Notice::Kill,
                            Notice::StepFinished { index, status: TaskStatus::Cancelled },
                        ] + finish_notices(RunOutcome::Cancelled));
                        r
                    },
                    Event::SpawnFailed => {
                        let mut notices: Vec<Notice> = Vec::new();
                        if self.cancelled {
                            notices.push(
                                Notice::StepFinished { index, status: TaskStatus::Cancelled },
                            );
                            let r = self.finish_with(guard, notices, RunOutcome::Cancelled);
                            assert(r@ =~= seq![
                                Notice::StepFinished { index, status: TaskStatus::Cancelled },
                            ] + finish_notices(RunOutcome::Cancelled));
                            r
                        } else {
                            let outcome = RunOutcome::StartFailed {
                                step: index + 1,
                                total: self.commands.len(),
                            };
                            notices.push(Notice::StepFinished { index, status: TaskStatus::Failed });
                            let r = self.finish_with(guard, notices, outcome);
                            assert(r@ =~= seq![
                                Notice::StepFinished { index, status: TaskStatus::Failed },
                            ] + finish_notices(outcome));
                            r
                        }
                    },
                    Event::StreamClosed { is_error } => {
                        let mut context = self.context;
                        let delivered = context.mark_stream_done(is_error);
                        self.context = context;
                        self.settle(guard, delivered)
                    },
                    Event::Exited(result) => {
                        let mut context = self.context;
                        let delivered = context.set_exit_result(result);
                        self.context = context;
                        self.settle(guard, delivered)
                    },
                }
            },
        }
    }
}

} // verus!
