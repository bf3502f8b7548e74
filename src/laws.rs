//! Properties of the pipeline that span several calls, proved over the
//! abstract state the executor's contracts are stated in.

use vstd::prelude::*;
use crate::barrier::{CommandResult, RunningContext};
use crate::command::{CommandStep, CommandType};
use crate::executor::{
    Event, Notice, Phase, RunModel, RunOutcome, RunRejected, TaskStatus, failure_prefix,
    guard_after, start_spec, step_failure,
};
use crate::resolve::{HelperCache, ResolveError, discovered_helper, first_present_from, resolve_spec};

verus! {

/// Which completion signal an event is: 0 for the end of standard output, 1
/// for the end of standard error, 2 for the exit, 3 for any other event.
pub open spec fn signal_kind(e: Event) -> int {
    match e {
        Event::StreamClosed { is_error } => if is_error {
            1
        } else {
            0
        },
        Event::Exited(_) => 2,
        _ => 3,
    }
}

/// Whether `a`, `b` and `c` are the three completion signals of one step, in
/// some order, the exit carrying `result`.
pub open spec fn completion_signals(a: Event, b: Event, c: Event, result: CommandResult) -> bool {
    &&& signal_kind(a) < 3 && signal_kind(b) < 3 && signal_kind(c) < 3
    &&& signal_kind(a) != signal_kind(b) && signal_kind(a) != signal_kind(c) && signal_kind(b)
        != signal_kind(c)
    &&& (signal_kind(a) == 2 ==> a == Event::Exited(result))
    &&& (signal_kind(b) == 2 ==> b == Event::Exited(result))
    &&& (signal_kind(c) == 2 ==> c == Event::Exited(result))
}

/// A completion signal arriving at a step's barrier.
pub open spec fn apply_signal(ctx: RunningContext, e: Event) -> (RunningContext, Option<
    CommandResult,
>) {
    match e {
        Event::StreamClosed { is_error } => ctx.stream_done_spec(is_error),
        Event::Exited(result) => ctx.exit_spec(result),
        _ => (ctx, None),
    }
}

/// Whatever order the three completion signals of a step arrive in, the
/// barrier hands the exit outcome over on the last of them and never before,
/// and never again afterwards.
pub proof fn barrier_hands_over_once(a: Event, b: Event, c: Event, result: CommandResult)
    requires
        completion_signals(a, b, c, result),
    ensures
        ({
            let (c1, o1) = apply_signal(RunningContext::fresh(), a);
            let (c2, o2) = apply_signal(c1, b);
            let (c3, o3) = apply_signal(c2, c);
            &&& o1 is None
            &&& o2 is None
            &&& o3 == Some(result)
            &&& forall|e: Event| (#[trigger] apply_signal(c3, e)).1 is None
        }),
{
}

/// Whether no notice of `n` reports the end of step `index`.
pub open spec fn no_step_finished(n: Seq<Notice>, index: usize) -> bool {
    forall|i: int|
        0 <= i < n.len() ==> !(#[trigger] n[i] matches Notice::StepFinished { index: j, .. } && j
            == index)
}

/// The status a step ends in once its barrier hands `result` over.
pub open spec fn settled_status(cancelled: bool, result: CommandResult) -> TaskStatus {
    if cancelled {
        TaskStatus::Cancelled
    } else if result == CommandResult::Success {
        TaskStatus::Success
    } else {
        TaskStatus::Failed
    }
}

/// Whatever order the three completion signals of the step in flight arrive
/// in, its end is reported exactly once, on the last of them, and nothing
/// that follows reports it again.
pub proof fn step_finishes_once(m: RunModel, a: Event, b: Event, c: Event, result: CommandResult)
    requires
        m.wf(),
        m.phase == Phase::Running,
        m.context == RunningContext::fresh(),
        completion_signals(a, b, c, result),
    ensures
        ({
            let (m1, n1) = m.handle(a);
            let (m2, n2) = m1.handle(b);
            let (m3, n3) = m2.handle(c);
            &&& n1 == Seq::<Notice>::empty()
            &&& n2 == Seq::<Notice>::empty()
            &&& n3.len() >= 1
            &&& n3[0] == Notice::StepFinished {
                index: m.index,
                status: settled_status(m.cancelled, result),
            }
            &&& no_step_finished(n3.drop_first(), m.index)
            &&& m3.phase != Phase::Running
            &&& forall|e: Event| no_step_finished(#[trigger] m3.handle(e).1, m.index)
        }),
{
    let (m1, n1) = m.handle(a);
    let (m2, n2) = m1.handle(b);
    let (m3, n3) = m2.handle(c);
    assert forall|e: Event| no_step_finished(#[trigger] m3.handle(e).1, m.index) by {
        if m3.phase == Phase::Ready {
            assert(m3.index == m.index + 1);
        }
    }
}

/// Cancelling the step in flight asks for its process to be killed; once
/// its completion signals have arrived, in whatever order and whatever the
/// exit outcome, the step is reported cancelled, the run ends cancelled with
/// the callback told `false`, and no further step begins.
pub proof fn cancel_while_running(
    m: RunModel,
    a: Event,
    b: Event,
    c: Event,
    result: CommandResult,
)
    requires
        m.wf(),
        m.phase == Phase::Running,
        !m.cancelled,
        m.context == RunningContext::fresh(),
        completion_signals(a, b, c, result),
    ensures
        ({
            let (m0, n0) = m.handle(Event::CancelRequested);
            let (m1, n1) = m0.handle(a);
            let (m2, n2) = m1.handle(b);
            let (m3, n3) = m2.handle(c);
            &&& n0 == seq![Notice::Kill]
            &&& n1 == Seq::<Notice>::empty()
            &&& n2 == Seq::<Notice>::empty()
            &&& n3 == seq![
                Notice::StepFinished { index: m.index, status: TaskStatus::Cancelled },
                Notice::SequenceFinished { outcome: RunOutcome::Cancelled },
                Notice::Completed { success: false },
            ]
            &&& m3.phase == Phase::Finished
            &&& m3.outcome == Some(RunOutcome::Cancelled)
            &&& forall|failure: Option<ResolveError>| #[trigger] m3.begin(failure) == (
                m3,
                Seq::<Notice>::empty(),
            )
        }),
{
    let (m0, n0) = m.handle(Event::CancelRequested);
    let (m1, n1) = m0.handle(a);
    let (m2, n2) = m1.handle(b);
    let (m3, n3) = m2.handle(c);
    assert(n3 =~= seq![
        Notice::StepFinished { index: m.index, status: TaskStatus::Cancelled },
        Notice::SequenceFinished { outcome: RunOutcome::Cancelled },
        Notice::Completed { success: false },
    ]);
}

/// Once cancellation is requested for the step in flight, whatever signals
/// have already arrived, any event that ends the step reports it cancelled
/// and ends the run cancelled with the callback told `false`: an exit
/// outcome arriving after the request never makes it a failure.
pub proof fn cancellation_wins(m: RunModel, e: Event)
    requires
        m.wf(),
        m.phase == Phase::Running,
        m.cancelled,
        m.handle(e).0.phase != Phase::Running,
    ensures
        m.handle(e).0.phase == Phase::Finished,
        m.handle(e).0.outcome == Some(RunOutcome::Cancelled),
        e == Event::Closed ==> m.handle(e).1 == seq![
            Notice::Kill,
            Notice::StepFinished { index: m.index, status: TaskStatus::Cancelled },
            Notice::SequenceFinished { outcome: RunOutcome::Cancelled },
            Notice::Completed { success: false },
        ],
        e != Event::Closed ==> m.handle(e).1 == seq![
            Notice::StepFinished { index: m.index, status: TaskStatus::Cancelled },
            Notice::SequenceFinished { outcome: RunOutcome::Cancelled },
            Notice::Completed { success: false },
        ],
{
    let n = m.handle(e).1;
    if e == Event::Closed {
        assert(n =~= seq![
            Notice::Kill,
            Notice::StepFinished { index: m.index, status: TaskStatus::Cancelled },
            Notice::SequenceFinished { outcome: RunOutcome::Cancelled },
            Notice::Completed { success: false },
        ]);
    } else {
        assert(n =~= seq![
            Notice::StepFinished { index: m.index, status: TaskStatus::Cancelled },
            Notice::SequenceFinished { outcome: RunOutcome::Cancelled },
            Notice::Completed { success: false },
        ]);
    }
}

/// A helper step whose helper is neither configured nor found on the search
/// path fails to resolve, and the run that reaches it ends as failed to
/// prepare, before any process is spawned for it.
pub proof fn missing_helper_fails(
    cache: HelperCache,
    present: Seq<bool>,
    m: RunModel,
)
    requires
        cache.configured is None,
        cache.detected is None,
        forall|i: int| 0 <= i < present.len() ==> !present[i],
        m.wf(),
        m.phase == Phase::Ready,
        !m.cancelled,
        m.index < m.commands.len(),
        m.commands[m.index as int].command_type == CommandType::Aur,
    ensures
        cache.current_spec() is None,
        discovered_helper(present) is None,
        resolve_spec(m.commands[m.index as int], discovered_helper(present)) == Err::<
            (Seq<char>, Seq<Seq<char>>),
            ResolveError,
        >(ResolveError::NoHelperAvailable),
        step_failure(m, discovered_helper(present)) == Some(ResolveError::NoHelperAvailable),
        m.begin(Some(ResolveError::NoHelperAvailable)).0.phase == Phase::Finished,
        m.begin(Some(ResolveError::NoHelperAvailable)).0.outcome == Some(
            RunOutcome::PrepareFailed {
                step: (m.index + 1) as usize,
                total: m.total(),
                error: ResolveError::NoHelperAvailable,
            },
        ),
{
    assert(first_present_from(present, 2) is None);
    assert(first_present_from(present, 1) is None);
    assert(first_present_from(present, 0) is None);
}

/// A run that ends, from any event, releases the guard, after which a run of
/// any non-empty sequence is accepted; while the guard is held, a start is
/// refused.
pub proof fn guard_released_on_finish(
    m: RunModel,
    e: Event,
    running: bool,
    commands: Seq<CommandStep>,
)
    requires
        m.wf(),
        m.phase != Phase::Finished,
        m.handle(e).0.phase == Phase::Finished,
        commands.len() >= 1,
    ensures
        !guard_after(m, m.handle(e).0, running),
        start_spec(guard_after(m, m.handle(e).0, running), commands) is Ok,
        start_spec(true, commands) == Err::<RunModel, RunRejected>(RunRejected::AlreadyRunning),
{
}

/// A run that ends while beginning a step (cancelled before it, all steps
/// done, or the step not resolving) releases the guard, after which a run of
/// any non-empty sequence is accepted.
pub proof fn guard_released_on_begin(
    m: RunModel,
    failure: Option<ResolveError>,
    running: bool,
    commands: Seq<CommandStep>,
)
    requires
        m.wf(),
        m.phase != Phase::Finished,
        m.begin(failure).0.phase == Phase::Finished,
        commands.len() >= 1,
    ensures
        !guard_after(m, m.begin(failure).0, running),
        start_spec(guard_after(m, m.begin(failure).0, running), commands) is Ok,
{
}

/// A finished run ignores every event and every attempt to begin a step, so
/// it releases the guard no more than once.
pub proof fn finished_run_is_inert(
    m: RunModel,
    e: Event,
    failure: Option<ResolveError>,
    running: bool,
)
    requires
        m.phase == Phase::Finished,
    ensures
        m.handle(e) == (m, Seq::<Notice>::empty()),
        m.begin(failure) == (m, Seq::<Notice>::empty()),
        guard_after(m, m, running) == running,
{
}

/// The values handed to the completion callback by the notices `n`, in order.
pub open spec fn completion_flags(n: Seq<Notice>) -> Seq<bool>
    decreases n.len(),
{
    if n.len() == 0 {
        seq![]
    } else {
        let rest = completion_flags(n.drop_last());
        match n.last() {
            Notice::Completed { success } => rest.push(success),
            _ => rest,
        }
    }
}

/// The callback values of two runs of notices, one after the other.
pub proof fn completion_flags_concat(a: Seq<Notice>, b: Seq<Notice>)
    ensures
        completion_flags(a + b) == completion_flags(a) + completion_flags(b),
    decreases b.len(),
{
    if b.len() == 0 {
        assert(a + b =~= a);
        assert(completion_flags(a) + completion_flags(b) =~= completion_flags(a));
    } else {
        assert((a + b).drop_last() =~= a + b.drop_last());
        completion_flags_concat(a, b.drop_last());
        match b.last() {
            Notice::Completed { success } => {
                assert(completion_flags(a) + completion_flags(b.drop_last()).push(success)
                    =~= (completion_flags(a) + completion_flags(b.drop_last())).push(success));
            },
            _ => {},
        }
    }
}

/// Whether every step that `n` reports as begun lies before step `k`
/// (counted from zero).
pub open spec fn starts_before(n: Seq<Notice>, k: int) -> bool {
    forall|i: int|
        0 <= i < n.len() ==> (#[trigger] n[i] matches Notice::StepStarted { index, .. } ==> index
            < k)
}

proof fn starts_before_concat(a: Seq<Notice>, b: Seq<Notice>, k: int)
    requires
        starts_before(a, k),
        starts_before(b, k),
    ensures
        starts_before(a + b, k),
{
    assert forall|i: int| 0 <= i < (a + b).len() implies ((#[trigger] (a + b)[i]) matches Notice::StepStarted { index, .. } ==> index < k) by {
        if i >= a.len() {
            assert((a + b)[i] == b[i - a.len()]);
        }
    }
}

/// The steps, counted from zero, that the notices `n` report as begun, in
/// order.
pub open spec fn started(n: Seq<Notice>) -> Seq<usize>
    decreases n.len(),
{
    if n.len() == 0 {
        seq![]
    } else {
        let rest = started(n.drop_last());
        match n.last() {
            Notice::StepStarted { index, .. } => rest.push(index),
            _ => rest,
        }
    }
}

proof fn started_concat(a: Seq<Notice>, b: Seq<Notice>)
    ensures
        started(a + b) == started(a) + started(b),
    decreases b.len(),
{
    if b.len() == 0 {
        assert(a + b =~= a);
        assert(started(a) + started(b) =~= started(a));
    } else {
        assert((a + b).drop_last() =~= a + b.drop_last());
        started_concat(a, b.drop_last());
        match b.last() {
            Notice::StepStarted { index, .. } => {
                assert(started(a) + started(b.drop_last()).push(index) =~= (started(a) + started(
                    b.drop_last(),
                )).push(index));
            },
            _ => {},
        }
    }
}

/// What the surroundings of a run do with one of its steps: why it does not
/// resolve, if it does not; whether its process starts; the order in which
/// its three completion signals arrive; and how its process ends.
pub struct StepEnv {
    pub failure: Option<ResolveError>,
    pub spawns: bool,
    pub first: Event,
    pub second: Event,
    pub third: Event,
    pub result: CommandResult,
}

impl StepEnv {
    /// Whether the three signals are the step's completion signals, in some
    /// order.
    pub open spec fn wf(self) -> bool {
        completion_signals(self.first, self.second, self.third, self.result)
    }

    /// Whether the step resolves, starts and succeeds.
    pub open spec fn succeeds(self) -> bool {
        self.failure is None && self.spawns && self.result == CommandResult::Success
    }
}

/// A run, no cancellation requested, in which the surroundings treat step
/// `i` as `env[i]` says: the state it ends in and all the notices it gave.
pub open spec fn drive(m: RunModel, env: Seq<StepEnv>) -> (RunModel, Seq<Notice>)
    decreases m.commands.len() - m.index,
{
    let e = env[m.index as int];
    let failure = if m.index < env.len() {
        e.failure
    } else {
        None
    };
    let (m1, n1) = m.begin(failure);
    if m.phase == Phase::Ready && m1.phase == Phase::Running && m.index < env.len() {
        if !e.spawns {
            let (m2, n2) = m1.handle(Event::SpawnFailed);
            (m2, n1 + n2)
        } else {
            let (m2, n2) = m1.handle(e.first);
            let (m3, n3) = m2.handle(e.second);
            let (m4, n4) = m3.handle(e.third);
            if m4.phase == Phase::Ready && m4.commands == m.commands && m.index < m4.index
                <= m.commands.len() {
                let (m5, n5) = drive(m4, env);
                (m5, n1 + n2 + n3 + n4 + n5)
            } else {
                (m4, n1 + n2 + n3 + n4)
            }
        }
    } else {
        (m1, n1)
    }
}

/// The three completion signals of the step in flight, in any order, settle
/// it once, on the last of them.
proof fn three_signals(m: RunModel, a: Event, b: Event, c: Event, result: CommandResult)
    requires
        m.wf(),
        m.phase == Phase::Running,
        m.context == RunningContext::fresh(),
        completion_signals(a, b, c, result),
    ensures
        ({
            let (m1, n1) = m.handle(a);
            let (m2, n2) = m1.handle(b);
            let (m3, n3) = m2.handle(c);
            &&& n1 == Seq::<Notice>::empty()
            &&& n2 == Seq::<Notice>::empty()
            &&& (m3, n3) == m.settle(
                RunningContext {
                    stdout_done: true,
                    stderr_done: true,
                    exit_result: None,
                    delivered: true,
                },
                Some(result),
            )
        }),
{
}

proof fn drive_all_succeed(m: RunModel, env: Seq<StepEnv>)
    requires
        m.wf(),
        m.phase == Phase::Ready,
        !m.cancelled,
        env.len() == m.commands.len(),
        forall|j: int| m.index <= j < env.len() ==> (#[trigger] env[j]).wf() && env[j].succeeds(),
    ensures
        drive(m, env).0.phase == Phase::Finished,
        drive(m, env).0.outcome == Some(RunOutcome::Completed),
        completion_flags(drive(m, env).1) == seq![true],
        started(drive(m, env).1) == Seq::new(
            (m.commands.len() - m.index) as nat,
            |i: int| (m.index + i) as usize,
        ),
    decreases m.commands.len() - m.index,
{
    reveal_with_fuel(completion_flags, 4);
    reveal_with_fuel(started, 4);
    let (m1, n1) = m.begin(None);
    if m.index < m.commands.len() {
        let e = env[m.index as int];
        three_signals(m1, e.first, e.second, e.third, e.result);
        let (m2, n2) = m1.handle(e.first);
        let (m3, n3) = m2.handle(e.second);
        let (m4, n4) = m3.handle(e.third);
        drive_all_succeed(m4, env);
        let (m5, n5) = drive(m4, env);
        completion_flags_concat(n1, n2);
        completion_flags_concat(n1 + n2, n3);
        completion_flags_concat(n1 + n2 + n3, n4);
        completion_flags_concat(n1 + n2 + n3 + n4, n5);
        started_concat(n1, n2);
        started_concat(n1 + n2, n3);
        started_concat(n1 + n2 + n3, n4);
        started_concat(n1 + n2 + n3 + n4, n5);
        assert(completion_flags(n1) =~= seq![]);
        assert(completion_flags(n4) =~= seq![]);
        assert(started(n1) =~= seq![m.index]);
        assert(started(n4) =~= seq![]);
        assert(completion_flags(n1 + n2 + n3 + n4 + n5) =~= seq![true]);
        assert(started(n1 + n2 + n3 + n4 + n5) =~= Seq::new(
            (m.commands.len() - m.index) as nat,
            |i: int| (m.index + i) as usize,
        ));
    } else {
        assert(completion_flags(n1) =~= seq![true]);
        assert(started(n1) =~= seq![]);
        assert(Seq::new((m.commands.len() - m.index) as nat, |i: int| (m.index + i) as usize)
            =~= seq![]);
    }
}

/// When every step resolves, starts and succeeds, whatever order each
/// step's completion signals arrive in, every step begins exactly once and
/// in order, the run completes, and the completion callback is told `true`,
/// exactly once.
pub proof fn all_steps_succeed(commands: Seq<CommandStep>, env: Seq<StepEnv>)
    requires
        1 <= commands.len() <= usize::MAX,
        env.len() == commands.len(),
        forall|i: int| 0 <= i < env.len() ==> (#[trigger] env[i]).wf() && env[i].succeeds(),
    ensures
        drive(RunModel::initial(commands), env).0.phase == Phase::Finished,
        drive(RunModel::initial(commands), env).0.outcome == Some(RunOutcome::Completed),
        completion_flags(drive(RunModel::initial(commands), env).1) == seq![true],
        started(drive(RunModel::initial(commands), env).1) == Seq::new(
            commands.len(),
            |i: int| i as usize,
        ),
{
    drive_all_succeed(RunModel::initial(commands), env);
    assert(Seq::new((commands.len() - 0) as nat, |i: int| (0 + i) as usize) =~= Seq::new(
        commands.len(),
        |i: int| i as usize,
    ));
}

/// The outcome of a run whose step `k` (counted from one) of `total` is the
/// first to fail, in the way `e` says.
pub open spec fn failure_outcome(e: StepEnv, k: int, total: int) -> RunOutcome {
    match e.failure {
        Some(error) => RunOutcome::PrepareFailed { step: k as usize, total: total as usize, error },
        None => if !e.spawns {
            RunOutcome::StartFailed { step: k as usize, total: total as usize }
        } else {
            RunOutcome::FailedAt {
                step: k as usize,
                total: total as usize,
                exit_code: e.result->exit_code,
            }
        },
    }
}

/// The message of every failed run names the failing step, counted from one,
/// out of how many.
pub proof fn failure_message_names_step(outcome: RunOutcome)
    ensures
        outcome matches RunOutcome::FailedAt { step, total, .. } ==> failure_prefix(
            step,
            total,
        ).is_prefix_of(outcome.message_spec()),
        outcome matches RunOutcome::PrepareFailed { step, total, .. } ==> failure_prefix(
            step,
            total,
        ).is_prefix_of(outcome.message_spec()),
        outcome matches RunOutcome::StartFailed { step, total } ==> failure_prefix(
            step,
            total,
        ).is_prefix_of(outcome.message_spec()),
{
    match outcome {
        RunOutcome::FailedAt { step, total, .. } => {
            let p = failure_prefix(step, total);
            assert(outcome.message_spec().subrange(0, p.len() as int) =~= p);
        },
        RunOutcome::PrepareFailed { step, total, error } => {
            let p = failure_prefix(step, total);
            assert(outcome.message_spec().subrange(0, p.len() as int) =~= p);
        },
        RunOutcome::StartFailed { step, total } => {
            let p = failure_prefix(step, total);
            assert(outcome.message_spec().subrange(0, p.len() as int) =~= p);
        },
        _ => {},
    }
}

proof fn drive_first_failure(m: RunModel, env: Seq<StepEnv>, k: int)
    requires
        m.wf(),
        m.phase == Phase::Ready,
        !m.cancelled,
        env.len() == m.commands.len(),
        m.index < k <= m.commands.len(),
        forall|j: int| m.index <= j < env.len() ==> (#[trigger] env[j]).wf(),
        forall|j: int| m.index <= j < k - 1 ==> (#[trigger] env[j]).succeeds(),
        !env[k - 1].succeeds(),
    ensures
        drive(m, env).0.phase == Phase::Finished,
        drive(m, env).0.outcome == Some(failure_outcome(env[k - 1], k, m.commands.len() as int)),
        completion_flags(drive(m, env).1) == seq![false],
        starts_before(drive(m, env).1, k),
    decreases m.commands.len() - m.index,
{
    reveal_with_fuel(completion_flags, 5);
    let e = env[m.index as int];
    let (m1, n1) = m.begin(e.failure);
    if e.failure is Some {
        assert(completion_flags(n1) =~= seq![false]);
        assert(starts_before(n1, k));
    } else if !e.spawns {
        let (m2, n2) = m1.handle(Event::SpawnFailed);
        completion_flags_concat(n1, n2);
        assert(completion_flags(n1) =~= seq![]);
        assert(completion_flags(n2) =~= seq![false]);
        assert(starts_before(n1, k));
        assert(starts_before(n2, k));
        starts_before_concat(n1, n2, k);
    } else {
        three_signals(m1, e.first, e.second, e.third, e.result);
        let (m2, n2) = m1.handle(e.first);
        let (m3, n3) = m2.handle(e.second);
        let (m4, n4) = m3.handle(e.third);
        assert(n2 =~= seq![]);
        assert(n3 =~= seq![]);
        completion_flags_concat(n1, n2);
        completion_flags_concat(n1 + n2, n3);
        completion_flags_concat(n1 + n2 + n3, n4);
        assert(completion_flags(n1) =~= seq![]);
        assert(starts_before(n1, k));
        assert(starts_before(n2, k));
        assert(starts_before(n3, k));
        assert(starts_before(n4, k));
        starts_before_concat(n1, n2, k);
        starts_before_concat(n1 + n2, n3, k);
        starts_before_concat(n1 + n2 + n3, n4, k);
        if m.index < k - 1 {
            drive_first_failure(m4, env, k);
            let (m5, n5) = drive(m4, env);
            completion_flags_concat(n1 + n2 + n3 + n4, n5);
            starts_before_concat(n1 + n2 + n3 + n4, n5, k);
            assert(completion_flags(n4) =~= seq![]);
            assert(completion_flags(n1 + n2 + n3 + n4 + n5) =~= seq![false]);
        } else {
            assert(completion_flags(n4) =~= seq![false]);
            assert(completion_flags(n1 + n2 + n3 + n4) =~= seq![false]);
        }
    }
}

/// When step `k` (counted from one) is the first to fail, by not resolving,
/// not starting or exiting unsuccessfully, whatever order the completion
/// signals arrive in: the run ends failed at step `k` of all, keeping the
/// resolution error or exit code, with a message that names step `k` of
/// all; the completion callback is told `false`, exactly once; and no step
/// after `k` begins.
pub proof fn first_failure_stops_run(commands: Seq<CommandStep>, env: Seq<StepEnv>, k: int)
    requires
        1 <= commands.len() <= usize::MAX,
        env.len() == commands.len(),
        1 <= k <= commands.len(),
        forall|i: int| 0 <= i < env.len() ==> (#[trigger] env[i]).wf(),
        forall|i: int| 0 <= i < k - 1 ==> (#[trigger] env[i]).succeeds(),
        !env[k - 1].succeeds(),
    ensures
        drive(RunModel::initial(commands), env).0.phase == Phase::Finished,
        drive(RunModel::initial(commands), env).0.outcome == Some(
            failure_outcome(env[k - 1], k, commands.len() as int),
        ),
        failure_prefix(k as usize, commands.len() as usize).is_prefix_of(
            failure_outcome(env[k - 1], k, commands.len() as int).message_spec(),
        ),
        completion_flags(drive(RunModel::initial(commands), env).1) == seq![false],
        starts_before(drive(RunModel::initial(commands), env).1, k),
{
    drive_first_failure(RunModel::initial(commands), env, k);
    failure_message_names_step(failure_outcome(env[k - 1], k, commands.len() as int));
}

/// The guard is held exactly while a run is unfinished: starting a run takes
/// it, and every later call on the run, an event or the beginning of a step,
/// keeps the two in step, so the guard is released once, when the run ends.
pub proof fn guard_tracks_run(
    m: RunModel,
    running: bool,
    e: Event,
    failure: Option<ResolveError>,
    commands: Seq<CommandStep>,
)
    requires
        m.wf(),
        running == (m.phase != Phase::Finished),
        1 <= commands.len() <= usize::MAX,
    ensures
        start_spec(false, commands) matches Ok(s) && s.wf() && s.phase != Phase::Finished,
        guard_after(m, m.handle(e).0, running) == (m.handle(e).0.phase != Phase::Finished),
        guard_after(m, m.begin(failure).0, running) == (m.begin(failure).0.phase
            != Phase::Finished),
{
}

} // verus!
