use xero_toolkit::barrier::{CommandResult, RunningContext};
use xero_toolkit::command::{CommandStep, CommandType};
use xero_toolkit::executor::{
    execute_commands, finalize_execution, is_action_running, run_commands_with_progress,
    ActionGuard, Event, Notice, Phase, RunOutcome, RunRejected, SequenceRun, TaskStatus,
};
use xero_toolkit::resolve::{resolve_command, select_helper, HelperCache, ResolveError};

fn steps(n: usize) -> Vec<CommandStep> {
    (0..n)
        .map(|i| CommandStep::normal("true", &[], &format!("step {}", i)))
        .collect()
}

fn close_streams_and_exit(
    run: &mut SequenceRun,
    guard: &mut ActionGuard,
    result: CommandResult,
) -> Vec<Notice> {
    let mut out = run.handle_event(guard, Event::StreamClosed { is_error: false });
    out.extend(run.handle_event(guard, Event::StreamClosed { is_error: true }));
    out.extend(run.handle_event(guard, Event::Exited(result)));
    out
}

fn completions(notices: &[Notice]) -> Vec<bool> {
    notices
        .iter()
        .filter_map(|n| match n {
            Notice::Completed { success } => Some(*success),
            _ => None,
        })
        .collect()
}

#[test]
fn command_constructors_keep_parts() {
    let c = CommandStep::new(CommandType::Privileged, "systemctl", &["enable", "x"], "Enable x");
    assert_eq!(c.command_type, CommandType::Privileged);
    assert_eq!(c.command, "systemctl");
    assert_eq!(c.args, vec!["enable".to_string(), "x".to_string()]);
    assert_eq!(c.friendly_name, "Enable x");
    let a = CommandStep::aur(&["-S", "pkg"], "Install pkg");
    assert_eq!(a.command_type, CommandType::Aur);
    assert_eq!(a.command, "aur");
    assert_eq!(CommandStep::normal("ls", &[], "l").command_type, CommandType::Normal);
    assert_eq!(CommandStep::privileged("ls", &[], "l").command_type, CommandType::Privileged);
}

#[test]
fn resolve_normal_is_unchanged() {
    let c = CommandStep::normal("echo", &["a", "b"], "Echo");
    let r = resolve_command(&c, &HelperCache::new(None)).unwrap();
    assert_eq!(r, ("echo".to_string(), vec!["a".to_string(), "b".to_string()]));
}

#[test]
fn resolve_privileged_wraps_in_pkexec() {
    let c = CommandStep::privileged("systemctl", &["enable", "docker"], "Enable");
    let r = resolve_command(&c, &HelperCache::new(None)).unwrap();
    assert_eq!(r.0, "pkexec");
    assert_eq!(r.1, vec!["systemctl", "enable", "docker"]);
}

#[test]
fn resolve_helper_uses_configured_helper() {
    let c = CommandStep::aur(&["-S", "pkg"], "Install");
    let r = resolve_command(&c, &HelperCache::new(Some("yay".to_string()))).unwrap();
    assert_eq!(r.0, "yay");
    assert_eq!(r.1, vec!["--sudo", "pkexec", "-S", "pkg"]);
}

#[test]
fn helper_discovery_prefers_first_known() {
    assert_eq!(select_helper(&vec![true, true]), Some("paru".to_string()));
    assert_eq!(select_helper(&vec![false, true]), Some("yay".to_string()));
    assert_eq!(select_helper(&vec![false, false]), None);
    let mut cache = HelperCache::new(None);
    assert!(cache.needs_discovery());
    assert_eq!(cache.record_discovery(&vec![false, true]), Some("yay".to_string()));
    assert!(!cache.needs_discovery());
    // the first discovery is kept for the rest of the process
    assert_eq!(cache.record_discovery(&vec![true, true]), Some("yay".to_string()));
    let mut configured = HelperCache::new(Some("paru".to_string()));
    assert_eq!(configured.record_discovery(&vec![false, true]), Some("paru".to_string()));
}

#[test]
fn missing_helper_fails_before_spawn() {
    let mut cache = HelperCache::new(None);
    assert_eq!(cache.record_discovery(&vec![false, false]), None);
    let c = CommandStep::aur(&["-S", "pkg"], "Install");
    assert_eq!(resolve_command(&c, &cache), Err(ResolveError::NoHelperAvailable));
    assert_eq!(
        ResolveError::NoHelperAvailable.message(),
        "AUR helper not available (paru or yay required)"
    );

    let mut guard = ActionGuard::new();
    let mut run = run_commands_with_progress(&mut guard, vec![c]).unwrap();
    let (notices, invocation) = execute_commands(&mut run, &mut guard, &cache);
    assert!(invocation.is_none());
    assert_eq!(
        notices,
        vec![
            Notice::StepStarted { index: 0, total: 1 },
            Notice::StepFinished { index: 0, status: TaskStatus::Failed },
            Notice::SequenceFinished {
                outcome: RunOutcome::PrepareFailed {
                    step: 1,
                    total: 1,
                    error: ResolveError::NoHelperAvailable,
                },
            },
            Notice::Completed { success: false },
        ]
    );
    assert_eq!(
        run.outcome().unwrap().message(),
        "Operation failed at step 1 of 1: AUR helper not available (paru or yay required)"
    );
    assert!(!is_action_running(&guard));
}

#[test]
fn all_steps_succeeding_completes_once() {
    let mut guard = ActionGuard::new();
    let helpers = HelperCache::new(None);
    let mut run = run_commands_with_progress(&mut guard, steps(3)).unwrap();
    let mut all = Vec::new();
    for i in 0..3 {
        let (notices, invocation) = execute_commands(&mut run, &mut guard, &helpers);
        assert_eq!(notices, vec![Notice::StepStarted { index: i, total: 3 }]);
        assert_eq!(invocation, Some(("true".to_string(), vec![])));
        all.extend(notices);
        all.extend(close_streams_and_exit(&mut run, &mut guard, CommandResult::Success));
    }
    let (notices, invocation) = execute_commands(&mut run, &mut guard, &helpers);
    assert!(invocation.is_none());
    all.extend(notices);
    assert_eq!(completions(&all), vec![true]);
    assert_eq!(run.outcome(), Some(RunOutcome::Completed));
    assert_eq!(run.phase(), Phase::Finished);
    assert!(!is_action_running(&guard));
    assert_eq!(RunOutcome::Completed.message(), "All operations completed successfully!");
}

#[test]
fn first_failure_stops_the_run() {
    let mut guard = ActionGuard::new();
    let helpers = HelperCache::new(None);
    let mut run = run_commands_with_progress(&mut guard, steps(3)).unwrap();
    let mut all = Vec::new();
    let (n, _) = execute_commands(&mut run, &mut guard, &helpers);
    all.extend(n);
    all.extend(close_streams_and_exit(&mut run, &mut guard, CommandResult::Success));
    let (n, _) = execute_commands(&mut run, &mut guard, &helpers);
    all.extend(n);
    let failure = CommandResult::Failure { exit_code: Some(3) };
    all.extend(close_streams_and_exit(&mut run, &mut guard, failure));
    let outcome = RunOutcome::FailedAt { step: 2, total: 3, exit_code: Some(3) };
    assert_eq!(run.outcome(), Some(outcome));
    assert_eq!(outcome.message(), "Operation failed at step 2 of 3");
    assert_eq!(completions(&all), vec![false]);
    // nothing further begins
    let (n, invocation) = execute_commands(&mut run, &mut guard, &helpers);
    assert!(n.is_empty());
    assert!(invocation.is_none());
    assert!(!all.iter().any(|n| matches!(n, Notice::StepStarted { index: 2, .. })));
    assert!(!is_action_running(&guard));
}

#[test]
fn cancelling_running_step_ends_run_cancelled() {
    let mut guard = ActionGuard::new();
    let helpers = HelperCache::new(None);
    let mut run = run_commands_with_progress(&mut guard, steps(3)).unwrap();
    execute_commands(&mut run, &mut guard, &helpers);
    close_streams_and_exit(&mut run, &mut guard, CommandResult::Success);
    execute_commands(&mut run, &mut guard, &helpers);
    assert_eq!(run.handle_event(&mut guard, Event::CancelRequested), vec![Notice::Kill]);
    assert!(run.is_cancelled());
    // a second request does not kill again
    assert!(run.handle_event(&mut guard, Event::CancelRequested).is_empty());
    assert!(is_action_running(&guard));
    // the killed process exits unsuccessfully: cancellation wins
    let n = close_streams_and_exit(&mut run, &mut guard, CommandResult::Failure { exit_code: Some(137) });
    assert_eq!(
        n,
        vec![
            Notice::StepFinished { index: 1, status: TaskStatus::Cancelled },
            Notice::SequenceFinished { outcome: RunOutcome::Cancelled },
            Notice::Completed { success: false },
        ]
    );
    let (n, invocation) = execute_commands(&mut run, &mut guard, &helpers);
    assert!(n.is_empty() && invocation.is_none());
    assert!(!is_action_running(&guard));
    assert_eq!(RunOutcome::Cancelled.message(), "Operation cancelled by user");
}

#[test]
fn barrier_fires_once_in_every_order() {
    let signals = [
        Event::StreamClosed { is_error: false },
        Event::StreamClosed { is_error: true },
        Event::Exited(CommandResult::Failure { exit_code: Some(1) }),
    ];
    let orders = [[0, 1, 2], [0, 2, 1], [1, 0, 2], [1, 2, 0], [2, 0, 1], [2, 1, 0]];
    for order in orders {
        let mut ctx = RunningContext::new();
        let mut handed = Vec::new();
        for &k in order.iter() {
            handed.push(match signals[k] {
                Event::StreamClosed { is_error } => ctx.mark_stream_done(is_error),
                Event::Exited(r) => ctx.set_exit_result(r),
                _ => unreachable!(),
            });
        }
        assert_eq!(
            handed,
            vec![None, None, Some(CommandResult::Failure { exit_code: Some(1) })]
        );
        assert_eq!(ctx.try_finalize(), None);
        assert_eq!(ctx.mark_stream_done(false), None);

        // the same orders at the level of the run
        let mut guard = ActionGuard::new();
        let mut run = run_commands_with_progress(&mut guard, steps(2)).unwrap();
        execute_commands(&mut run, &mut guard, &HelperCache::new(None));
        let mut finished = 0;
        for (pos, &k) in order.iter().enumerate() {
            let n = run.handle_event(&mut guard, signals[k]);
            let count = n
                .iter()
                .filter(|x| matches!(x, Notice::StepFinished { index: 0, .. }))
                .count();
            if pos < 2 {
                assert_eq!(count, 0);
            }
            finished += count;
        }
        assert_eq!(finished, 1);
    }
}

#[test]
fn guard_rejects_second_run_and_is_released() {
    let mut guard = ActionGuard::new();
    let helpers = HelperCache::new(None);
    assert!(matches!(
        run_commands_with_progress(&mut guard, Vec::new()),
        Err(RunRejected::Empty)
    ));
    assert!(!is_action_running(&guard));
    let mut run = run_commands_with_progress(&mut guard, steps(1)).unwrap();
    assert!(is_action_running(&guard));
    assert!(matches!(
        run_commands_with_progress(&mut guard, steps(1)),
        Err(RunRejected::AlreadyRunning)
    ));
    assert!(is_action_running(&guard));
    execute_commands(&mut run, &mut guard, &helpers);
    close_streams_and_exit(&mut run, &mut guard, CommandResult::Success);
    execute_commands(&mut run, &mut guard, &helpers);
    assert!(!is_action_running(&guard));
    // after success, failure and cancellation alike a new run starts
    let mut run = run_commands_with_progress(&mut guard, steps(1)).unwrap();
    execute_commands(&mut run, &mut guard, &helpers);
    run.handle_event(&mut guard, Event::SpawnFailed);
    assert_eq!(run.outcome(), Some(RunOutcome::StartFailed { step: 1, total: 1 }));
    assert_eq!(
        RunOutcome::StartFailed { step: 1, total: 1 }.message(),
        "Operation failed at step 1 of 1: the command could not be started"
    );
    assert!(!is_action_running(&guard));
    let mut run = run_commands_with_progress(&mut guard, steps(2)).unwrap();
    run.handle_event(&mut guard, Event::CancelRequested);
    let (n, _) = execute_commands(&mut run, &mut guard, &helpers);
    assert_eq!(
        n,
        vec![
            Notice::StepFinished { index: 0, status: TaskStatus::Cancelled },
            Notice::SequenceFinished { outcome: RunOutcome::Cancelled },
            Notice::Completed { success: false },
        ]
    );
    assert!(!is_action_running(&guard));
    assert!(run_commands_with_progress(&mut guard, steps(1)).is_ok());
}

#[test]
fn closing_window_releases_guard() {
    let mut guard = ActionGuard::new();
    let mut run = run_commands_with_progress(&mut guard, steps(2)).unwrap();
    execute_commands(&mut run, &mut guard, &HelperCache::new(None));
    let n = run.handle_event(&mut guard, Event::Closed);
    assert_eq!(n[0], Notice::Kill);
    assert_eq!(completions(&n), vec![false]);
    assert!(!is_action_running(&guard));
    assert!(run.handle_event(&mut guard, Event::Closed).is_empty());
}

#[test]
fn finalize_execution_releases_guard() {
    let mut guard = ActionGuard::new();
    let _run = run_commands_with_progress(&mut guard, steps(1)).unwrap();
    let n = finalize_execution(&mut guard, RunOutcome::Completed);
    assert_eq!(
        n,
        vec![
            Notice::SequenceFinished { outcome: RunOutcome::Completed },
            Notice::Completed { success: true },
        ]
    );
    assert!(!is_action_running(&guard));
}

#[test]
fn echo_then_false_fails_at_second_step() {
    let commands = vec![
        CommandStep::normal("echo", &["a"], "Echo"),
        CommandStep::normal("false", &[], "False"),
    ];
    let mut guard = ActionGuard::new();
    let helpers = HelperCache::new(None);
    let mut run = run_commands_with_progress(&mut guard, commands).unwrap();
    let (_, inv) = execute_commands(&mut run, &mut guard, &helpers);
    assert_eq!(inv, Some(("echo".to_string(), vec!["a".to_string()])));
    let n = close_streams_and_exit(&mut run, &mut guard, CommandResult::Success);
    assert_eq!(n, vec![Notice::StepFinished { index: 0, status: TaskStatus::Success }]);
    let (_, inv) = execute_commands(&mut run, &mut guard, &helpers);
    assert_eq!(inv, Some(("false".to_string(), vec![])));
    let n = close_streams_and_exit(&mut run, &mut guard, CommandResult::Failure { exit_code: Some(1) });
    let outcome = RunOutcome::FailedAt { step: 2, total: 2, exit_code: Some(1) };
    assert_eq!(
        n,
        vec![
            Notice::StepFinished { index: 1, status: TaskStatus::Failed },
            Notice::SequenceFinished { outcome },
            Notice::Completed { success: false },
        ]
    );
    assert_eq!(outcome.message(), "Operation failed at step 2 of 2");
    assert_eq!(run.total(), 2);
    assert_eq!(run.current_index(), 1);
    assert_eq!(run.command(1).command, "false");
}

#[test]
fn failure_message_has_multi_digit_numbers() {
    let o = RunOutcome::FailedAt { step: 10, total: 120, exit_code: None };
    assert_eq!(o.message(), "Operation failed at step 10 of 120");
    assert!(!o.is_success());
    assert!(RunOutcome::Completed.is_success());
}

#[test]
fn prepare_failure_names_later_step() {
    let mut guard = ActionGuard::new();
    let mut cache = HelperCache::new(None);
    cache.record_discovery(&vec![false, false]);
    let commands = vec![
        CommandStep::normal("true", &[], "first"),
        CommandStep::aur(&["-S", "pkg"], "second"),
        CommandStep::normal("true", &[], "third"),
    ];
    let mut run = run_commands_with_progress(&mut guard, commands).unwrap();
    execute_commands(&mut run, &mut guard, &cache);
    close_streams_and_exit(&mut run, &mut guard, CommandResult::Success);
    let (n, invocation) = execute_commands(&mut run, &mut guard, &cache);
    assert!(invocation.is_none());
    assert_eq!(completions(&n), vec![false]);
    let outcome = run.outcome().unwrap();
    assert_eq!(
        outcome.message(),
        "Operation failed at step 2 of 3: AUR helper not available (paru or yay required)"
    );
    let (n, invocation) = execute_commands(&mut run, &mut guard, &cache);
    assert!(n.is_empty() && invocation.is_none());
    assert!(!is_action_running(&guard));
}

#[test]
fn start_failure_names_step() {
    let mut guard = ActionGuard::new();
    let helpers = HelperCache::new(None);
    let mut run = run_commands_with_progress(&mut guard, steps(12)).unwrap();
    for _ in 0..10 {
        execute_commands(&mut run, &mut guard, &helpers);
        close_streams_and_exit(&mut run, &mut guard, CommandResult::Success);
    }
    execute_commands(&mut run, &mut guard, &helpers);
    let n = run.handle_event(&mut guard, Event::SpawnFailed);
    assert_eq!(n[0], Notice::StepFinished { index: 10, status: TaskStatus::Failed });
    assert_eq!(
        run.outcome().unwrap().message(),
        "Operation failed at step 11 of 12: the command could not be started"
    );
    assert!(!is_action_running(&guard));
}

#[test]
fn zero_is_written_as_a_digit() {
    let o = RunOutcome::FailedAt { step: 0, total: 7, exit_code: Some(2) };
    assert_eq!(o.message(), "Operation failed at step 0 of 7");
}
