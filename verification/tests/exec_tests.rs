use usereport::command::{Command, CommandResult};
use usereport::exec::{ExecAction, ExecEvent, Execution, Step};

fn sleep() -> Command { Command::new("sleep", "/bin/sleep 5").with_timeout(2) }

fn failed(reason: &str) -> ExecEvent {
    ExecEvent::Failed {
        reason: reason.to_string(),
    }
}

/// Feeds the events to an execution of the command and returns the actions
/// that it asked for and the result that it ended in, if it did.
fn course(command: Command, events: Vec<ExecEvent>) -> (Vec<String>, Option<CommandResult>) {
    let mut actions = Vec::new();
    let mut step = Execution::begin(command);
    let mut events = events.into_iter();
    loop {
        match step {
            Step::Done { result } => return (actions, Some(result)),
            Step::Continue { execution, action } => {
                actions.push(match action {
                    ExecAction::CreateSink => "sink".to_string(),
                    ExecAction::Spawn { args } => format!("spawn {:?}", args),
                    ExecAction::Wait { timeout_sec } => format!("wait {}", timeout_sec),
                    ExecAction::ReadOutput => "read".to_string(),
                    ExecAction::Kill => "kill".to_string(),
                    ExecAction::Reap => "reap".to_string(),
                });
                match events.next() {
                    Some(event) => step = execution.step(event),
                    None => return (actions, None),
                }
            }
        }
    }
}

#[test]
fn exec_success_course() {
    let (actions, result) = course(sleep(), vec![
        ExecEvent::Ready,
        ExecEvent::Ready,
        ExecEvent::Exited {
            success:     true,
            run_time_ms: 12,
        },
        ExecEvent::Output {
            stdout: "done\n".to_string(),
        },
    ]);

    assert_eq!(actions, vec!["sink", r#"spawn ["/bin/sleep", "5"]"#, "wait 2", "read"]);
    assert_eq!(
        result,
        Some(CommandResult::Success {
            command:     sleep(),
            run_time_ms: 12,
            stdout:      "done\n".to_string(),
        })
    );
}

#[test]
fn exec_failed_course_keeps_output() {
    let (actions, result) = course(sleep(), vec![
        ExecEvent::Ready,
        ExecEvent::Ready,
        ExecEvent::Exited {
            success:     false,
            run_time_ms: 7,
        },
        ExecEvent::Output {
            stdout: "oops".to_string(),
        },
    ]);

    assert_eq!(actions.len(), 4);
    assert_eq!(
        result,
        Some(CommandResult::Failed {
            command:     sleep(),
            run_time_ms: 7,
            stdout:      "oops".to_string(),
        })
    );
}

#[test]
fn exec_timeout_course_kills_and_reaps() {
    let (actions, result) = course(sleep(), vec![
        ExecEvent::Ready,
        ExecEvent::Ready,
        ExecEvent::TimedOut { run_time_ms: 2001 },
        ExecEvent::Ready,
        ExecEvent::Ready,
    ]);

    assert_eq!(actions, vec!["sink", r#"spawn ["/bin/sleep", "5"]"#, "wait 2", "kill", "reap"]);
    assert_eq!(
        result,
        Some(CommandResult::Timeout {
            command:     sleep(),
            run_time_ms: 2001,
        })
    );
}

#[test]
fn exec_timeout_is_not_reported_before_the_process_is_gone() {
    let (actions, result) = course(sleep(), vec![
        ExecEvent::Ready,
        ExecEvent::Ready,
        ExecEvent::TimedOut { run_time_ms: 2001 },
    ]);
    assert_eq!(actions.last().map(String::as_str), Some("kill"));
    assert_eq!(result, None);

    let (actions, result) = course(sleep(), vec![
        ExecEvent::Ready,
        ExecEvent::Ready,
        ExecEvent::TimedOut { run_time_ms: 2001 },
        ExecEvent::Ready,
    ]);
    assert_eq!(actions.last().map(String::as_str), Some("reap"));
    assert_eq!(result, None);
}

#[test]
fn exec_default_timeout_is_one_second() {
    let (actions, _) = course(Command::new("true", "/bin/true"), vec![ExecEvent::Ready, ExecEvent::Ready]);

    assert_eq!(actions, vec!["sink", r#"spawn ["/bin/true"]"#, "wait 1"]);
}

#[test]
fn exec_unsplittable_command_line_is_an_error_at_once() {
    let command = Command::new("broken", "echo 'no end");
    let (actions, result) = course(command.clone(), vec![]);

    assert!(actions.is_empty());
    assert_eq!(
        result,
        Some(CommandResult::Error {
            command,
            reason: "failed to split command into arguments".to_string(),
        })
    );
}

#[test]
fn exec_sink_failure_is_an_error() {
    let (actions, result) = course(sleep(), vec![failed("no space left on device")]);

    assert_eq!(actions, vec!["sink"]);
    assert_eq!(
        result,
        Some(CommandResult::Error {
            command: sleep(),
            reason:  "no space left on device".to_string(),
        })
    );
}

#[test]
fn exec_spawn_failure_is_an_error() {
    let (actions, result) = course(sleep(), vec![ExecEvent::Ready, failed("No such file or directory")]);

    assert_eq!(actions.len(), 2);
    assert_eq!(
        result,
        Some(CommandResult::Error {
            command: sleep(),
            reason:  "No such file or directory".to_string(),
        })
    );
}

#[test]
fn exec_wait_failure_stops_the_process_first() {
    let (actions, result) = course(sleep(), vec![
        ExecEvent::Ready,
        ExecEvent::Ready,
        failed("waitpid failed"),
        ExecEvent::Ready,
        ExecEvent::Ready,
    ]);

    assert_eq!(actions, vec!["sink", r#"spawn ["/bin/sleep", "5"]"#, "wait 2", "kill", "reap"]);
    assert_eq!(
        result,
        Some(CommandResult::Error {
            command: sleep(),
            reason:  "waitpid failed".to_string(),
        })
    );
}

#[test]
fn exec_read_failure_is_an_error() {
    let (_, result) = course(sleep(), vec![
        ExecEvent::Ready,
        ExecEvent::Ready,
        ExecEvent::Exited {
            success:     true,
            run_time_ms: 3,
        },
        failed("seek failed"),
    ]);

    assert_eq!(
        result,
        Some(CommandResult::Error {
            command: sleep(),
            reason:  "seek failed".to_string(),
        })
    );
}

#[test]
fn exec_kill_failure_is_an_error() {
    let (actions, result) = course(sleep(), vec![
        ExecEvent::Ready,
        ExecEvent::Ready,
        ExecEvent::TimedOut { run_time_ms: 2000 },
        failed("failed to kill command"),
    ]);

    assert_eq!(actions.last().map(String::as_str), Some("kill"));
    assert_eq!(
        result,
        Some(CommandResult::Error {
            command: sleep(),
            reason:  "failed to kill command".to_string(),
        })
    );
}

#[test]
fn exec_reap_failure_is_an_error() {
    let (_, result) = course(sleep(), vec![
        ExecEvent::Ready,
        ExecEvent::Ready,
        ExecEvent::TimedOut { run_time_ms: 2000 },
        ExecEvent::Ready,
        failed("failed to wait for command to finish"),
    ]);

    assert_eq!(
        result,
        Some(CommandResult::Error {
            command: sleep(),
            reason:  "failed to wait for command to finish".to_string(),
        })
    );
}

#[test]
fn exec_unexpected_event_is_an_error() {
    let unexpected = "unexpected event while executing command".to_string();

    let (_, result) = course(sleep(), vec![ExecEvent::Output {
        stdout: String::new(),
    }]);
    assert_eq!(
        result,
        Some(CommandResult::Error {
            command: sleep(),
            reason:  unexpected.clone(),
        })
    );

    let (actions, result) = course(sleep(), vec![
        ExecEvent::Ready,
        ExecEvent::Ready,
        ExecEvent::Ready,
        ExecEvent::Ready,
        ExecEvent::Ready,
    ]);
    assert_eq!(actions.last().map(String::as_str), Some("reap"));
    assert_eq!(
        result,
        Some(CommandResult::Error {
            command: sleep(),
            reason:  unexpected,
        })
    );
}

#[test]
fn exec_ends_after_at_most_five_events() {
    let events = || {
        vec![
            ExecEvent::Ready,
            ExecEvent::Ready,
            ExecEvent::TimedOut { run_time_ms: 1 },
            ExecEvent::Ready,
            ExecEvent::Ready,
            ExecEvent::Ready,
        ]
    };
    let (actions, result) = course(sleep(), events());

    assert_eq!(actions.len(), 5);
    assert!(result.is_some());
}

#[test]
fn exec_begin_with_uses_the_words_given() {
    let command = Command::new("any", "ignored here");
    let step = Execution::begin_with(command.clone(), Ok(vec!["a".to_string(), "b c".to_string()]));
    let execution = match step {
        Step::Continue { execution, action } => {
            assert!(matches!(action, ExecAction::CreateSink));
            execution
        }
        Step::Done { .. } => panic!("execution ended before it began"),
    };
    assert_eq!(execution.command(), &command);
    match execution.step(ExecEvent::Ready) {
        Step::Continue {
            action: ExecAction::Spawn { args },
            ..
        } => assert_eq!(args, vec!["a".to_string(), "b c".to_string()]),
        _ => panic!("expected the process to be spawned"),
    }
}
