use std::io::{Read, Seek, SeekFrom};
use std::sync::mpsc;
use std::time::{Duration, Instant};

use subprocess::{Popen, PopenConfig, Redirection};
use usereport::analysis::{Analysis, Context, Uname};
use usereport::command::{Command, CommandResult};
use usereport::exec::{ExecAction, ExecEvent, Execution, Step};
use usereport::runner::{ChunkEvent, Error, Runner, Schedule, ThreadRunner};

/// What the output of a process is read back from.
trait Sink: Read + Seek {}

impl<T: Read + Seek> Sink for T {}

/// One command on its way through the execution unit, with what the actions
/// of the unit created for it.
struct Job {
    step:    Option<Step>,
    sink:    Option<Box<dyn Sink>>,
    output:  Option<Redirection>,
    process: Option<Popen>,
    started: Instant,
}

fn failed<E: ToString>(cause: E) -> ExecEvent {
    ExecEvent::Failed {
        reason: cause.to_string(),
    }
}

impl Job {
    fn new(command: Command) -> Job {
        Job {
            step:    Some(Execution::begin(command)),
            sink:    None,
            output:  None,
            process: None,
            started: Instant::now(),
        }
    }

    fn elapsed_ms(&self) -> u64 { self.started.elapsed().as_millis() as u64 }

    fn perform(&mut self, action: ExecAction) -> ExecEvent {
        match action {
            ExecAction::CreateSink => {
                let file = match tempfile::tempfile() {
                    Ok(file) => file,
                    Err(err) => return failed(err),
                };
                match file.try_clone() {
                    Ok(output) => {
                        self.output = Some(Redirection::File(output));
                        self.sink = Some(Box::new(file));
                        ExecEvent::Ready
                    }
                    Err(err) => failed(err),
                }
            }
            ExecAction::Spawn { args } => {
                let config = PopenConfig {
                    stdout: self.output.take().expect("sink was created"),
                    stderr: Redirection::Merge,
                    ..Default::default()
                };
                self.started = Instant::now();
                match Popen::create(&args, config) {
                    Ok(process) => {
                        self.process = Some(process);
                        ExecEvent::Ready
                    }
                    Err(err) => failed(err),
                }
            }
            ExecAction::Wait { timeout_sec } => {
                let process = self.process.as_mut().expect("process was spawned");
                let wait = process.wait_timeout(Duration::new(timeout_sec, 0));
                let run_time_ms = self.elapsed_ms();
                match wait {
                    Ok(Some(status)) => ExecEvent::Exited {
                        success: status.success(),
                        run_time_ms,
                    },
                    Ok(None) => ExecEvent::TimedOut { run_time_ms },
                    Err(err) => failed(err),
                }
            }
            ExecAction::ReadOutput => {
                let sink = self.sink.as_mut().expect("sink was created");
                if let Err(err) = sink.seek(SeekFrom::Start(0)) {
                    return failed(err);
                }
                let mut bytes = Vec::new();
                match sink.read_to_end(&mut bytes) {
                    Ok(_) => ExecEvent::Output {
                        stdout: String::from_utf8_lossy(&bytes).into_owned(),
                    },
                    Err(err) => failed(err),
                }
            }
            ExecAction::Kill => match self.process.as_mut().expect("process was spawned").kill() {
                Ok(()) => ExecEvent::Ready,
                Err(err) => failed(err),
            },
            ExecAction::Reap => match self.process.as_mut().expect("process was spawned").wait() {
                Ok(_) => ExecEvent::Ready,
                Err(err) => failed(err),
            },
        }
    }

    /// Performs the actions of the execution until it has ended or, where
    /// `launch_only` holds, until the process has been spawned.
    fn advance(&mut self, launch_only: bool) {
        loop {
            match self.step.take().expect("execution has a state") {
                Step::Done { result } => {
                    self.step = Some(Step::Done { result });
                    return;
                }
                Step::Continue { execution, action } => {
                    if launch_only && matches!(action, ExecAction::Wait { .. }) {
                        self.step = Some(Step::Continue { execution, action });
                        return;
                    }
                    let event = self.perform(action);
                    self.step = Some(execution.step(event));
                }
            }
        }
    }

    fn finish(mut self) -> CommandResult {
        self.advance(false);
        match self.step.take() {
            Some(Step::Done { result }) => result,
            _ => unreachable!(),
        }
    }

    fn is_alive(&mut self) -> bool {
        match self.process.as_mut() {
            Some(process) => process.poll().is_none(),
            None => false,
        }
    }
}

fn exec(command: Command) -> CommandResult { Job::new(command).finish() }

/// Runs the commands of a chunk as processes that are all alive at the same
/// time, and collects their results from the last to the first.
struct ProcessRunner {
    runner:  ThreadRunner,
    largest: std::cell::Cell<usize>,
}

impl ProcessRunner {
    fn new(runner: ThreadRunner) -> ProcessRunner {
        ProcessRunner {
            runner,
            largest: std::cell::Cell::new(0),
        }
    }
}

impl Runner for ProcessRunner {
    fn run(&self, commands: &[Command], max_parallel_commands: usize) -> Result<Vec<CommandResult>, Error> {
        let mut schedule = self.runner.start(commands, max_parallel_commands);
        loop {
            match schedule {
                Schedule::Finished { results } => return Ok(results),
                Schedule::Dispatch { batch, chunk } => {
                    self.largest.set(self.largest.get().max(chunk.len()));
                    let mut jobs = Vec::new();
                    for (seq, command) in chunk {
                        let mut job = Job::new(command);
                        job.advance(true);
                        jobs.push((seq, job));
                    }
                    let mut arrived = Vec::new();
                    while let Some((seq, job)) = jobs.pop() {
                        let result = job.finish();
                        if let Some(progress_tx) = self.runner.progress_tx() {
                            let _ = progress_tx.send(self.runner.progress_units(&result));
                        }
                        arrived.push((seq, result));
                    }
                    schedule = batch.collect(ChunkEvent::Completed { arrived })?;
                }
            }
        }
    }
}

fn is_success_contains(result: &CommandResult, expected: &str) -> bool {
    matches!(result, CommandResult::Success { stdout, .. } if stdout.contains(expected))
}

fn context() -> Context {
    let info = uname::uname().expect("failed to create context");
    let uname = Uname {
        sysname:  info.sysname,
        nodename: info.nodename,
        release:  info.release,
        version:  info.version,
        machine:  info.machine,
    };
    Context::new(&uname, &chrono::Local::now().to_rfc3339())
}

#[test]
fn execution_ok() {
    let command = Command::new("true", r#"/bin/true"#);

    let res = exec(command);

    assert!(is_success_contains(&res, ""), "executing command successfully: {:?}", res);
}

#[test]
fn execution_failed() {
    let command = Command::new("false", r#"/bin/false"#);

    let res = exec(command);

    assert!(
        matches!(res, CommandResult::Failed { .. }),
        "executing command successfully: {:?}",
        res
    );
}

#[test]
fn execution_timeout() {
    let command = Command::new("sleep", r#"/bin/sleep 5"#).with_timeout(1);

    let res = exec(command);

    assert!(
        matches!(res, CommandResult::Timeout { .. }),
        "executing command successfully: {:?}",
        res
    );
}

#[test]
fn execution_error() {
    let command = Command::new("no_such_command", r#"/no_such_command"#);

    let res = exec(command);

    assert!(
        matches!(&res, CommandResult::Error { reason, .. } if reason.contains("No such file or directory")),
        "executing command errors: {:?}",
        res
    );
}

#[test]
fn execution_timeout_takes_about_the_timeout_and_leaves_no_process() {
    let command = Command::new("sleep", r#"/bin/sleep 5"#).with_timeout(1);
    let mut job = Job::new(command.clone());
    job.advance(true);
    assert!(job.is_alive());

    job.advance(false);

    assert!(!job.is_alive());
    match job.step.take() {
        Some(Step::Done {
            result: CommandResult::Timeout {
                command: timed_out,
                run_time_ms,
            },
        }) => {
            assert_eq!(timed_out, command);
            assert!(1000 <= run_time_ms && run_time_ms < 3000, "run time was {} ms", run_time_ms);
        }
        _ => panic!("expected a timeout"),
    }
}

#[test]
fn execution_captures_output_and_run_time() {
    let command = Command::new("echo", r#"/bin/echo "hello world""#).with_timeout(5);

    let res = exec(command.clone());

    match res {
        CommandResult::Success {
            command: ran,
            run_time_ms,
            stdout,
        } => {
            assert_eq!(ran, command);
            assert_eq!(stdout, "hello world\n");
            assert!(run_time_ms < 5000);
        }
        other => panic!("expected success, got {:?}", other),
    }
}

#[test]
fn execution_failed_keeps_output_and_merges_standard_error() {
    let command = Command::new("both", r#"sh -c 'echo out; echo err 1>&2; exit 3'"#).with_timeout(5);

    let res = exec(command);

    match res {
        CommandResult::Failed { stdout, .. } => {
            assert!(stdout.contains("out\n"));
            assert!(stdout.contains("err\n"));
        }
        other => panic!("expected a failure, got {:?}", other),
    }
}

#[test]
fn execution_takes_more_output_than_a_pipe_holds() {
    let command = Command::new("big", r#"sh -c 'head -c 300000 /dev/zero | tr "\0" a'"#).with_timeout(10);

    let res = exec(command);

    match res {
        CommandResult::Success { stdout, .. } => {
            assert_eq!(stdout.len(), 300_000);
            assert!(stdout.bytes().all(|b| b == b'a'));
        }
        other => panic!("expected success, got {:?}", other),
    }
}

#[test]
fn execution_replaces_bytes_that_are_not_utf8() {
    let command = Command::new("bytes", r#"/usr/bin/printf 'a\377b'"#).with_timeout(5);

    let res = exec(command);

    assert!(is_success_contains(&res, "a\u{fffd}b"), "got {:?}", res);
}

#[test]
fn execution_of_empty_command_line_is_an_error() {
    let res = exec(Command::new("empty", ""));

    assert!(matches!(res, CommandResult::Error { .. }), "got {:?}", res);
}

#[test]
fn execution_of_mismatched_quotes_is_an_error() {
    let res = exec(Command::new("broken", "echo 'no end"));

    assert!(
        matches!(&res, CommandResult::Error { reason, .. } if reason == "failed to split command into arguments"),
        "got {:?}",
        res
    );
}

#[test]
fn run_ok() {
    let mut commands = Vec::new();
    commands.push(Command::new("cat-uname", r#"/bin/cat /proc/version"#));
    commands.push(Command::new("cat-uname", r#"/bin/cat /proc/version"#));
    let expected = "Linux";

    let r = ProcessRunner::new(ThreadRunner::new());
    let results = r.run(&commands, 64);

    assert!(results.is_ok(), "Command run");
    let results = results.unwrap();
    assert_eq!(results.len(), 2);
    assert!(
        is_success_contains(&results[0], expected),
        "First command result is success: {:?}",
        results[0]
    );
}

#[test]
fn ok() {
    let hostinfos: Vec<Command> = Vec::new();
    let commands: Vec<Command> = Vec::new();
    let tr = ProcessRunner::new(ThreadRunner::new());
    let runner = Box::new(tr);
    let analysis = Analysis::new(runner, &hostinfos, &commands)
        .with_repetitions(1)
        .with_max_parallel_commands(64);
    let context = context();

    let res = analysis.run(context);
    assert!(res.is_ok(), "Analysis run");
}

fn scenario() -> Vec<Command> {
    vec![
        Command::new("ok", "true"),
        Command::new("bad", "false"),
        Command::new("slow", "sleep 5").with_timeout(1),
    ]
}

#[test]
fn end_to_end_scenario() {
    let commands = scenario();
    let runner = ProcessRunner::new(ThreadRunner::new());

    let results = runner.run(&commands, 3).expect("batch runs");

    assert_eq!(runner.largest.get(), 3);
    assert_eq!(results.len(), 3);
    assert!(matches!(&results[0], CommandResult::Success { command, .. } if command == &commands[0]));
    assert!(matches!(&results[1], CommandResult::Failed { command, .. } if command == &commands[1]));
    assert!(matches!(&results[2], CommandResult::Timeout { command, .. } if command == &commands[2]));
}

#[test]
fn end_to_end_scenario_through_analysis() {
    let hostinfos = vec![Command::new("host", "/bin/echo host").with_timeout(5)];
    let commands = scenario();
    let analysis = Analysis::new(Box::new(ProcessRunner::new(ThreadRunner::new())), &hostinfos, &commands)
        .with_repetitions(1)
        .with_max_parallel_commands(3);

    let report = analysis.run(context()).expect("analysis runs");

    assert_eq!(report.repetitions(), 1);
    assert_eq!(report.max_parallel_commands(), 3);
    assert_eq!(report.hostinfo_results().len(), 1);
    assert!(is_success_contains(&report.hostinfo_results()[0], "host\n"));
    assert_eq!(report.command_results().len(), 1);
    let results = &report.command_results()[0];
    assert_eq!(results.len(), 3);
    assert!(matches!(results[0], CommandResult::Success { .. }));
    assert!(matches!(results[1], CommandResult::Failed { .. }));
    assert!(matches!(results[2], CommandResult::Timeout { .. }));
}

#[test]
fn ordering_does_not_depend_on_which_command_finishes_first() {
    let commands: Vec<Command> = [0.3, 0.0, 0.2, 0.1, 0.0]
        .iter()
        .enumerate()
        .map(|(i, delay)| {
            Command::new(&format!("c{}", i), &format!("sh -c 'sleep {}; echo {}'", delay, i)).with_timeout(5)
        })
        .collect();

    for max_parallel in 1..=commands.len() {
        let runner = ProcessRunner::new(ThreadRunner::new());
        let results = runner.run(&commands, max_parallel).expect("batch runs");

        assert!(runner.largest.get() <= max_parallel);
        assert_eq!(results.len(), commands.len());
        for (i, result) in results.iter().enumerate() {
            assert_eq!(result.command(), &commands[i]);
            assert!(is_success_contains(result, &format!("{}\n", i)), "result {} is {:?}", i, result);
        }
    }
}

#[test]
fn a_failing_command_does_not_stop_the_others() {
    let commands = vec![
        Command::new("gone", "/no_such_command"),
        Command::new("broken", "echo 'no end"),
        Command::new("fine", "/bin/echo fine").with_timeout(5),
    ];
    let runner = ProcessRunner::new(ThreadRunner::new());

    let results = runner.run(&commands, 2).expect("batch runs");

    assert!(matches!(results[0], CommandResult::Error { .. }));
    assert!(matches!(results[1], CommandResult::Error { .. }));
    assert!(is_success_contains(&results[2], "fine\n"));
}

#[test]
fn repetitions_give_one_ordered_list_each() {
    let directory = tempfile::tempdir().expect("temporary directory");
    let counter = directory.path().join("counter");
    let count = format!("sh -c 'echo x >> {0}; wc -l < {0}'", counter.display());
    let hostinfos: Vec<Command> = Vec::new();
    let commands = vec![
        Command::new("count", &count).with_timeout(5),
        Command::new("name", "/bin/echo name").with_timeout(5),
    ];
    let analysis = Analysis::new(Box::new(ProcessRunner::new(ThreadRunner::new())), &hostinfos, &commands)
        .with_repetitions(3)
        .with_max_parallel_commands(1);

    let report = analysis.run(context()).expect("analysis runs");

    assert_eq!(report.repetitions(), 3);
    assert!(report.hostinfo_results().is_empty());
    assert_eq!(report.command_results().len(), 3);
    for (repetition, results) in report.command_results().iter().enumerate() {
        assert_eq!(results.len(), 2);
        assert_eq!(results[0].command(), &commands[0]);
        assert_eq!(results[1].command(), &commands[1]);
        match &results[0] {
            CommandResult::Success { stdout, .. } => {
                assert_eq!(stdout.trim(), format!("{}", repetition + 1));
            }
            other => panic!("expected success, got {:?}", other),
        }
        assert!(is_success_contains(&results[1], "name\n"));
    }
}

#[test]
fn progress_is_one_unit_for_each_command_of_a_batch() {
    let (tx, rx) = mpsc::channel::<usize>();
    let commands = vec![
        Command::new("ok", "true"),
        Command::new("bad", "false"),
        Command::new("slow", "sleep 5").with_timeout(1),
        Command::new("gone", "/no_such_command"),
        Command::new("fine", "/bin/echo fine").with_timeout(5),
    ];
    let runner = ProcessRunner::new(ThreadRunner::new().with_progress(tx));

    let results = runner.run(&commands, 2).expect("batch runs");
    drop(runner);

    let units: Vec<usize> = rx.iter().collect();
    assert_eq!(results.len(), 5);
    assert_eq!(units, vec![1, 1, 1, 1, 1]);
}

#[test]
fn a_runner_without_progress_channel_sends_nothing() {
    let runner = ThreadRunner::new();
    assert!(runner.progress_tx().is_none());
    let result = exec(Command::new("ok", "true"));
    assert_eq!(runner.progress_units(&result), 0);
}
