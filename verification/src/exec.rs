//! The execution unit: the decisions taken while one command is run.
//!
//! Running a command means creating a sink for its output, spawning the
//! process, waiting for it under a deadline, and then either reading what it
//! wrote or killing and reaping it. None of that work is done here. An
//! [`Execution`] says which action comes next, the caller performs it and
//! reports what happened as an [`ExecEvent`], and after at most five actions the
//! execution ends in exactly one [`CommandResult`].

use crate::command::{
    effective_timeout, shell_words, Command, CommandResult, CommandResultView, CommandView,
    SplitError,
};
use crate::model::texts;
use vstd::prelude::*;

verus! {

/// Reason of the result of a command line that cannot be split into arguments.
pub const SPLIT_FAILURE: &'static str = "failed to split command into arguments";

/// Reason of the result of an execution that was told of something that
/// cannot follow the action it asked for.
pub const UNEXPECTED_EVENT: &'static str = "unexpected event while executing command";

/// The text of [`SPLIT_FAILURE`].
pub open spec fn split_failure() -> Seq<char> {
    SPLIT_FAILURE@
}

/// The text of [`UNEXPECTED_EVENT`].
pub open spec fn unexpected_event() -> Seq<char> {
    UNEXPECTED_EVENT@
}

/// Why a process that is still alive has to be stopped.
pub enum Verdict {
    /// The deadline passed after this many milliseconds.
    Timeout { run_time_ms: u64 },
    /// Waiting for the process failed with this message.
    WaitFailed { reason: String },
}

/// Mathematical model of a [`Verdict`].
pub enum VerdictView {
    Timeout { run_time_ms: u64 },
    WaitFailed { reason: Seq<char> },
}

impl View for Verdict {
    type V = VerdictView;

    open spec fn view(&self) -> VerdictView {
        match *self {
            Verdict::Timeout { run_time_ms } => VerdictView::Timeout { run_time_ms },
            Verdict::WaitFailed { reason } => VerdictView::WaitFailed { reason: reason@ },
        }
    }
}

/// What an execution is waiting for.
pub enum Phase {
    /// The sink for the output is being created.
    AwaitSink { args: Vec<String> },
    /// The process is being spawned.
    AwaitSpawn,
    /// The process runs and the deadline has not passed.
    AwaitExit,
    /// The process has exited and its output is being read.
    AwaitOutput { success: bool, run_time_ms: u64 },
    /// The process is being killed.
    AwaitKill { verdict: Verdict },
    /// The killed process is being reaped.
    AwaitReap { verdict: Verdict },
}

/// Mathematical model of a [`Phase`].
pub enum PhaseView {
    AwaitSink { args: Seq<Seq<char>> },
    AwaitSpawn,
    AwaitExit,
    AwaitOutput { success: bool, run_time_ms: u64 },
    AwaitKill { verdict: VerdictView },
    AwaitReap { verdict: VerdictView },
}

impl View for Phase {
    type V = PhaseView;

    open spec fn view(&self) -> PhaseView {
        match *self {
            Phase::AwaitSink { args } => PhaseView::AwaitSink { args: texts(args@) },
            Phase::AwaitSpawn => PhaseView::AwaitSpawn,
            Phase::AwaitExit => PhaseView::AwaitExit,
            Phase::AwaitOutput { success, run_time_ms } => PhaseView::AwaitOutput {
                success,
                run_time_ms,
            },
            Phase::AwaitKill { verdict } => PhaseView::AwaitKill { verdict: verdict@ },
            Phase::AwaitReap { verdict } => PhaseView::AwaitReap { verdict: verdict@ },
        }
    }
}

/// What the caller has to do next for an execution.
pub enum ExecAction {
    /// Create the sink that captures the output of the process. It must take
    /// any amount of output without the process blocking on it.
    CreateSink,
    /// Start the clock and spawn the process with these arguments, its
    /// standard output and standard error both going to the sink.
    Spawn { args: Vec<String> },
    /// Wait until the process exits, but no longer than this many seconds.
    Wait { timeout_sec: u64 },
    /// Read from the start of the sink all that the process wrote, as text;
    /// bytes that are not UTF-8 are replaced.
    ReadOutput,
    /// Kill the process.
    Kill,
    /// Wait until the killed process is gone.
    Reap,
}

/// Mathematical model of an [`ExecAction`].
pub enum ExecActionView {
    CreateSink,
    Spawn { args: Seq<Seq<char>> },
    Wait { timeout_sec: u64 },
    ReadOutput,
    Kill,
    Reap,
}

impl View for ExecAction {
    type V = ExecActionView;

    open spec fn view(&self) -> ExecActionView {
        match *self {
            ExecAction::CreateSink => ExecActionView::CreateSink,
            ExecAction::Spawn { args } => ExecActionView::Spawn { args: texts(args@) },
            ExecAction::Wait { timeout_sec } => ExecActionView::Wait { timeout_sec },
            ExecAction::ReadOutput => ExecActionView::ReadOutput,
            ExecAction::Kill => ExecActionView::Kill,
            ExecAction::Reap => ExecActionView::Reap,
        }
    }
}

/// What happened when the caller performed the action it was asked for.
pub enum ExecEvent {
    /// The action succeeded and there is nothing more to say: the sink was
    /// created, the process was spawned, killed or reaped.
    Ready,
    /// The action failed; `reason` is the message of the cause.
    Failed { reason: String },
    /// The process exited before the deadline, with status 0 where `success`
    /// holds, after `run_time_ms` milliseconds on the clock.
    Exited { success: bool, run_time_ms: u64 },
    /// The deadline passed, after `run_time_ms` milliseconds on the clock, and
    /// the process still runs.
    TimedOut { run_time_ms: u64 },
    /// The output of the process was read.
    Output { stdout: String },
}

/// Mathematical model of an [`ExecEvent`].
pub enum ExecEventView {
    Ready,
    Failed { reason: Seq<char> },
    Exited { success: bool, run_time_ms: u64 },
    TimedOut { run_time_ms: u64 },
    Output { stdout: Seq<char> },
}

impl View for ExecEvent {
    type V = ExecEventView;

    open spec fn view(&self) -> ExecEventView {
        match *self {
            ExecEvent::Ready => ExecEventView::Ready,
            ExecEvent::Failed { reason } => ExecEventView::Failed { reason: reason@ },
            ExecEvent::Exited { success, run_time_ms } => ExecEventView::Exited {
                success,
                run_time_ms,
            },
            ExecEvent::TimedOut { run_time_ms } => ExecEventView::TimedOut { run_time_ms },
            ExecEvent::Output { stdout } => ExecEventView::Output { stdout: stdout@ },
        }
    }
}

/// Mathematical model of an [`Execution`]: the command and what it waits for.
pub struct ExecutionView {
    pub command: CommandView,
    pub phase: PhaseView,
}

/// One attempt to run a command, between two actions.
pub struct Execution {
    command: Command,
    phase: Phase,
}

impl View for Execution {
    type V = ExecutionView;

    closed spec fn view(&self) -> ExecutionView {
        ExecutionView { command: self.command@, phase: self.phase@ }
    }
}

/// Where an execution stands after a decision.
pub enum Step {
    /// The execution goes on: the caller performs the action and reports the
    /// event to [`Execution::step`].
    Continue { execution: Execution, action: ExecAction },
    /// The execution has ended with this result.
    Done { result: CommandResult },
}

/// Mathematical model of a [`Step`].
pub enum StepView {
    Continue { execution: ExecutionView, action: ExecActionView },
    Done { result: CommandResultView },
}

impl View for Step {
    type V = StepView;

    open spec fn view(&self) -> StepView {
        match *self {
            Step::Continue { execution, action } => StepView::Continue {
                execution: execution@,
                action: action@,
            },
            Step::Done { result } => StepView::Done { result: result@ },
        }
    }
}

/// The end of an execution that could not be carried out.
pub open spec fn failed(command: CommandView, reason: Seq<char>) -> StepView {
    StepView::Done { result: CommandResultView::Error { command, reason } }
}

/// The continuation of an execution with an action and the phase that waits
/// for its outcome.
pub open spec fn proceed(
    command: CommandView,
    phase: PhaseView,
    action: ExecActionView,
) -> StepView {
    StepView::Continue { execution: ExecutionView { command, phase }, action }
}

/// The first decision: a command whose line splits into arguments goes on to
/// the creation of the sink, and any other ends at once in an error.
pub open spec fn begin_spec(command: CommandView, words: Option<Seq<Seq<char>>>) -> StepView {
    match words {
        Some(args) => proceed(command, PhaseView::AwaitSink { args }, ExecActionView::CreateSink),
        None => failed(command, split_failure()),
    }
}

/// The result that stands once a process that had to be stopped is gone.
pub open spec fn verdict_result(command: CommandView, verdict: VerdictView) -> CommandResultView {
    match verdict {
        VerdictView::Timeout { run_time_ms } => CommandResultView::Timeout { command, run_time_ms },
        VerdictView::WaitFailed { reason } => CommandResultView::Error { command, reason },
    }
}

/// The result of a process that exited and whose output was read.
pub open spec fn exit_result(
    command: CommandView,
    success: bool,
    run_time_ms: u64,
    stdout: Seq<char>,
) -> CommandResultView {
    if success {
        CommandResultView::Success { command, run_time_ms, stdout }
    } else {
        CommandResultView::Failed { command, run_time_ms, stdout }
    }
}

/// The decision taken on an event, for each phase.
///
/// A failure of any action ends the execution in an error with the message of
/// the cause, except while the process runs: then it is killed and reaped
/// first. An event that cannot follow the action asked for counts as a failure
/// of that action.
pub open spec fn step_spec(execution: ExecutionView, event: ExecEventView) -> StepView {
    let command = execution.command;
    match execution.phase {
        PhaseView::AwaitSink { args } => match event {
            ExecEventView::Ready => proceed(
                command,
                PhaseView::AwaitSpawn,
                ExecActionView::Spawn { args },
            ),
            ExecEventView::Failed { reason } => failed(command, reason),
            _ => failed(command, unexpected_event()),
        },
        PhaseView::AwaitSpawn => match event {
            ExecEventView::Ready => proceed(
                command,
                PhaseView::AwaitExit,
                ExecActionView::Wait { timeout_sec: effective_timeout(command) },
            ),
            ExecEventView::Failed { reason } => failed(command, reason),
            _ => failed(command, unexpected_event()),
        },
        PhaseView::AwaitExit => match event {
            ExecEventView::Exited { success, run_time_ms } => proceed(
                command,
                PhaseView::AwaitOutput { success, run_time_ms },
                ExecActionView::ReadOutput,
            ),
            ExecEventView::TimedOut { run_time_ms } => proceed(
                command,
                PhaseView::AwaitKill { verdict: VerdictView::Timeout { run_time_ms } },
                ExecActionView::Kill,
            ),
            ExecEventView::Failed { reason } => proceed(
                command,
                PhaseView::AwaitKill { verdict: VerdictView::WaitFailed { reason } },
                ExecActionView::Kill,
            ),
            _ => proceed(
                command,
                PhaseView::AwaitKill {
                    verdict: VerdictView::WaitFailed { reason: unexpected_event() },
                },
                ExecActionView::Kill,
            ),
        },
        PhaseView::AwaitOutput { success, run_time_ms } => match event {
            ExecEventView::Output { stdout } => StepView::Done {
                result: exit_result(command, success, run_time_ms, stdout),
            },
            ExecEventView::Failed { reason } => failed(command, reason),
            _ => failed(command, unexpected_event()),
        },
        PhaseView::AwaitKill { verdict } => match event {
            ExecEventView::Ready => proceed(
                command,
                PhaseView::AwaitReap { verdict },
                ExecActionView::Reap,
            ),
            ExecEventView::Failed { reason } => failed(command, reason),
            _ => failed(command, unexpected_event()),
        },
        PhaseView::AwaitReap { verdict } => match event {
            ExecEventView::Ready => StepView::Done { result: verdict_result(command, verdict) },
            ExecEventView::Failed { reason } => failed(command, reason),
            _ => failed(command, unexpected_event()),
        },
    }
}

impl Execution {
    /// The command that is being run.
    pub fn command(&self) -> (command: &Command)
        ensures
            command@ == self@.command,
    {
        &self.command
    }

    /// Takes the first decision for a command whose line has been split.
    pub fn begin_with(command: Command, words: Result<Vec<String>, SplitError>) -> (step: Step)
        ensures
            step@ == begin_spec(
                command@,
                match words {
                    Ok(args) => Some(texts(args@)),
                    Err(_) => None,
                },
            ),
    {
        match words {
            Ok(args) => Step::Continue {
                execution: Execution { command, phase: Phase::AwaitSink { args } },
                action: ExecAction::CreateSink,
            },
            Err(_) => Step::Done { result: command.fail(SPLIT_FAILURE) },
        }
    }

    /// Starts the execution of a command: splits its line into arguments and
    /// takes the first decision.
    pub fn begin(command: Command) -> (step: Step)
        ensures
            step@ == begin_spec(command@, shell_words(command@.command)),
    {
        let words = command.args();
        Execution::begin_with(command, words)
    }

    /// Takes the next decision, on what happened when the caller performed
    /// the action that the previous decision asked for.
    pub fn step(self, event: ExecEvent) -> (step: Step)
        ensures
            step@ == step_spec(self@, event@),
    {
        let Execution { command, phase } = self;
        match phase {
            Phase::AwaitSink { args } => match event {
                ExecEvent::Ready => Step::Continue {
                    execution: Execution { command, phase: Phase::AwaitSpawn },
                    action: ExecAction::Spawn { args },
                },
                ExecEvent::Failed { reason } => Step::Done {
                    result: CommandResult::Error { command, reason },
                },
                _ => Step::Done { result: command.fail(UNEXPECTED_EVENT) },
            },
            Phase::AwaitSpawn => match event {
                ExecEvent::Ready => {
                    let timeout_sec = command.effective_timeout_sec();
                    Step::Continue {
                        execution: Execution { command, phase: Phase::AwaitExit },
                        action: ExecAction::Wait { timeout_sec },
                    }
                },
                ExecEvent::Failed { reason } => Step::Done {
                    result: CommandResult::Error { command, reason },
                },
                _ => Step::Done { result: command.fail(UNEXPECTED_EVENT) },
            },
            Phase::AwaitExit => match event {
                ExecEvent::Exited { success, run_time_ms } => Step::Continue {
                    execution: Execution {
                        command,
                        phase: Phase::AwaitOutput { success, run_time_ms },
                    },
                    action: ExecAction::ReadOutput,
                },
                ExecEvent::TimedOut { run_time_ms } => Step::Continue {
                    execution: Execution {
                        command,
                        phase: Phase::AwaitKill { verdict: Verdict::Timeout { run_time_ms } },
                    },
                    action: ExecAction::Kill,
                },
                ExecEvent::Failed { reason } => Step::Continue {
                    execution: Execution {
                        command,
                        phase: Phase::AwaitKill { verdict: Verdict::WaitFailed { reason } },
                    },
                    action: ExecAction::Kill,
                },
                _ => Step::Continue {
                    execution: Execution {
                        command,
                        phase: Phase::AwaitKill {
                            verdict: Verdict::WaitFailed { reason: UNEXPECTED_EVENT.to_owned() },
                        },
                    },
                    action: ExecAction::Kill,
                },
            },
            Phase::AwaitOutput { success, run_time_ms } => match event {
                ExecEvent::Output { stdout } => if success {
                    Step::Done { result: CommandResult::Success { command, run_time_ms, stdout } }
                } else {
                    Step::Done { result: CommandResult::Failed { command, run_time_ms, stdout } }
                },
                ExecEvent::Failed { reason } => Step::Done {
                    result: CommandResult::Error { command, reason },
                },
                _ => Step::Done { result: command.fail(UNEXPECTED_EVENT) },
            },
            Phase::AwaitKill { verdict } => match event {
                ExecEvent::Ready => Step::Continue {
                    execution: Execution { command, phase: Phase::AwaitReap { verdict } },
                    action: ExecAction::Reap,
                },
                ExecEvent::Failed { reason } => Step::Done {
                    result: CommandResult::Error { command, reason },
                },
                _ => Step::Done { result: command.fail(UNEXPECTED_EVENT) },
            },
            Phase::AwaitReap { verdict } => match event {
                ExecEvent::Ready => match verdict {
                    Verdict::Timeout { run_time_ms } => Step::Done {
                        result: CommandResult::Timeout { command, run_time_ms },
                    },
                    Verdict::WaitFailed { reason } => Step::Done {
                        result: CommandResult::Error { command, reason },
                    },
                },
                ExecEvent::Failed { reason } => Step::Done {
                    result: CommandResult::Error { command, reason },
                },
                _ => Step::Done { result: command.fail(UNEXPECTED_EVENT) },
            },
        }
    }
}

/// An upper bound on the number of events that an execution in this phase
/// still takes before it ends.
pub open spec fn remaining(phase: PhaseView) -> nat {
    match phase {
        PhaseView::AwaitSink { .. } => 5,
        PhaseView::AwaitSpawn => 4,
        PhaseView::AwaitExit => 3,
        PhaseView::AwaitKill { .. } => 2,
        PhaseView::AwaitOutput { .. } => 1,
        PhaseView::AwaitReap { .. } => 1,
    }
}

/// The result that an execution standing at `step` ends in when the caller
/// reports `events` in this order, or `None` where the events run out before
/// it has ended. Events after the end are not looked at.
pub open spec fn outcome(step: StepView, events: Seq<ExecEventView>) -> Option<CommandResultView>
    decreases events.len(),
{
    match step {
        StepView::Done { result } => Some(result),
        StepView::Continue { execution, .. } => if events.len() == 0 {
            None
        } else {
            outcome(step_spec(execution, events[0]), events.drop_first())
        },
    }
}

/// Every decision that lets the execution go on brings it closer to its end.
pub proof fn lemma_step_advances(execution: ExecutionView, event: ExecEventView)
    ensures
        step_spec(execution, event) matches StepView::Continue { execution: next, .. }
            ==> remaining(next.phase) < remaining(execution.phase),
{
}

/// An execution keeps its command through every decision, and the result it
/// ends in owns that command.
pub proof fn lemma_step_keeps_command(execution: ExecutionView, event: ExecEventView)
    ensures
        match step_spec(execution, event) {
            StepView::Continue { execution: next, .. } => next.command == execution.command,
            StepView::Done { result } => result.command() == execution.command,
        },
{
}

/// A process that runs is never left alone: when the wait for it ends, the
/// execution goes on, with the reading of the output where the process has
/// exited and with the killing of the process in every other case.
pub proof fn lemma_running_process_is_stopped(command: CommandView, event: ExecEventView)
    ensures
        step_spec(ExecutionView { command, phase: PhaseView::AwaitExit }, event) matches
            StepView::Continue { action, .. } && action == if event is Exited {
            ExecActionView::ReadOutput
        } else {
            ExecActionView::Kill
        },
{
}

/// A command whose line cannot be split into arguments ends in an error
/// before anything is done for it.
pub proof fn lemma_unsplittable_is_error(command: CommandView, events: Seq<ExecEventView>)
    ensures
        outcome(begin_spec(command, None), events) == Some(
            CommandResultView::Error { command, reason: split_failure() },
        ),
{
}

/// An execution ends in exactly one result once as many events were reported
/// as its phase still takes, whatever the events are, and that result owns
/// the command.
pub proof fn lemma_execution_ends(
    execution: ExecutionView,
    action: ExecActionView,
    events: Seq<ExecEventView>,
)
    requires
        events.len() >= remaining(execution.phase),
    ensures
        outcome(StepView::Continue { execution, action }, events) matches Some(result)
            && result.command() == execution.command,
    decreases events.len(),
{
    let first = step_spec(execution, events[0]);
    lemma_step_advances(execution, events[0]);
    lemma_step_keeps_command(execution, events[0]);
    match first {
        StepView::Continue { execution: next, action: next_action } => {
            lemma_execution_ends(next, next_action, events.drop_first());
            assert(outcome(first, events.drop_first()) == outcome(
                StepView::Continue { execution: next, action: next_action },
                events.drop_first(),
            ));
        },
        StepView::Done { .. } => {},
    }
}

/// Every command ends in exactly one result after at most five events,
/// whatever the events are, and that result owns the command.
pub proof fn lemma_command_ends(
    command: CommandView,
    words: Option<Seq<Seq<char>>>,
    events: Seq<ExecEventView>,
)
    requires
        events.len() >= 5,
    ensures
        outcome(begin_spec(command, words), events) matches Some(result) && result.command()
            == command,
{
    match begin_spec(command, words) {
        StepView::Continue { execution, action } => {
            lemma_execution_ends(execution, action, events);
        },
        StepView::Done { .. } => {},
    }
}

/// A command ends in `Timeout` only on one course of events: the sink was
/// created, the process was spawned, the deadline passed, and the process was
/// then killed and reaped. The run time is the one reported with the deadline.
pub proof fn lemma_timeout_course(
    command: CommandView,
    words: Option<Seq<Seq<char>>>,
    events: Seq<ExecEventView>,
    timed_out: CommandView,
    run_time_ms: u64,
)
    requires
        outcome(begin_spec(command, words), events) == Some(
            CommandResultView::Timeout { command: timed_out, run_time_ms },
        ),
    ensures
        words is Some,
        timed_out == command,
        events.len() >= 5,
        events[0] is Ready,
        events[1] is Ready,
        events[2] == (ExecEventView::TimedOut { run_time_ms }),
        events[3] is Ready,
        events[4] is Ready,
{
    reveal_with_fuel(outcome, 7);
    lemma_courses(events);
}

/// A command ends in `Success` or `Failed` only on one course of events: the
/// sink was created, the process was spawned, it exited before the deadline,
/// and its output was read. `Success` stands for exit status 0, `Failed` for
/// any other, and run time and output are the ones reported.
pub proof fn lemma_exit_course(
    command: CommandView,
    words: Option<Seq<Seq<char>>>,
    events: Seq<ExecEventView>,
    success: bool,
    run_time_ms: u64,
    stdout: Seq<char>,
)
    requires
        outcome(begin_spec(command, words), events) == Some(
            exit_result(command, success, run_time_ms, stdout),
        ),
    ensures
        words is Some,
        events.len() >= 4,
        events[0] is Ready,
        events[1] is Ready,
        events[2] == (ExecEventView::Exited { success, run_time_ms }),
        events[3] == (ExecEventView::Output { stdout }),
{
    reveal_with_fuel(outcome, 7);
    lemma_courses(events);
}

/// The first events of a sequence, one after the other.
proof fn lemma_courses(events: Seq<ExecEventView>)
    ensures
        events.len() >= 2 ==> events.drop_first()[0] == events[1],
        events.len() >= 3 ==> events.drop_first().drop_first()[0] == events[2],
        events.len() >= 4 ==> events.drop_first().drop_first().drop_first()[0] == events[3],
        events.len() >= 5 ==> events.drop_first().drop_first().drop_first().drop_first()[0]
            == events[4],
{
}

} // verus!
