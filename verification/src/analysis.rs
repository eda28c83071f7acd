//! Composing batches into a report: one batch of commands that describe the
//! host, then the main batch as many times as asked for.

use crate::command::{Command, CommandResult, CommandResultView, CommandView};
use crate::model::views;
use crate::runner;
use crate::runner::Runner;
use vstd::prelude::*;

verus! {

/// Why no report could be made. No partial report is returned with it.
#[derive(Debug)]
pub enum Error {
    /// A batch failed as a whole.
    RunAnalysisFailed { source: runner::Error },
}

/// Mathematical model of an [`Error`].
pub enum ErrorView {
    RunAnalysisFailed { source: runner::ErrorView },
}

impl View for Error {
    type V = ErrorView;

    open spec fn view(&self) -> ErrorView {
        match *self {
            Error::RunAnalysisFailed { source } => ErrorView::RunAnalysisFailed { source: source@ },
        }
    }
}

/// What an error says to the user.
pub open spec fn message_spec(error: ErrorView) -> Seq<char> {
    match error {
        ErrorView::RunAnalysisFailed { source } => "analysis failed because "@
            + runner::message_spec(source),
    }
}

impl Error {
    /// What the error says to the user.
    pub fn message(&self) -> (message: String)
        ensures
            message@ == message_spec(self@),
    {
        match self {
            Error::RunAnalysisFailed { source } => {
                let mut message = "analysis failed because ".to_owned();
                message.append(source.message().as_str());
                message
            },
        }
    }
}

/// The results of each batch of a list of batches.
pub open spec fn batch_views(batches: Seq<Vec<CommandResult>>) -> Seq<Seq<CommandResultView>> {
    Seq::new(batches.len(), |r: int| views(batches[r]@))
}

/// What a runner returned for a batch, as the outcome of a step of the
/// analysis: the results as they are, and the failure of the batch as the
/// failure of the analysis.
pub fn batch_outcome(outcome: Result<Vec<CommandResult>, runner::Error>) -> (r: Result<
    Vec<CommandResult>,
    Error,
>)
    ensures
        match outcome {
            Ok(results) => r == Ok::<Vec<CommandResult>, Error>(results),
            Err(source) => r == Err::<Vec<CommandResult>, Error>(
                Error::RunAnalysisFailed { source },
            ),
        },
{
    match outcome {
        Ok(results) => Ok(results),
        Err(source) => Err(Error::RunAnalysisFailed { source }),
    }
}

/// Runs a batch of host information once and the main batch of commands a
/// number of times, all through one runner.
pub struct Analysis<'a, R: Runner> {
    runner: R,
    hostinfos: &'a [Command],
    commands: &'a [Command],
    repetitions: usize,
    max_parallel_commands: usize,
}

/// Number of times the main batch is run where nothing else is asked for.
pub const DEFAULT_REPETITIONS: usize = 1;

/// Number of commands that run at a time where nothing else is asked for.
pub const DEFAULT_MAX_PARALLEL_COMMANDS: usize = 64;

impl<'a, R: Runner> Analysis<'a, R> {
    /// The commands that describe the host.
    pub closed spec fn hostinfos(&self) -> Seq<CommandView> {
        views(self.hostinfos@)
    }

    /// The commands of the main batch.
    pub closed spec fn commands(&self) -> Seq<CommandView> {
        views(self.commands@)
    }

    /// How many times the main batch is run.
    pub closed spec fn repetitions(&self) -> usize {
        self.repetitions
    }

    /// How many commands run at a time.
    pub closed spec fn max_parallel_commands(&self) -> usize {
        self.max_parallel_commands
    }

    /// The runner that runs the batches.
    pub closed spec fn runner(&self) -> R {
        self.runner
    }

    /// An analysis that runs the main batch once, with at most
    /// [`DEFAULT_MAX_PARALLEL_COMMANDS`] commands at a time.
    pub fn new(runner: R, hostinfos: &'a [Command], commands: &'a [Command]) -> (a: Self)
        ensures
            a.runner() == runner,
            a.hostinfos() == views(hostinfos@),
            a.commands() == views(commands@),
            a.repetitions() == DEFAULT_REPETITIONS,
            a.max_parallel_commands() == DEFAULT_MAX_PARALLEL_COMMANDS,
    {
        Analysis {
            runner,
            hostinfos,
            commands,
            repetitions: DEFAULT_REPETITIONS,
            max_parallel_commands: DEFAULT_MAX_PARALLEL_COMMANDS,
        }
    }

    /// Sets how many times the main batch is run.
    pub fn with_repetitions(self, repetitions: usize) -> (a: Self)
        ensures
            a.repetitions() == repetitions,
            a.runner() == self.runner(),
            a.hostinfos() == self.hostinfos(),
            a.commands() == self.commands(),
            a.max_parallel_commands() == self.max_parallel_commands(),
    {
        Analysis { repetitions, ..self }
    }

    /// Sets how many commands run at a time.
    pub fn with_max_parallel_commands(self, max_parallel_commands: usize) -> (a: Self)
        ensures
            a.max_parallel_commands() == max_parallel_commands,
            a.runner() == self.runner(),
            a.hostinfos() == self.hostinfos(),
            a.commands() == self.commands(),
            a.repetitions() == self.repetitions(),
    {
        Analysis { max_parallel_commands, ..self }
    }

    /// What the runner of this analysis promises of the results that it
    /// returns for a batch.
    pub open spec fn delivers(
        &self,
        commands: Seq<CommandView>,
        results: Seq<CommandResultView>,
    ) -> bool {
        self.runner().delivers(commands, self.max_parallel_commands(), results)
    }

    /// What the runner of this analysis promises of the error that a run of
    /// a batch fails with.
    pub open spec fn fails_with(
        &self,
        commands: Seq<CommandView>,
        error: runner::ErrorView,
    ) -> bool {
        self.runner().fails_with(commands, self.max_parallel_commands(), error)
    }

    /// Runs the batch that describes the host once, then the main batch as
    /// many times as was asked for, and puts all results into a report. The
    /// first batch that fails as a whole ends the analysis without a report:
    /// the analysis fails with the failure of that batch, unchanged.
    pub fn run(&self, context: Context) -> (r: Result<AnalysisReport, Error>)
        requires
            self.max_parallel_commands() >= 1,
        ensures
            match r {
                Ok(report) => {
                    &&& report@.context == context@
                    &&& report@.repetitions == self.repetitions()
                    &&& report@.max_parallel_commands == self.max_parallel_commands()
                    &&& self.delivers(self.hostinfos(), report@.hostinfo_results)
                    &&& report@.command_results.len() == self.repetitions()
                    &&& forall|k: int|
                        0 <= k < self.repetitions() ==> self.delivers(
                            self.commands(),
                            #[trigger] report@.command_results[k],
                        )
                },
                Err(e) => {
                    &&& e matches Error::RunAnalysisFailed { source }
                    &&& self.fails_with(self.hostinfos(), source@) || (self.repetitions() > 0
                        && self.fails_with(self.commands(), source@))
                },
            },
    {
        let hostinfo_results = match self.run_commands(self.hostinfos) {
            Ok(results) => results,
            Err(e) => {
                return Err(e);
            },
        };
        let command_results = match self.run_commands_rep(self.commands, self.repetitions) {
            Ok(batches) => batches,
            Err(e) => {
                return Err(e);
            },
        };
        Ok(
            AnalysisReport::new(
                context,
                hostinfo_results,
                command_results,
                self.repetitions,
                self.max_parallel_commands,
            ),
        )
    }

    /// Runs one batch through the runner. Where the runner fails, the
    /// failure is that of the analysis.
    pub fn run_commands(&self, commands: &[Command]) -> (r: Result<Vec<CommandResult>, Error>)
        requires
            self.max_parallel_commands() >= 1,
        ensures
            match r {
                Ok(results) => self.delivers(views(commands@), views(results@)),
                Err(e) => {
                    &&& e matches Error::RunAnalysisFailed { source }
                    &&& self.fails_with(views(commands@), source@)
                },
            },
    {
        batch_outcome(self.runner.run(commands, self.max_parallel_commands))
    }

    /// Runs one batch `repetitions` times, one run after the other, and
    /// returns the results of each run in the order of the runs. Stops at the
    /// first run that fails.
    pub fn run_commands_rep(&self, commands: &[Command], repetitions: usize) -> (r: Result<
        Vec<Vec<CommandResult>>,
        Error,
    >)
        requires
            self.max_parallel_commands() >= 1,
        ensures
            match r {
                Ok(batches) => batches.len() == repetitions && forall|k: int|
                    0 <= k < repetitions ==> self.delivers(
                        views(commands@),
                        #[trigger] batch_views(batches@)[k],
                    ),
                Err(e) => {
                    &&& repetitions > 0
                    &&& e matches Error::RunAnalysisFailed { source }
                    &&& self.fails_with(views(commands@), source@)
                },
            },
    {
        let mut batches: Vec<Vec<CommandResult>> = Vec::new();
        let mut done: usize = 0;
        while done < repetitions
            invariant
                self.max_parallel_commands() >= 1,
                done <= repetitions,
                batches.len() == done,
                forall|k: int|
                    0 <= k < done ==> self.delivers(
                        views(commands@),
                        #[trigger] batch_views(batches@)[k],
                    ),
            decreases repetitions - done,
        {
            let ghost before = batch_views(batches@);
            match self.run_commands(commands) {
                Ok(results) => {
                    batches.push(results);
                    assert forall|k: int| 0 <= k <= done implies self.delivers(
                        views(commands@),
                        #[trigger] batch_views(batches@)[k],
                    ) by {
                        if k < done {
                            assert(batch_views(batches@)[k] == before[k]);
                        }
                    }
                },
                Err(e) => {
                    return Err(e);
                },
            }
            done += 1;
        }
        Ok(batches)
    }
}

/// What a host says of itself: the plain values of its identity.
pub struct Uname {
    /// Name of the operating system.
    pub sysname: String,
    /// Name of the host on its network.
    pub nodename: String,
    /// Release of the operating system.
    pub release: String,
    /// Version of the operating system.
    pub version: String,
    /// Hardware of the host.
    pub machine: String,
}

/// The five parts of the identity of a host in one line, with one space
/// between two parts.
pub open spec fn uname_line(uname: Uname) -> Seq<char> {
    uname.sysname@ + seq![' '] + uname.nodename@ + seq![' '] + uname.release@ + seq![' ']
        + uname.version@ + seq![' '] + uname.machine@
}

/// Mathematical model of a [`Context`].
pub struct ContextView {
    /// Name of the host.
    pub hostname: Seq<char>,
    /// Identity of the host in one line.
    pub uname: Seq<char>,
    /// When the context was captured, as text.
    pub date_time: Seq<char>,
    /// Annotations of the caller, by key.
    pub more: Map<Seq<char>, Seq<char>>,
}

/// The circumstances of a run: where and when it took place, and what the
/// caller wants to have noted with it.
#[derive(Debug)]
pub struct Context {
    hostname: String,
    uname: String,
    date_time: String,
    more: Vec<(String, String)>,
}

/// Whether an annotation with this key is among `entries`.
pub open spec fn has_key(entries: Seq<(String, String)>, key: Seq<char>) -> bool {
    exists|i: int| 0 <= i < entries.len() && (#[trigger] entries[i]).0@ == key
}

/// Whether `i` is the first place at which `entries` has an annotation with
/// this key.
pub open spec fn first_with_key(entries: Seq<(String, String)>, key: Seq<char>, i: int) -> bool {
    &&& 0 <= i < entries.len()
    &&& entries[i].0@ == key
    &&& forall|j: int| 0 <= j < i ==> (#[trigger] entries[j]).0@ != key
}

/// The first place at which `entries` has an annotation with this key.
pub open spec fn key_index(entries: Seq<(String, String)>, key: Seq<char>) -> int {
    choose|i: int| first_with_key(entries, key, i)
}

/// The annotations of a list of entries, by key.
pub open spec fn annotations(entries: Seq<(String, String)>) -> Map<Seq<char>, Seq<char>> {
    Map::new(
        |key: Seq<char>| has_key(entries, key),
        |key: Seq<char>| entries[key_index(entries, key)].1@,
    )
}

/// The first place of a key is the only one that is a first place.
proof fn lemma_key_index(entries: Seq<(String, String)>, key: Seq<char>, i: int)
    requires
        first_with_key(entries, key, i),
    ensures
        key_index(entries, key) == i,
        has_key(entries, key),
{
}

/// A key that is among the entries has a first place.
proof fn lemma_has_first(entries: Seq<(String, String)>, key: Seq<char>, bound: int) -> (i: int)
    requires
        0 <= bound < entries.len(),
        entries[bound].0@ == key,
    ensures
        first_with_key(entries, key, i),
        i <= bound,
    decreases bound,
{
    if exists|j: int| 0 <= j < bound && (#[trigger] entries[j]).0@ == key {
        let j = choose|j: int| 0 <= j < bound && (#[trigger] entries[j]).0@ == key;
        lemma_has_first(entries, key, j)
    } else {
        bound
    }
}

impl View for Context {
    type V = ContextView;

    closed spec fn view(&self) -> ContextView {
        ContextView {
            hostname: self.hostname@,
            uname: self.uname@,
            date_time: self.date_time@,
            more: annotations(self.more@),
        }
    }
}

impl Context {
    /// The context of a run on the host that says `uname` of itself, captured
    /// at `date_time`, with no annotations.
    pub fn new(uname: &Uname, date_time: &str) -> (context: Context)
        ensures
            context@ == (ContextView {
                hostname: uname.nodename@,
                uname: uname_line(*uname),
                date_time: date_time@,
                more: Map::empty(),
            }),
    {
        let mut line = uname.sysname.clone();
        line.append(" ");
        line.append(uname.nodename.as_str());
        line.append(" ");
        line.append(uname.release.as_str());
        line.append(" ");
        line.append(uname.version.as_str());
        line.append(" ");
        line.append(uname.machine.as_str());
        proof {
            reveal_strlit(" ");
            assert(" "@ =~= seq![' ']);
        }
        let more: Vec<(String, String)> = Vec::new();
        assert(annotations(more@) =~= Map::empty());
        Context {
            hostname: uname.nodename.clone(),
            uname: line,
            date_time: date_time.to_owned(),
            more,
        }
    }

    /// Notes `value` under `key`. A value noted under the same key before is
    /// replaced.
    pub fn add(&mut self, key: &str, value: &str) -> (context: &mut Context)
        ensures
            context@ == (ContextView {
                more: old(self)@.more.insert(key@, value@),
                ..old(self)@
            }),
            *final(self) == *final(context),
    {
        let wanted = key.to_owned();
        let noted = value.to_owned();
        let ghost before = self.more@;
        let mut i: usize = 0;
        while i < self.more.len()
            invariant
                wanted@ == key@,
                i <= self.more.len(),
                self.more@ == before,
                forall|j: int| 0 <= j < i ==> (#[trigger] before[j]).0@ != key@,
            ensures
                i <= self.more.len(),
                self.more@ == before,
                forall|j: int| 0 <= j < i ==> (#[trigger] before[j]).0@ != key@,
                i < self.more.len() ==> before[i as int].0@ == key@,
            decreases self.more.len() - i,
        {
            if self.more[i].0 == wanted {
                break;
            }
            i += 1;
        }
        if i < self.more.len() {
            self.more[i] = (wanted, noted);
        } else {
            self.more.push((wanted, noted));
        }
        proof {
            let after = self.more@;
            lemma_key_index(after, key@, i as int);
            assert forall|k: Seq<char>| k != key@ implies (has_key(after, k) == has_key(before, k))
                && (has_key(before, k) ==> after[key_index(after, k)].1@ == before[key_index(
                before,
                k,
            )].1@) by {
                if has_key(before, k) {
                    let w = choose|w: int| 0 <= w < before.len() && (#[trigger] before[w]).0@ == k;
                    let f = lemma_has_first(before, k, w);
                    lemma_key_index(before, k, f);
                    assert(first_with_key(after, k, f));
                    lemma_key_index(after, k, f);
                }
            }
            assert(annotations(after) =~= annotations(before).insert(key@, value@));
        }
        self
    }

    /// The value noted under `key`, if there is one.
    pub fn get(&self, key: &str) -> (value: Option<&str>)
        ensures
            match value {
                Some(v) => self@.more.contains_key(key@) && self@.more[key@] == v@,
                None => !self@.more.contains_key(key@),
            },
    {
        let wanted = key.to_owned();
        let mut i: usize = 0;
        while i < self.more.len()
            invariant
                wanted@ == key@,
                i <= self.more.len(),
                forall|j: int| 0 <= j < i ==> (#[trigger] self.more[j]).0@ != key@,
            decreases self.more.len() - i,
        {
            if self.more[i].0 == wanted {
                proof {
                    lemma_key_index(self.more@, key@, i as int);
                }
                return Some(self.more[i].1.as_str());
            }
            i += 1;
        }
        None
    }

    /// The annotations as a list of keys and values. Of two entries with one
    /// key the first is the one that counts.
    pub fn more(&self) -> (entries: &Vec<(String, String)>)
        ensures
            annotations(entries@) == self@.more,
    {
        &self.more
    }

    /// Name of the host.
    pub fn hostname(&self) -> (hostname: &str)
        ensures
            hostname@ == self@.hostname,
    {
        self.hostname.as_str()
    }

    /// Identity of the host in one line.
    pub fn uname(&self) -> (uname: &str)
        ensures
            uname@ == self@.uname,
    {
        self.uname.as_str()
    }

    /// When the context was captured.
    pub fn date_time(&self) -> (date_time: &str)
        ensures
            date_time@ == self@.date_time,
    {
        self.date_time.as_str()
    }
}

/// Mathematical model of an [`AnalysisReport`].
pub struct AnalysisReportView {
    /// The circumstances of the run.
    pub context: ContextView,
    /// The results of the batch that describes the host.
    pub hostinfo_results: Seq<CommandResultView>,
    /// The results of the main batch, one list for each repetition.
    pub command_results: Seq<Seq<CommandResultView>>,
    /// How many times the main batch was to be run.
    pub repetitions: usize,
    /// How many commands were to run at a time.
    pub max_parallel_commands: usize,
}

/// All that one analysis found out. A report is made once and not changed.
#[derive(Debug)]
pub struct AnalysisReport {
    context: Context,
    hostinfo_results: Vec<CommandResult>,
    command_results: Vec<Vec<CommandResult>>,
    repetitions: usize,
    max_parallel_commands: usize,
}

impl View for AnalysisReport {
    type V = AnalysisReportView;

    closed spec fn view(&self) -> AnalysisReportView {
        AnalysisReportView {
            context: self.context@,
            hostinfo_results: views(self.hostinfo_results@),
            command_results: batch_views(self.command_results@),
            repetitions: self.repetitions,
            max_parallel_commands: self.max_parallel_commands,
        }
    }
}

impl AnalysisReport {
    /// Puts a report together from its parts.
    pub fn new(
        context: Context,
        hostinfo_results: Vec<CommandResult>,
        command_results: Vec<Vec<CommandResult>>,
        repetitions: usize,
        max_parallel_commands: usize,
    ) -> (report: AnalysisReport)
        ensures
            report@ == (AnalysisReportView {
                context: context@,
                hostinfo_results: views(hostinfo_results@),
                command_results: batch_views(command_results@),
                repetitions,
                max_parallel_commands,
            }),
    {
        AnalysisReport {
            context,
            hostinfo_results,
            command_results,
            repetitions,
            max_parallel_commands,
        }
    }

    /// The circumstances of the run.
    pub fn context(&self) -> (context: &Context)
        ensures
            context@ == self@.context,
    {
        &self.context
    }

    /// The results of the batch that describes the host, in the order of its
    /// commands.
    pub fn hostinfo_results(&self) -> (results: &[CommandResult])
        ensures
            views(results@) == self@.hostinfo_results,
    {
        self.hostinfo_results.as_slice()
    }

    /// The results of the main batch: one list for each repetition, in the
    /// order of the repetitions.
    pub fn command_results(&self) -> (results: &[Vec<CommandResult>])
        ensures
            batch_views(results@) == self@.command_results,
    {
        self.command_results.as_slice()
    }

    /// How many times the main batch was to be run.
    pub fn repetitions(&self) -> (repetitions: usize)
        ensures
            repetitions == self@.repetitions,
    {
        self.repetitions
    }

    /// How many commands were to run at a time.
    pub fn max_parallel_commands(&self) -> (max_parallel_commands: usize)
        ensures
            max_parallel_commands == self@.max_parallel_commands,
    {
        self.max_parallel_commands
    }
}

} // verus!
