//! Running a batch of commands under a bound on how many run at once.

use crate::command::{Command, CommandResult, CommandResultView, CommandView};
use crate::model::views;
use std::sync::mpsc::Sender;
use vstd::prelude::*;

verus! {

/// The sending half of a channel of the standard library. A runner carries the
/// one that progress is reported on; nothing here reads or writes through it.
#[verifier::external_type_specification]
#[verifier::external_body]
#[verifier::reject_recursive_types(T)]
pub struct ExSender<T>(Sender<T>);

/// Why a whole batch failed. The failure of a single command is no such
/// error: it is the result of that command.
#[derive(Debug)]
pub enum Error {
    /// No worker could be started for the command of this name.
    ExecuteCommandFailed { name: String, reason: String },
    /// The workers of a chunk went away without a result for each of its
    /// commands.
    ResultsLost,
}

/// Mathematical model of an [`Error`].
pub enum ErrorView {
    ExecuteCommandFailed { name: Seq<char>, reason: Seq<char> },
    ResultsLost,
}

impl View for Error {
    type V = ErrorView;

    open spec fn view(&self) -> ErrorView {
        match *self {
            Error::ExecuteCommandFailed { name, reason } => ErrorView::ExecuteCommandFailed {
                name: name@,
                reason: reason@,
            },
            Error::ResultsLost => ErrorView::ResultsLost,
        }
    }
}

/// What an error says to the user.
pub open spec fn message_spec(error: ErrorView) -> Seq<char> {
    match error {
        ErrorView::ExecuteCommandFailed { name, reason } => "failed to run command "@ + name + ": "@
            + reason,
        ErrorView::ResultsLost => "workers ended without a result for each command"@,
    }
}

impl Error {
    /// What the error says to the user.
    pub fn message(&self) -> (message: String)
        ensures
            message@ == message_spec(self@),
    {
        match self {
            Error::ExecuteCommandFailed { name, reason } => {
                let mut message = "failed to run command ".to_owned();
                message.append(name.as_str());
                message.append(": ");
                message.append(reason.as_str());
                message
            },
            Error::ResultsLost => "workers ended without a result for each command".to_owned(),
        }
    }
}

/// Something that runs a list of commands and returns one result for each.
pub trait Runner {
    /// What this runner promises of the results it returns. A runner that
    /// says nothing here promises nothing.
    open spec fn delivers(
        &self,
        commands: Seq<CommandView>,
        max_parallel_commands: usize,
        results: Seq<CommandResultView>,
    ) -> bool {
        true
    }

    /// What this runner promises of the error that a run of these commands
    /// fails with. A runner that says nothing here promises nothing.
    open spec fn fails_with(
        &self,
        commands: Seq<CommandView>,
        max_parallel_commands: usize,
        error: ErrorView,
    ) -> bool {
        true
    }

    /// Runs all commands, at most `max_parallel_commands` of them at a time,
    /// and returns when each has a result.
    fn run(&self, commands: &[Command], max_parallel_commands: usize) -> (r: Result<
        Vec<CommandResult>,
        Error,
    >)
        requires
            max_parallel_commands >= 1,
        ensures
            match r {
                Ok(results) => self.delivers(
                    views(commands@),
                    max_parallel_commands,
                    views(results@),
                ),
                Err(error) => self.fails_with(views(commands@), max_parallel_commands, error@),
            },
    ;
}

impl<T: Runner + ?Sized> Runner for Box<T> {
    /// A runner in a box promises what the runner itself promises.
    open spec fn delivers(
        &self,
        commands: Seq<CommandView>,
        max_parallel_commands: usize,
        results: Seq<CommandResultView>,
    ) -> bool {
        (**self).delivers(commands, max_parallel_commands, results)
    }

    /// A runner in a box fails as the runner itself fails.
    open spec fn fails_with(
        &self,
        commands: Seq<CommandView>,
        max_parallel_commands: usize,
        error: ErrorView,
    ) -> bool {
        (**self).fails_with(commands, max_parallel_commands, error)
    }

    fn run(&self, commands: &[Command], max_parallel_commands: usize) -> (r: Result<
        Vec<CommandResult>,
        Error,
    >) {
        (**self).run(commands, max_parallel_commands)
    }
}

/// The runner that has each command of a chunk run on a thread of its own.
/// It decides which commands run together and puts their results into the
/// order of the commands; the threads themselves are the caller's.
#[derive(Debug, Clone, Default)]
pub struct ThreadRunner {
    progress_tx: Option<Sender<usize>>,
}

impl ThreadRunner {
    /// The channel that completed commands are reported on, if there is one.
    pub closed spec fn channel(&self) -> Option<Sender<usize>> {
        self.progress_tx
    }

    /// Whether completed commands are reported on a progress channel.
    pub open spec fn reports_progress(&self) -> bool {
        self.channel() is Some
    }

    /// A runner that reports no progress.
    pub fn new() -> (runner: ThreadRunner)
        ensures
            runner.channel() is None,
    {
        ThreadRunner { progress_tx: None }
    }

    /// Sets the channel that every completed command is reported on.
    pub fn with_progress(self, progress_tx: Sender<usize>) -> (runner: ThreadRunner)
        ensures
            runner.channel() == Some(progress_tx),
    {
        ThreadRunner { progress_tx: Some(progress_tx) }
    }

    /// The channel that completed commands are reported on, if there is one.
    pub fn progress_tx(&self) -> (progress_tx: Option<&Sender<usize>>)
        ensures
            match progress_tx {
                Some(tx) => self.channel() == Some(*tx),
                None => self.channel() is None,
            },
    {
        match &self.progress_tx {
            Some(tx) => Some(tx),
            None => None,
        }
    }
}

/// Mathematical model of the tagged commands of a chunk.
pub open spec fn job_views(jobs: Seq<(usize, Command)>) -> Seq<(usize, CommandView)> {
    Seq::new(jobs.len(), |k: int| (jobs[k].0, jobs[k].1@))
}

/// Mathematical model of the tagged results that came back for a chunk.
pub open spec fn arrival_views(arrived: Seq<(usize, CommandResult)>) -> Seq<
    (usize, CommandResultView),
> {
    Seq::new(arrived.len(), |k: int| (arrived[k].0, arrived[k].1@))
}

/// Where the chunk that starts at `start` ends: `max_parallel` commands
/// further, or at the end of the list where fewer are left.
pub open spec fn chunk_end(len: int, max_parallel: int, start: int) -> int {
    if start + max_parallel < len {
        start + max_parallel
    } else {
        len
    }
}

/// How many indices there are from `lo` up to `hi`.
pub open spec fn span(lo: int, hi: int) -> nat {
    if lo <= hi {
        (hi - lo) as nat
    } else {
        0
    }
}

/// The commands from `lo` up to `hi`, each tagged with its index in the list.
pub open spec fn jobs(commands: Seq<CommandView>, lo: int, hi: int) -> Seq<(usize, CommandView)> {
    Seq::new(span(lo, hi), |j: int| ((lo + j) as usize, commands[lo + j]))
}

/// Whether the tags of what came back are the indices from `lo` up to `hi`,
/// each exactly once, in whatever order.
pub open spec fn complete(arrived: Seq<(usize, CommandResultView)>, lo: int, hi: int) -> bool {
    &&& forall|k: int| 0 <= k < arrived.len() ==> lo <= (#[trigger] arrived[k]).0 < hi
    &&& forall|k: int, l: int|
        0 <= k < l < arrived.len() ==> (#[trigger] arrived[k]).0 != (#[trigger] arrived[l]).0
    &&& forall|i: int| lo <= i < hi ==> occurs(arrived, i)
}

/// Whether a result with this tag came back.
pub open spec fn occurs(arrived: Seq<(usize, CommandResultView)>, tag: int) -> bool {
    exists|k: int| 0 <= k < arrived.len() && (#[trigger] arrived[k]).0 == tag
}

/// A place at which the result with this tag came back.
pub open spec fn position(arrived: Seq<(usize, CommandResultView)>, tag: int) -> int {
    choose|k: int| 0 <= k < arrived.len() && (#[trigger] arrived[k]).0 == tag
}

/// The results that came back, by ascending tag and without the tags.
pub open spec fn ordered(arrived: Seq<(usize, CommandResultView)>, lo: int, hi: int) -> Seq<
    CommandResultView,
> {
    Seq::new(span(lo, hi), |j: int| arrived[position(arrived, lo + j)].1)
}

/// Whether the tags at the places from `from` on lie within `lo..hi` and are
/// all different.
spec fn distinct_within(
    arrived: Seq<(usize, CommandResultView)>,
    from: int,
    lo: int,
    hi: int,
) -> bool {
    &&& forall|k: int| from <= k < arrived.len() ==> lo <= (#[trigger] arrived[k]).0 < hi
    &&& forall|k: int, l: int|
        from <= k < l < arrived.len() ==> (#[trigger] arrived[k]).0 != (#[trigger] arrived[l]).0
}

/// Whether a result with this tag came back at a place from `from` on.
spec fn occurs_from(arrived: Seq<(usize, CommandResultView)>, from: int, tag: int) -> bool {
    exists|k: int| from <= k < arrived.len() && (#[trigger] arrived[k]).0 == tag
}

/// Mathematical model of the slots that results are sorted into.
spec fn slot_views(slots: Seq<Option<CommandResult>>) -> Seq<Option<CommandResultView>> {
    Seq::new(
        slots.len(),
        |j: int|
            match slots[j] {
                Some(r) => Some(r@),
                None => None,
            },
    )
}

/// Whether the slots hold exactly the results that came back at the places
/// from `from` on, each in the slot of its tag.
spec fn sorted_into(
    slots: Seq<Option<CommandResultView>>,
    arrived: Seq<(usize, CommandResultView)>,
    from: int,
    lo: int,
    hi: int,
) -> bool {
    &&& slots.len() == hi - lo
    &&& distinct_within(arrived, from, lo, hi)
    &&& forall|k: int|
        from <= k < arrived.len() ==> slots[(#[trigger] arrived[k]).0 - lo] == Some(arrived[k].1)
    &&& forall|j: int|
        0 <= j < slots.len() && (#[trigger] slots[j]) is Some ==> occurs_from(arrived, from, lo + j)
}

/// Puts one more result into its slot.
proof fn lemma_sort_one(
    slots: Seq<Option<CommandResultView>>,
    arrived: Seq<(usize, CommandResultView)>,
    from: int,
    lo: int,
    hi: int,
)
    requires
        0 < from <= arrived.len(),
        sorted_into(slots, arrived, from, lo, hi),
        lo <= arrived[from - 1].0 < hi,
        slots[arrived[from - 1].0 - lo] is None,
    ensures
        sorted_into(
            slots.update(arrived[from - 1].0 - lo, Some(arrived[from - 1].1)),
            arrived,
            from - 1,
            lo,
            hi,
        ),
{
}

/// A tag that lies outside the chunk or comes a second time shows that the
/// results are not complete.
proof fn lemma_not_complete(
    slots: Seq<Option<CommandResultView>>,
    arrived: Seq<(usize, CommandResultView)>,
    from: int,
    lo: int,
    hi: int,
)
    requires
        0 < from <= arrived.len(),
        sorted_into(slots, arrived, from, lo, hi),
        !(lo <= arrived[from - 1].0 < hi) || slots[arrived[from - 1].0 - lo] is Some,
    ensures
        !complete(arrived, lo, hi),
{
}

/// Sorts the results of a chunk into one slot for each of its commands.
/// Returns `None` where a tag lies outside `lo..hi` or comes twice.
fn sort_into_slots(arrived: Vec<(usize, CommandResult)>, lo: usize, hi: usize) -> (r: Option<
    Vec<Option<CommandResult>>,
>)
    requires
        lo <= hi,
    ensures
        match r {
            Some(slots) => sorted_into(
                slot_views(slots@),
                arrival_views(arrived@),
                0,
                lo as int,
                hi as int,
            ),
            None => !complete(arrival_views(arrived@), lo as int, hi as int),
        },
{
    let ghost all = arrival_views(arrived@);
    let n: usize = hi - lo;
    let mut slots: Vec<Option<CommandResult>> = Vec::new();
    while slots.len() < n
        invariant
            slots.len() <= n,
            forall|j: int| 0 <= j < slots.len() ==> slots[j] is None,
        decreases n - slots.len(),
    {
        slots.push(None);
    }
    let mut pending = arrived;
    while pending.len() > 0
        invariant
            lo <= hi,
            all == arrival_views(arrived@),
            pending.len() <= all.len(),
            arrival_views(pending@) == all.take(pending.len() as int),
            sorted_into(slot_views(slots@), all, pending.len() as int, lo as int, hi as int),
        decreases pending.len(),
    {
        let ghost from = pending.len() as int;
        let ghost before = slot_views(slots@);
        assert(all[from - 1] == arrival_views(pending@)[from - 1]);
        let (tag, result) = pending.pop().unwrap();
        if tag < lo || tag >= hi {
            proof {
                lemma_not_complete(before, all, from, lo as int, hi as int);
            }
            return None;
        }
        if slots[tag - lo].is_some() {
            proof {
                lemma_not_complete(before, all, from, lo as int, hi as int);
            }
            return None;
        }
        proof {
            lemma_sort_one(before, all, from, lo as int, hi as int);
        }
        slots[tag - lo] = Some(result);
        assert(slot_views(slots@) =~= before.update(tag - lo, Some(all[from - 1].1)));
    }
    Some(slots)
}

/// Takes the results out of their slots, in the order of the slots. Returns
/// `None` where a slot is empty.
fn take_from_slots(slots: Vec<Option<CommandResult>>) -> (r: Option<Vec<CommandResult>>)
    ensures
        match r {
            Some(results) => results.len() == slots.len() && forall|j: int|
                0 <= j < slots.len() ==> slot_views(slots@)[j] == Some((#[trigger] results[j])@),
            None => exists|j: int|
                0 <= j < slots.len() && (#[trigger] slot_views(slots@)[j]) is None,
        },
{
    let ghost all = slot_views(slots@);
    let n = slots.len();
    let mut pending = slots;
    let mut reversed: Vec<CommandResult> = Vec::new();
    while pending.len() > 0
        invariant
            all == slot_views(slots@),
            n == all.len(),
            pending.len() <= n,
            reversed.len() == n - pending.len(),
            slot_views(pending@) == all.take(pending.len() as int),
            forall|j: int|
                pending.len() <= j < n ==> all[j] == Some((#[trigger] reversed[n - 1 - j])@),
        decreases pending.len(),
    {
        let ghost j = pending.len() - 1;
        assert(all[j] == slot_views(pending@)[j]);
        let slot = pending.pop().unwrap();
        match slot {
            Some(result) => {
                reversed.push(result);
            },
            None => {
                return None;
            },
        }
    }
    let mut results: Vec<CommandResult> = Vec::new();
    while reversed.len() > 0
        invariant
            n == all.len(),
            reversed.len() <= n,
            results.len() == n - reversed.len(),
            forall|j: int| 0 <= j < results.len() ==> all[j] == Some((#[trigger] results[j])@),
            forall|j: int|
                results.len() <= j < n ==> all[j] == Some((#[trigger] reversed[n - 1 - j])@),
        decreases reversed.len(),
    {
        let ghost j = results.len() as int;
        assert(all[j] == Some(reversed[n - 1 - j]@));
        let result = reversed.pop().unwrap();
        results.push(result);
    }
    Some(results)
}

/// Puts the results of a chunk back into the order of its commands. Returns
/// `None` where the tags are not the indices from `lo` up to `hi`, each once.
pub fn order_results(arrived: Vec<(usize, CommandResult)>, lo: usize, hi: usize) -> (r: Option<
    Vec<CommandResult>,
>)
    ensures
        match r {
            Some(results) => complete(arrival_views(arrived@), lo as int, hi as int)
                && views(results@) == ordered(arrival_views(arrived@), lo as int, hi as int),
            None => !complete(arrival_views(arrived@), lo as int, hi as int),
        },
{
    let ghost all = arrival_views(arrived@);
    if lo > hi {
        if arrived.len() == 0 {
            let none: Vec<CommandResult> = Vec::new();
            return Some(none);
        }
        assert(!(lo <= all[0].0 < hi));
        return None;
    }
    let slots = match sort_into_slots(arrived, lo, hi) {
        Some(slots) => slots,
        None => {
            return None;
        },
    };
    let ghost sorted = slot_views(slots@);
    match take_from_slots(slots) {
        Some(results) => {
            proof {
                assert forall|i: int| lo <= i < hi implies occurs(all, i) by {
                    assert(sorted[i - lo] == Some(results[i - lo]@));
                }
                assert forall|j: int| 0 <= j < hi - lo implies (#[trigger] views(results@)[j])
                    == ordered(all, lo as int, hi as int)[j] by {
                    assert(occurs(all, lo + j));
                }
            }
            Some(results)
        },
        None => {
            proof {
                let j = choose|j: int| 0 <= j < sorted.len() && (#[trigger] sorted[j]) is None;
                if occurs(all, lo + j) {
                    let k = choose|k: int| 0 <= k < all.len() && (#[trigger] all[k]).0 == lo + j;
                    assert(sorted[all[k].0 - lo] == Some(all[k].1));
                }
                assert(!occurs(all, lo + j));
            }
            None
        },
    }
}

/// Mathematical model of a [`Batch`]: the commands, the bound, and the
/// results of the chunks that have completed.
pub struct BatchView {
    pub commands: Seq<CommandView>,
    pub max_parallel: usize,
    pub results: Seq<CommandResultView>,
}

/// A run of a list of commands that waits for the results of one chunk. The
/// chunk starts where the results so far end, and no other command is running.
pub struct Batch {
    commands: Vec<Command>,
    max_parallel: usize,
    results: Vec<CommandResult>,
}

impl View for Batch {
    type V = BatchView;

    closed spec fn view(&self) -> BatchView {
        BatchView {
            commands: views(self.commands@),
            max_parallel: self.max_parallel,
            results: views(self.results@),
        }
    }
}

/// Where a batch stands after a decision.
pub enum Schedule {
    /// The caller runs each command of the chunk, all at the same time, and
    /// reports the tagged results to [`Batch::collect`] once each command has
    /// one.
    Dispatch { batch: Batch, chunk: Vec<(usize, Command)> },
    /// Every command has its result; the results are in the order of the
    /// commands.
    Finished { results: Vec<CommandResult> },
}

/// Mathematical model of a [`Schedule`].
pub enum ScheduleView {
    Dispatch { batch: BatchView, chunk: Seq<(usize, CommandView)> },
    Finished { results: Seq<CommandResultView> },
}

impl View for Schedule {
    type V = ScheduleView;

    open spec fn view(&self) -> ScheduleView {
        match *self {
            Schedule::Dispatch { batch, chunk } => ScheduleView::Dispatch {
                batch: batch@,
                chunk: job_views(chunk@),
            },
            Schedule::Finished { results } => ScheduleView::Finished { results: views(results@) },
        }
    }
}

/// What happened to the chunk that was dispatched.
pub enum ChunkEvent {
    /// Every worker of the chunk has ended; these are the tagged results in
    /// the order in which they came in.
    Completed { arrived: Vec<(usize, CommandResult)> },
    /// No worker could be started for the command of this name.
    SpawnFailed { name: String, reason: String },
}

/// Mathematical model of a [`ChunkEvent`].
pub enum ChunkEventView {
    Completed { arrived: Seq<(usize, CommandResultView)> },
    SpawnFailed { name: Seq<char>, reason: Seq<char> },
}

impl View for ChunkEvent {
    type V = ChunkEventView;

    open spec fn view(&self) -> ChunkEventView {
        match *self {
            ChunkEvent::Completed { arrived } => ChunkEventView::Completed {
                arrived: arrival_views(arrived@),
            },
            ChunkEvent::SpawnFailed { name, reason } => ChunkEventView::SpawnFailed {
                name: name@,
                reason: reason@,
            },
        }
    }
}

/// The decision taken once `results` are in: the next chunk of at most
/// `max_parallel` commands is dispatched, or the batch is finished where every
/// command has its result.
pub open spec fn schedule_spec(
    commands: Seq<CommandView>,
    max_parallel: usize,
    results: Seq<CommandResultView>,
) -> ScheduleView {
    if results.len() < commands.len() {
        ScheduleView::Dispatch {
            batch: BatchView { commands, max_parallel, results },
            chunk: jobs(
                commands,
                results.len() as int,
                chunk_end(commands.len() as int, max_parallel as int, results.len() as int),
            ),
        }
    } else {
        ScheduleView::Finished { results }
    }
}

/// The decision taken on what happened to the chunk that a batch waits for.
///
/// Results that are complete are put into the order of the commands and
/// appended to the results so far. A worker that could not be started, or
/// results that are not complete, fail the whole batch.
pub open spec fn collect_spec(batch: BatchView, event: ChunkEventView) -> Result<
    ScheduleView,
    ErrorView,
> {
    let lo = batch.results.len() as int;
    let hi = chunk_end(batch.commands.len() as int, batch.max_parallel as int, lo);
    match event {
        ChunkEventView::Completed { arrived } => if complete(arrived, lo, hi) {
            Ok(
                schedule_spec(
                    batch.commands,
                    batch.max_parallel,
                    batch.results + ordered(arrived, lo, hi),
                ),
            )
        } else {
            Err(ErrorView::ResultsLost)
        },
        ChunkEventView::SpawnFailed { name, reason } => Err(
            ErrorView::ExecuteCommandFailed { name, reason },
        ),
    }
}

/// Takes the decision that follows once `results` are in.
fn schedule(commands: Vec<Command>, max_parallel: usize, results: Vec<CommandResult>) -> (s:
    Schedule)
    requires
        max_parallel >= 1,
        results.len() <= commands.len(),
    ensures
        s@ == schedule_spec(views(commands@), max_parallel, views(results@)),
{
    let lo = results.len();
    let len = commands.len();
    if lo >= len {
        return Schedule::Finished { results };
    }
    let hi = if max_parallel < len - lo {
        lo + max_parallel
    } else {
        len
    };
    let mut chunk: Vec<(usize, Command)> = Vec::new();
    let mut i = lo;
    while i < hi
        invariant
            lo <= i <= hi <= commands.len(),
            chunk.len() == i - lo,
            forall|j: int| 0 <= j < chunk.len() ==> (#[trigger] chunk[j]).0 == lo + j && chunk[j].1@
                == commands[lo + j]@,
        decreases hi - i,
    {
        chunk.push((i, commands[i].clone()));
        i += 1;
    }
    assert(job_views(chunk@) =~= jobs(views(commands@), lo as int, hi as int));
    Schedule::Dispatch { batch: Batch { commands, max_parallel, results }, chunk }
}

impl Batch {
    #[verifier::type_invariant]
    spec fn well_formed(self) -> bool {
        &&& self.max_parallel >= 1
        &&& self.results.len() < self.commands.len()
    }

    /// Takes the next decision, on what happened to the chunk that was
    /// dispatched.
    pub fn collect(self, event: ChunkEvent) -> (r: Result<Schedule, Error>)
        ensures
            match r {
                Ok(s) => collect_spec(self@, event@) == Ok::<ScheduleView, ErrorView>(s@),
                Err(e) => collect_spec(self@, event@) == Err::<ScheduleView, ErrorView>(e@),
            },
    {
        proof {
            use_type_invariant(&self);
        }
        let Batch { commands, max_parallel, results } = self;
        match event {
            ChunkEvent::Completed { arrived } => {
                let lo = results.len();
                let len = commands.len();
                let hi = if max_parallel < len - lo {
                    lo + max_parallel
                } else {
                    len
                };
                match order_results(arrived, lo, hi) {
                    Some(ordered_results) => {
                        let ghost before = views(results@);
                        let mut results = results;
                        let mut ordered_results = ordered_results;
                        results.append(&mut ordered_results);
                        assert(views(results@) =~= before + ordered(
                            arrival_views(arrived@),
                            lo as int,
                            hi as int,
                        ));
                        Ok(schedule(commands, max_parallel, results))
                    },
                    None => Err(Error::ResultsLost),
                }
            },
            ChunkEvent::SpawnFailed { name, reason } => Err(
                Error::ExecuteCommandFailed { name, reason },
            ),
        }
    }
}

impl ThreadRunner {
    /// Starts a run of `commands` with at most `max_parallel_commands` of
    /// them running at a time.
    pub fn start(&self, commands: &[Command], max_parallel_commands: usize) -> (s: Schedule)
        requires
            max_parallel_commands >= 1,
        ensures
            s@ == schedule_spec(views(commands@), max_parallel_commands, Seq::empty()),
    {
        let mut owned: Vec<Command> = Vec::new();
        let mut i: usize = 0;
        while i < commands.len()
            invariant
                i <= commands.len(),
                owned.len() == i,
                forall|j: int| 0 <= j < i ==> (#[trigger] owned[j])@ == commands[j]@,
            decreases commands.len() - i,
        {
            owned.push(commands[i].clone());
            i += 1;
        }
        assert(views(owned@) =~= views(commands@));
        let results: Vec<CommandResult> = Vec::new();
        assert(views(results@) =~= Seq::empty());
        schedule(owned, max_parallel_commands, results)
    }
}

/// Putting results into order loses none and invents none: of results that
/// are complete, each stands in the output at the place of its tag, and each
/// place of the output holds a result that came back with the tag of the
/// place.
pub proof fn lemma_ordered_keeps_results(
    arrived: Seq<(usize, CommandResultView)>,
    lo: int,
    hi: int,
)
    requires
        complete(arrived, lo, hi),
    ensures
        ordered(arrived, lo, hi).len() == span(lo, hi),
        forall|k: int|
            0 <= k < arrived.len() ==> ordered(arrived, lo, hi)[(#[trigger] arrived[k]).0 - lo]
                == arrived[k].1,
        forall|j: int|
            0 <= j < span(lo, hi) ==> occurs(arrived, lo + j) && arrived[position(
                arrived,
                lo + j,
            )] == ((lo + j) as usize, #[trigger] ordered(arrived, lo, hi)[j]),
{
    assert forall|j: int| 0 <= j < span(lo, hi) implies occurs(arrived, lo + j) && arrived[position(
        arrived,
        lo + j,
    )] == ((lo + j) as usize, #[trigger] ordered(arrived, lo, hi)[j]) by {
        assert(occurs(arrived, lo + j));
    }
}

/// How many commands run at the same time while a batch stands here.
pub open spec fn in_flight(schedule: ScheduleView) -> nat {
    match schedule {
        ScheduleView::Dispatch { chunk, .. } => chunk.len(),
        ScheduleView::Finished { .. } => 0,
    }
}

/// At no point do more than `max_parallel` commands run at the same time: the
/// chunk that is dispatched once `results` are in holds at least one and at
/// most `max_parallel` commands, and they are the next commands of the list,
/// each tagged with its index.
pub proof fn lemma_concurrency_ceiling(
    commands: Seq<CommandView>,
    max_parallel: usize,
    results: Seq<CommandResultView>,
)
    requires
        max_parallel >= 1,
    ensures
        in_flight(schedule_spec(commands, max_parallel, results)) <= max_parallel,
        schedule_spec(commands, max_parallel, results) matches ScheduleView::Dispatch { chunk, .. }
            ==> chunk.len() >= 1 && results.len() + chunk.len() <= commands.len() && forall|j: int|
            0 <= j < chunk.len() ==> (#[trigger] chunk[j]) == (
                (results.len() + j) as usize,
                commands[results.len() + j],
            ),
{
}

/// A chunk is dispatched only once the chunk before it is complete, and the
/// bound holds for it again: whatever happened to the chunk that a batch
/// waited for, no more than `max_parallel` commands run after the decision.
pub proof fn lemma_collect_ceiling(batch: BatchView, event: ChunkEventView)
    requires
        batch.max_parallel >= 1,
    ensures
        collect_spec(batch, event) matches Ok(next) ==> in_flight(next) <= batch.max_parallel,
        collect_spec(batch, event) is Ok ==> (event matches ChunkEventView::Completed { arrived }
            && complete(
            arrived,
            batch.results.len() as int,
            chunk_end(
                batch.commands.len() as int,
                batch.max_parallel as int,
                batch.results.len() as int,
            ),
        )),
{
    if let ChunkEventView::Completed { arrived } = event {
        let lo = batch.results.len() as int;
        let hi = chunk_end(batch.commands.len() as int, batch.max_parallel as int, lo);
        lemma_concurrency_ceiling(
            batch.commands,
            batch.max_parallel,
            batch.results + ordered(arrived, lo, hi),
        );
    }
}

/// The results of a whole run: the decisions from `schedule` on, with the
/// results of each chunk coming back as `arrivals` has them, or `None` where
/// the run fails or the arrivals run out before it is finished.
pub open spec fn run_spec(
    schedule: ScheduleView,
    arrivals: Seq<Seq<(usize, CommandResultView)>>,
) -> Option<Seq<CommandResultView>>
    decreases arrivals.len(),
{
    match schedule {
        ScheduleView::Finished { results } => Some(results),
        ScheduleView::Dispatch { batch, .. } => if arrivals.len() == 0 {
            None
        } else {
            match collect_spec(batch, ChunkEventView::Completed { arrived: arrivals[0] }) {
                Ok(next) => run_spec(next, arrivals.drop_first()),
                Err(_) => None,
            }
        },
    }
}

/// Whether `arrivals` are what comes back, chunk by chunk from `start` on,
/// when the command at each index `i` ends in `by_index[i]`: for each chunk
/// the results of its commands, tagged with their indices, in any order.
pub open spec fn faithful(
    len: int,
    max_parallel: int,
    start: int,
    by_index: Seq<CommandResultView>,
    arrivals: Seq<Seq<(usize, CommandResultView)>>,
) -> bool
    decreases arrivals.len(),
{
    if start >= len {
        true
    } else {
        &&& arrivals.len() > 0
        &&& complete(arrivals[0], start, chunk_end(len, max_parallel, start))
        &&& forall|k: int|
            0 <= k < arrivals[0].len() ==> (#[trigger] arrivals[0][k]).1
                == by_index[arrivals[0][k].0 as int]
        &&& faithful(
            len,
            max_parallel,
            chunk_end(len, max_parallel, start),
            by_index,
            arrivals.drop_first(),
        )
    }
}

/// The results of a run are in the order of the commands, in whatever order
/// the commands of a chunk finish: where the command at each index `i` ends
/// in `by_index[i]`, the run returns `by_index`.
pub proof fn lemma_order_preserved(
    commands: Seq<CommandView>,
    max_parallel: usize,
    by_index: Seq<CommandResultView>,
    arrivals: Seq<Seq<(usize, CommandResultView)>>,
)
    requires
        max_parallel >= 1,
        by_index.len() == commands.len(),
        faithful(commands.len() as int, max_parallel as int, 0, by_index, arrivals),
    ensures
        run_spec(schedule_spec(commands, max_parallel, Seq::empty()), arrivals) == Some(by_index),
{
    lemma_order_preserved_from(commands, max_parallel, by_index, arrivals, 0);
}

/// The result at each place of what a run returns belongs to the command at
/// that place: where every command ends in a result that owns it, as the
/// results of the execution unit do, the `i`-th result of the run owns the
/// `i`-th command, in whatever order the commands of a chunk finish.
pub proof fn lemma_results_follow_commands(
    commands: Seq<CommandView>,
    max_parallel: usize,
    by_index: Seq<CommandResultView>,
    arrivals: Seq<Seq<(usize, CommandResultView)>>,
)
    requires
        max_parallel >= 1,
        by_index.len() == commands.len(),
        forall|i: int|
            0 <= i < commands.len() ==> (#[trigger] by_index[i]).command() == commands[i],
        faithful(commands.len() as int, max_parallel as int, 0, by_index, arrivals),
    ensures
        run_spec(schedule_spec(commands, max_parallel, Seq::empty()), arrivals) matches Some(
            results,
        ) && results.len() == commands.len() && forall|i: int|
            0 <= i < commands.len() ==> (#[trigger] results[i]).command() == commands[i],
{
    lemma_order_preserved(commands, max_parallel, by_index, arrivals);
}

/// The law of [`lemma_order_preserved`] for a run that has come to `start`.
proof fn lemma_order_preserved_from(
    commands: Seq<CommandView>,
    max_parallel: usize,
    by_index: Seq<CommandResultView>,
    arrivals: Seq<Seq<(usize, CommandResultView)>>,
    start: int,
)
    requires
        max_parallel >= 1,
        by_index.len() == commands.len(),
        0 <= start <= commands.len(),
        faithful(commands.len() as int, max_parallel as int, start, by_index, arrivals),
    ensures
        run_spec(schedule_spec(commands, max_parallel, by_index.take(start)), arrivals) == Some(
            by_index,
        ),
    decreases arrivals.len(),
{
    let len = commands.len() as int;
    let results = by_index.take(start);
    if start < len {
        let end = chunk_end(len, max_parallel as int, start);
        let arrived = arrivals[0];
        let next = results + ordered(arrived, start, end);
        assert forall|j: int| 0 <= j < end - start implies (#[trigger] ordered(
            arrived,
            start,
            end,
        )[j]) == by_index[start + j] by {
            assert(occurs(arrived, start + j));
        }
        assert(next =~= by_index.take(end));
        lemma_order_preserved_from(commands, max_parallel, by_index, arrivals.drop_first(), end);
    }
}

/// How many units of progress a worker reports for a command that ended in
/// `result`: one for every result where progress is reported at all.
pub open spec fn progress_of(reports: bool, result: CommandResultView) -> nat {
    if reports {
        1
    } else {
        0
    }
}

/// The units of progress reported for all of `results`.
pub open spec fn total_progress(reports: bool, results: Seq<CommandResultView>) -> nat
    decreases results.len(),
{
    if results.len() == 0 {
        0
    } else {
        total_progress(reports, results.drop_last()) + progress_of(reports, results.last())
    }
}

/// Where progress is reported, exactly one unit is reported for each command
/// of a batch, whatever its result; where it is not, none is.
pub proof fn lemma_progress_complete(reports: bool, results: Seq<CommandResultView>)
    ensures
        total_progress(reports, results) == if reports {
            results.len()
        } else {
            0
        },
    decreases results.len(),
{
    if results.len() > 0 {
        lemma_progress_complete(reports, results.drop_last());
    }
}

impl ThreadRunner {
    /// The units of progress that the worker of a command sends on the
    /// progress channel once the command has ended in `result`.
    pub fn progress_units(&self, result: &CommandResult) -> (units: usize)
        ensures
            units == progress_of(self.reports_progress(), result@),
    {
        match &self.progress_tx {
            Some(_) => 1,
            None => 0,
        }
    }
}

/// Each repetition of a batch is a run of its own: where the command at each
/// index `i` ends in `by_index[k][i]` in repetition `k`, repetition `k` returns
/// `by_index[k]`, whatever the other repetitions returned and in whatever
/// order the commands of a chunk finish.
pub proof fn lemma_repetitions_independent(
    commands: Seq<CommandView>,
    max_parallel: usize,
    by_index: Seq<Seq<CommandResultView>>,
    arrivals: Seq<Seq<Seq<(usize, CommandResultView)>>>,
)
    requires
        max_parallel >= 1,
        arrivals.len() == by_index.len(),
        forall|k: int|
            0 <= k < by_index.len() ==> (#[trigger] by_index[k]).len() == commands.len()
                && faithful(
                commands.len() as int,
                max_parallel as int,
                0,
                by_index[k],
                arrivals[k],
            ),
    ensures
        forall|k: int|
            0 <= k < by_index.len() ==> run_spec(
                schedule_spec(commands, max_parallel, Seq::empty()),
                #[trigger] arrivals[k],
            ) == Some(by_index[k]),
{
    assert forall|k: int| 0 <= k < by_index.len() implies run_spec(
        schedule_spec(commands, max_parallel, Seq::empty()),
        #[trigger] arrivals[k],
    ) == Some(by_index[k]) by {
        lemma_order_preserved(commands, max_parallel, by_index[k], arrivals[k]);
    }
}

} // verus!
