//! Commands, their links, and the results of running them.

use crate::model::{opt_text, texts, views};
use vstd::prelude::*;

verus! {

/// The error of `shellwords::split`, carried from the call to where it is
/// mapped to [`SplitError`].
#[verifier::external_type_specification]
#[verifier::external_body]
pub struct ExMismatchedQuotes(shellwords::MismatchedQuotes);

/// The words that `shellwords::split` finds in a command line by the word
/// rules of the Bourne shell (single quotes, double quotes and backslashes are
/// the only metacharacters), or `None` where a quote has no partner.
pub uninterp spec fn shell_words(line: Seq<char>) -> Option<Seq<Seq<char>>>;

/// Calls `shellwords::split`. The function reads nothing but its argument, so
/// its outcome is named by [`shell_words`]: the words on success, and failure
/// exactly where [`shell_words`] has none.
#[verifier::external_body]
fn split_words(line: &str) -> (r: Result<Vec<String>, shellwords::MismatchedQuotes>)
    ensures
        match r {
            Ok(words) => shell_words(line@) == Some(texts(words@)),
            Err(_) => shell_words(line@) is None,
        },
{
    shellwords::split(line)
}

/// Why a command line could not be split into arguments.
#[derive(Debug, PartialEq, Eq, Clone, Copy)]
pub enum SplitError {
    /// A quoted segment has no closing quote.
    MismatchedQuotes,
}

/// Mathematical model of a [`Link`].
pub struct LinkView {
    pub name: Seq<char>,
    pub url: Seq<char>,
}

/// A named reference to further reading about a command.
#[derive(Debug, PartialEq, Eq)]
pub struct Link {
    pub(crate) name: String,
    pub(crate) url: String,
}

impl View for Link {
    type V = LinkView;

    closed spec fn view(&self) -> LinkView {
        LinkView { name: self.name@, url: self.url@ }
    }
}

impl Clone for Link {
    fn clone(&self) -> (res: Self)
        ensures
            res@ == self@,
    {
        Link { name: self.name.clone(), url: self.url.clone() }
    }
}

impl Link {
    /// Creates a link from its name and target.
    pub fn new(name: &str, url: &str) -> (link: Link)
        ensures
            link@ == (LinkView { name: name@, url: url@ }),
    {
        Link { name: name.to_owned(), url: url.to_owned() }
    }

    /// The display name of the link.
    pub fn name(&self) -> (name: &str)
        ensures
            name@ == self@.name,
    {
        self.name.as_str()
    }

    /// The target of the link.
    pub fn url(&self) -> (url: &str)
        ensures
            url@ == self@.url,
    {
        self.url.as_str()
    }
}

/// Mathematical model of a [`Command`].
pub struct CommandView {
    /// Key of the command within a configured set.
    pub name: Seq<char>,
    /// Display title, if any.
    pub title: Option<Seq<char>>,
    /// Display description, if any.
    pub description: Option<Seq<char>>,
    /// The command line that is split into the arguments of the process.
    pub command: Seq<char>,
    /// Timeout in seconds, if one was set.
    pub timeout_sec: Option<u64>,
    /// Links for further reading, if any.
    pub links: Option<Seq<LinkView>>,
}

/// Timeout, in seconds, of a command that has none of its own.
pub const DEFAULT_TIMEOUT_SEC: u64 = 1;

/// Descriptor of one external command: a name, the command line, and optional
/// display data and timeout. A command is never changed once built; the
/// builders consume it and return the new value.
#[derive(Debug, PartialEq, Eq)]
pub struct Command {
    pub(crate) name: String,
    pub(crate) title: Option<String>,
    pub(crate) description: Option<String>,
    pub(crate) command: String,
    pub(crate) timeout_sec: Option<u64>,
    pub(crate) links: Option<Vec<Link>>,
}

impl View for Command {
    type V = CommandView;

    closed spec fn view(&self) -> CommandView {
        CommandView {
            name: self.name@,
            title: opt_text(self.title),
            description: opt_text(self.description),
            command: self.command@,
            timeout_sec: self.timeout_sec,
            links: match self.links {
                Some(links) => Some(views(links@)),
                None => None,
            },
        }
    }
}

impl Clone for Command {
    fn clone(&self) -> (res: Self)
        ensures
            res@ == self@,
    {
        let title = match &self.title {
            Some(t) => Some(t.clone()),
            None => None,
        };
        let description = match &self.description {
            Some(d) => Some(d.clone()),
            None => None,
        };
        let links = match &self.links {
            Some(l) => {
                let copy = l.clone();
                assert(views(copy@) =~= views(l@));
                Some(copy)
            },
            None => None,
        };
        Command {
            name: self.name.clone(),
            title,
            description,
            command: self.command.clone(),
            timeout_sec: self.timeout_sec,
            links,
        }
    }
}

impl Command {
    /// Creates a command with a name and a command line and nothing else set.
    pub fn new(name: &str, command: &str) -> (c: Command)
        ensures
            c@ == (CommandView {
                name: name@,
                title: None,
                description: None,
                command: command@,
                timeout_sec: None,
                links: None,
            }),
    {
        Command {
            name: name.to_owned(),
            title: None,
            description: None,
            command: command.to_owned(),
            timeout_sec: None,
            links: None,
        }
    }

    /// The name of the command.
    pub fn name(&self) -> (name: &str)
        ensures
            name@ == self@.name,
    {
        self.name.as_str()
    }

    /// The name of the command, as the string that holds it.
    pub(crate) fn name_string(&self) -> (name: &String)
        ensures
            name@ == self@.name,
    {
        &self.name
    }

    /// The command line.
    pub fn command(&self) -> (command: &str)
        ensures
            command@ == self@.command,
    {
        self.command.as_str()
    }

    /// The title, if one was set.
    pub fn title(&self) -> (title: Option<&str>)
        ensures
            title is Some == self@.title is Some,
            title matches Some(t) ==> self@.title == Some(t@),
    {
        match &self.title {
            Some(t) => Some(t.as_str()),
            None => None,
        }
    }

    /// The description, if one was set.
    pub fn description(&self) -> (description: Option<&str>)
        ensures
            description is Some == self@.description is Some,
            description matches Some(d) ==> self@.description == Some(d@),
    {
        match &self.description {
            Some(d) => Some(d.as_str()),
            None => None,
        }
    }

    /// The timeout in seconds, if one was set.
    pub fn timeout_sec(&self) -> (timeout: Option<u64>)
        ensures
            timeout == self@.timeout_sec,
    {
        self.timeout_sec
    }

    /// The links, if any were set.
    pub fn links(&self) -> (links: Option<&Vec<Link>>)
        ensures
            links is Some == self@.links is Some,
            links matches Some(l) ==> self@.links == Some(views(l@)),
    {
        match &self.links {
            Some(l) => Some(l),
            None => None,
        }
    }

    /// The timeout that an execution of this command runs under: its own, or
    /// [`DEFAULT_TIMEOUT_SEC`] where it has none.
    pub fn effective_timeout_sec(&self) -> (timeout: u64)
        ensures
            timeout == effective_timeout(self@),
    {
        match self.timeout_sec {
            Some(t) => t,
            None => DEFAULT_TIMEOUT_SEC,
        }
    }

    /// Splits the command line into the arguments of the process, by the word
    /// rules of the Bourne shell: quoted segments stay one argument.
    pub fn args(&self) -> (r: Result<Vec<String>, SplitError>)
        ensures
            match r {
                Ok(words) => shell_words(self@.command) == Some(texts(words@)),
                Err(e) => shell_words(self@.command) is None && e == SplitError::MismatchedQuotes,
            },
    {
        match split_words(self.command.as_str()) {
            Ok(words) => Ok(words),
            Err(_) => Err(SplitError::MismatchedQuotes),
        }
    }

    /// The result of an attempt that could not be carried out, with the
    /// message of its cause.
    pub fn fail(self, reason: &str) -> (result: CommandResult)
        ensures
            result@ == (CommandResultView::Error { command: self@, reason: reason@ }),
    {
        CommandResult::Error { command: self, reason: reason.to_owned() }
    }

    /// Sets the title.
    pub fn with_title(self, title: &str) -> (c: Command)
        ensures
            c@ == (CommandView { title: Some(title@), ..self@ }),
    {
        Command { title: Some(title.to_owned()), ..self }
    }

    /// Sets the timeout, in seconds.
    pub fn with_timeout(self, timeout_sec: u64) -> (c: Command)
        ensures
            c@ == (CommandView { timeout_sec: Some(timeout_sec), ..self@ }),
    {
        Command { timeout_sec: Some(timeout_sec), ..self }
    }

    /// Sets the description.
    pub fn with_description(self, description: &str) -> (c: Command)
        ensures
            c@ == (CommandView { description: Some(description@), ..self@ }),
    {
        Command { description: Some(description.to_owned()), ..self }
    }

    /// Sets the links.
    pub fn with_links(self, links: Vec<Link>) -> (c: Command)
        ensures
            c@ == (CommandView { links: Some(views(links@)), ..self@ }),
    {
        Command { links: Some(links), ..self }
    }
}

/// The timeout, in seconds, that an execution of a command runs under.
pub open spec fn effective_timeout(c: CommandView) -> u64 {
    match c.timeout_sec {
        Some(t) => t,
        None => DEFAULT_TIMEOUT_SEC,
    }
}

/// Mathematical model of a [`CommandResult`].
pub enum CommandResultView {
    Success { command: CommandView, run_time_ms: u64, stdout: Seq<char> },
    Failed { command: CommandView, run_time_ms: u64, stdout: Seq<char> },
    Timeout { command: CommandView, run_time_ms: u64 },
    Error { command: CommandView, reason: Seq<char> },
}

impl CommandResultView {
    /// The command that the result belongs to.
    pub open spec fn command(self) -> CommandView {
        match self {
            CommandResultView::Success { command, .. } => command,
            CommandResultView::Failed { command, .. } => command,
            CommandResultView::Timeout { command, .. } => command,
            CommandResultView::Error { command, .. } => command,
        }
    }
}

/// Outcome of one attempt to run a command. Each result owns a copy of its
/// command, so it can outlive the list that the command came from.
#[derive(Debug, PartialEq, Eq)]
pub enum CommandResult {
    /// The process exited with status 0 before the deadline; `stdout` holds
    /// what it wrote.
    Success { command: Command, run_time_ms: u64, stdout: String },
    /// The process exited with another status before the deadline; what it
    /// wrote is still captured.
    Failed { command: Command, run_time_ms: u64, stdout: String },
    /// The process did not exit before the deadline and was killed. What it
    /// wrote until then is not kept.
    Timeout { command: Command, run_time_ms: u64 },
    /// The process could not be started, its output could not be read, or it
    /// could not be stopped; `reason` is the message of the cause.
    Error { command: Command, reason: String },
}

impl View for CommandResult {
    type V = CommandResultView;

    open spec fn view(&self) -> CommandResultView {
        match *self {
            CommandResult::Success { command, run_time_ms, stdout } => CommandResultView::Success {
                command: command@,
                run_time_ms,
                stdout: stdout@,
            },
            CommandResult::Failed { command, run_time_ms, stdout } => CommandResultView::Failed {
                command: command@,
                run_time_ms,
                stdout: stdout@,
            },
            CommandResult::Timeout { command, run_time_ms } => CommandResultView::Timeout {
                command: command@,
                run_time_ms,
            },
            CommandResult::Error { command, reason } => CommandResultView::Error {
                command: command@,
                reason: reason@,
            },
        }
    }
}

impl Clone for CommandResult {
    fn clone(&self) -> (res: Self)
        ensures
            res@ == self@,
    {
        match self {
            CommandResult::Success { command, run_time_ms, stdout } => CommandResult::Success {
                command: command.clone(),
                run_time_ms: *run_time_ms,
                stdout: stdout.clone(),
            },
            CommandResult::Failed { command, run_time_ms, stdout } => CommandResult::Failed {
                command: command.clone(),
                run_time_ms: *run_time_ms,
                stdout: stdout.clone(),
            },
            CommandResult::Timeout { command, run_time_ms } => CommandResult::Timeout {
                command: command.clone(),
                run_time_ms: *run_time_ms,
            },
            CommandResult::Error { command, reason } => CommandResult::Error {
                command: command.clone(),
                reason: reason.clone(),
            },
        }
    }
}

impl CommandResult {
    /// The command that the result belongs to.
    pub fn command(&self) -> (command: &Command)
        ensures
            command@ == self@.command(),
    {
        match self {
            CommandResult::Success { command, .. } => command,
            CommandResult::Failed { command, .. } => command,
            CommandResult::Timeout { command, .. } => command,
            CommandResult::Error { command, .. } => command,
        }
    }
}

} // verus!
