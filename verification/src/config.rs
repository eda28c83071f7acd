//! The configuration of a run: the commands that exist, the profiles that
//! select among them, and the defaults.

use crate::command::{Command, CommandView};
use crate::model::{opt_text, texts, views};
use vstd::prelude::*;

verus! {

/// Why a configuration cannot be used.
#[derive(Debug)]
pub enum Error {
    /// The configuration refers to something that it does not hold.
    InvalidConfig { reason: &'static str },
}

/// Mathematical model of an [`Error`].
pub enum ErrorView {
    InvalidConfig { reason: Seq<char> },
}

impl View for Error {
    type V = ErrorView;

    open spec fn view(&self) -> ErrorView {
        match *self {
            Error::InvalidConfig { reason } => ErrorView::InvalidConfig { reason: reason@ },
        }
    }
}

/// What an error says to the user.
pub open spec fn message_spec(error: ErrorView) -> Seq<char> {
    match error {
        ErrorView::InvalidConfig { reason } => "configuration is invalid because "@ + reason,
    }
}

impl Error {
    /// What the error says to the user.
    pub fn message(&self) -> (message: String)
        ensures
            message@ == message_spec(self@),
    {
        match self {
            Error::InvalidConfig { reason } => {
                let mut message = "configuration is invalid because ".to_owned();
                message.append(reason);
                message
            },
        }
    }
}

/// Mathematical model of [`Defaults`].
pub struct DefaultsView {
    pub profile: Seq<char>,
    pub timeout: u64,
    pub repetitions: usize,
    pub max_parallel_commands: usize,
}

/// What holds where the caller asks for nothing else.
#[derive(Debug, PartialEq, Eq, Clone)]
pub struct Defaults {
    /// Name of the profile to run.
    pub profile: String,
    /// Timeout, in seconds, of a command that has none of its own.
    pub timeout: u64,
    /// How many times the main batch is run.
    pub repetitions: usize,
    /// How many commands run at a time.
    pub max_parallel_commands: usize,
}

impl View for Defaults {
    type V = DefaultsView;

    open spec fn view(&self) -> DefaultsView {
        DefaultsView {
            profile: self.profile@,
            timeout: self.timeout,
            repetitions: self.repetitions,
            max_parallel_commands: self.max_parallel_commands,
        }
    }
}

/// The defaults of a configuration that sets none.
pub open spec fn builtin_defaults() -> DefaultsView {
    DefaultsView { profile: "default"@, timeout: 5, repetitions: 1, max_parallel_commands: 64 }
}

impl Default for Defaults {
    fn default() -> (defaults: Self)
        ensures
            defaults@ == builtin_defaults(),
    {
        Defaults {
            profile: "default".to_owned(),
            timeout: 5,
            repetitions: 1,
            max_parallel_commands: 64,
        }
    }
}

/// The name of the profile to run where the configuration names none.
pub fn default_profile() -> (profile: String)
    ensures
        profile@ == builtin_defaults().profile,
{
    "default".to_owned()
}

/// The timeout, in seconds, where the configuration sets none.
pub fn default_timeout() -> (timeout: u64)
    ensures
        timeout == builtin_defaults().timeout,
{
    5
}

/// The number of repetitions where the configuration sets none.
pub fn default_repetitions() -> (repetitions: usize)
    ensures
        repetitions == builtin_defaults().repetitions,
{
    1
}

/// The number of commands that run at a time where the configuration sets
/// none.
pub fn default_max_parallel_commands() -> (max_parallel_commands: usize)
    ensures
        max_parallel_commands == builtin_defaults().max_parallel_commands,
{
    64
}

/// The commands that describe the host, by name.
#[derive(Debug, PartialEq, Eq, Clone)]
pub struct Hostinfo {
    pub commands: Vec<String>,
}

/// Mathematical model of a [`Profile`].
pub struct ProfileView {
    pub name: Seq<char>,
    pub commands: Seq<Seq<char>>,
    pub description: Option<Seq<char>>,
}

/// A named selection of commands.
#[derive(Debug, PartialEq, Eq, Clone)]
pub struct Profile {
    pub name: String,
    pub commands: Vec<String>,
    pub description: Option<String>,
}

impl View for Profile {
    type V = ProfileView;

    open spec fn view(&self) -> ProfileView {
        ProfileView {
            name: self.name@,
            commands: texts(self.commands@),
            description: opt_text(self.description),
        }
    }
}

/// The texts of a list of string slices, in the same order.
pub open spec fn slice_texts(s: Seq<&str>) -> Seq<Seq<char>> {
    Seq::new(s.len(), |i: int| s[i]@)
}

impl Profile {
    /// A profile without a description.
    pub fn new(name: &str, commands: &[&str]) -> (profile: Profile)
        ensures
            profile@ == (ProfileView {
                name: name@,
                commands: slice_texts(commands@),
                description: None,
            }),
    {
        Profile::new_with_description(name, commands, None)
    }

    /// A profile with a description, if one is given.
    pub fn new_with_description(
        name: &str,
        commands: &[&str],
        description: Option<&str>,
    ) -> (profile: Profile)
        ensures
            profile@ == (ProfileView {
                name: name@,
                commands: slice_texts(commands@),
                description: match description {
                    Some(d) => Some(d@),
                    None => None,
                },
            }),
    {
        let mut owned: Vec<String> = Vec::new();
        let mut i: usize = 0;
        while i < commands.len()
            invariant
                i <= commands.len(),
                owned.len() == i,
                forall|j: int| 0 <= j < i ==> (#[trigger] owned[j])@ == commands[j]@,
            decreases commands.len() - i,
        {
            owned.push(commands[i].to_owned());
            i += 1;
        }
        assert(texts(owned@) =~= slice_texts(commands@));
        let description = match description {
            Some(d) => Some(d.to_owned()),
            None => None,
        };
        Profile { name: name.to_owned(), commands: owned, description }
    }
}

/// Mathematical model of a [`Config`].
pub struct ConfigView {
    pub defaults: DefaultsView,
    pub hostinfo: Option<Seq<Seq<char>>>,
    pub profiles: Seq<ProfileView>,
    pub commands: Seq<CommandView>,
}

/// A configuration: defaults, the commands that describe the host, the
/// profiles, and all commands.
#[derive(Debug, PartialEq, Eq, Clone)]
pub struct Config {
    pub defaults: Defaults,
    pub hostinfo: Option<Hostinfo>,
    pub profiles: Vec<Profile>,
    pub commands: Vec<Command>,
}

impl View for Config {
    type V = ConfigView;

    open spec fn view(&self) -> ConfigView {
        ConfigView {
            defaults: self.defaults@,
            hostinfo: match self.hostinfo {
                Some(hostinfo) => Some(texts(hostinfo.commands@)),
                None => None,
            },
            profiles: views(self.profiles@),
            commands: views(self.commands@),
        }
    }
}

/// Whether `name` is among `names`.
pub(crate) fn contains_name(names: &Vec<String>, name: &String) -> (found: bool)
    ensures
        found == texts(names@).contains(name@),
{
    let mut i: usize = 0;
    while i < names.len()
        invariant
            i <= names.len(),
            forall|j: int| 0 <= j < i ==> (#[trigger] texts(names@)[j]) != name@,
        decreases names.len() - i,
    {
        if names[i] == *name {
            assert(texts(names@)[i as int] == name@);
            return true;
        }
        i += 1;
    }
    false
}

/// The commands whose names are among `names`, in the order of the commands.
pub open spec fn selected(commands: Seq<CommandView>, names: Seq<Seq<char>>) -> Seq<CommandView> {
    commands.filter(|c: CommandView| names.contains(c.name))
}

/// Copies the commands whose names are among `names`.
pub(crate) fn select(commands: &Vec<Command>, names: &Vec<String>) -> (chosen: Vec<Command>)
    ensures
        views(chosen@) == selected(views(commands@), texts(names@)),
{
    let ghost all = views(commands@);
    let ghost wanted = |c: CommandView| texts(names@).contains(c.name);
    let mut chosen: Vec<Command> = Vec::new();
    let mut i: usize = 0;
    assert(views(chosen@) =~= all.take(0).filter(wanted)) by {
        reveal(Seq::filter);
    }
    while i < commands.len()
        invariant
            i <= commands.len(),
            all == views(commands@),
            wanted == |c: CommandView| texts(names@).contains(c.name),
            views(chosen@) == all.take(i as int).filter(wanted),
        decreases commands.len() - i,
    {
        assert(all.take(i + 1).drop_last() =~= all.take(i as int));
        if contains_name(names, commands[i].name_string()) {
            chosen.push(commands[i].clone());
        }
        assert(views(chosen@) == all.take(i + 1).filter(wanted)) by {
            reveal(Seq::filter);
        }
        i += 1;
    }
    assert(all.take(commands.len() as int) =~= all);
    chosen
}

/// Whether `i` is the first place at which `profiles` has a profile of this
/// name.
pub open spec fn first_named(profiles: Seq<ProfileView>, name: Seq<char>, i: int) -> bool {
    &&& 0 <= i < profiles.len()
    &&& profiles[i].name == name
    &&& forall|j: int| 0 <= j < i ==> (#[trigger] profiles[j]).name != name
}

/// Whether `profiles` has a profile of this name.
pub open spec fn has_profile(profiles: Seq<ProfileView>, name: Seq<char>) -> bool {
    exists|i: int| 0 <= i < profiles.len() && (#[trigger] profiles[i]).name == name
}

/// Whether a command of this name exists.
pub open spec fn known(commands: Seq<CommandView>, name: Seq<char>) -> bool {
    exists|i: int| 0 <= i < commands.len() && (#[trigger] commands[i]).name == name
}

/// Whether each of `names` is the name of a command that exists.
pub open spec fn all_known(commands: Seq<CommandView>, names: Seq<Seq<char>>) -> bool {
    forall|j: int| 0 <= j < names.len() ==> known(commands, #[trigger] names[j])
}

/// Whether the commands that describe the host all exist.
pub open spec fn hostinfo_valid(config: ConfigView) -> bool {
    config.hostinfo matches Some(names) ==> all_known(config.commands, names)
}

/// Whether the profile that the defaults name exists.
pub open spec fn default_profile_valid(config: ConfigView) -> bool {
    has_profile(config.profiles, config.defaults.profile)
}

/// Whether the commands of every profile all exist.
pub open spec fn profiles_valid(config: ConfigView) -> bool {
    forall|p: int|
        0 <= p < config.profiles.len() ==> all_known(
            config.commands,
            (#[trigger] config.profiles[p]).commands,
        )
}

/// What is wrong with a configuration, if anything: the first of the three
/// checks that fails, in the order in which they are made.
pub open spec fn invalid_reason(config: ConfigView) -> Option<Seq<char>> {
    if !hostinfo_valid(config) {
        Some("hostinfo command not found"@)
    } else if !default_profile_valid(config) {
        Some("no such profile"@)
    } else if !profiles_valid(config) {
        Some("profile command not found"@)
    } else {
        None
    }
}

/// A command with the timeout set to `timeout` where it had none.
pub open spec fn with_default_timeout(command: CommandView, timeout: u64) -> CommandView {
    match command.timeout_sec {
        Some(_) => command,
        None => CommandView { timeout_sec: Some(timeout), ..command },
    }
}

/// Once every command has a timeout, giving them another default changes
/// nothing.
pub proof fn lemma_populate_is_idempotent(command: CommandView, first: u64, second: u64)
    ensures
        with_default_timeout(with_default_timeout(command, first), second) == with_default_timeout(
            command,
            first,
        ),
{
}

/// Whether a command of this name exists.
fn command_known(commands: &Vec<Command>, name: &String) -> (found: bool)
    ensures
        found == known(views(commands@), name@),
{
    let mut i: usize = 0;
    while i < commands.len()
        invariant
            i <= commands.len(),
            forall|j: int| 0 <= j < i ==> (#[trigger] views(commands@)[j]).name != name@,
        decreases commands.len() - i,
    {
        if *commands[i].name_string() == *name {
            assert(views(commands@)[i as int].name == name@);
            return true;
        }
        i += 1;
    }
    false
}

/// Whether each of `names` is the name of a command that exists.
fn commands_known(commands: &Vec<Command>, names: &Vec<String>) -> (found: bool)
    ensures
        found == all_known(views(commands@), texts(names@)),
{
    let mut j: usize = 0;
    while j < names.len()
        invariant
            j <= names.len(),
            forall|k: int|
                0 <= k < j ==> known(views(commands@), #[trigger] texts(names@)[k]),
        decreases names.len() - j,
    {
        if !command_known(commands, &names[j]) {
            assert(!known(views(commands@), texts(names@)[j as int]));
            return false;
        }
        j += 1;
    }
    true
}

impl Config {
    /// The first profile of this name.
    pub fn profile(&self, profile_name: &str) -> (r: Result<&Profile, Error>)
        ensures
            match r {
                Ok(profile) => exists|i: int|
                    first_named(self@.profiles, profile_name@, i) && *profile
                        == #[trigger] self.profiles[i],
                Err(e) => !has_profile(self@.profiles, profile_name@) && e@ == (
                    ErrorView::InvalidConfig { reason: "no such profile"@ }),
            },
    {
        let wanted = profile_name.to_owned();
        let mut i: usize = 0;
        while i < self.profiles.len()
            invariant
                wanted@ == profile_name@,
                i <= self.profiles.len(),
                forall|j: int| 0 <= j < i ==> (#[trigger] self@.profiles[j]).name != profile_name@,
            decreases self.profiles.len() - i,
        {
            if self.profiles[i].name == wanted {
                return Ok(&self.profiles[i]);
            }
            i += 1;
        }
        Err(Error::InvalidConfig { reason: "no such profile" })
    }

    /// The commands that describe the host: those that the host information
    /// names, in the order in which the configuration has them, and none
    /// where it names none.
    pub fn commands_for_hostinfo(&self) -> (commands: Vec<Command>)
        ensures
            views(commands@) == match self@.hostinfo {
                Some(names) => selected(self@.commands, names),
                None => Seq::empty(),
            },
    {
        match &self.hostinfo {
            Some(hostinfo) => select(&self.commands, &hostinfo.commands),
            None => {
                let none: Vec<Command> = Vec::new();
                none
            },
        }
    }

    /// The commands of a profile: those that the profile names, in the order
    /// in which the configuration has them.
    pub fn commands_for_profile(&self, profile: &Profile) -> (commands: Vec<Command>)
        ensures
            views(commands@) == selected(self@.commands, profile@.commands),
    {
        select(&self.commands, &profile.commands)
    }

    /// Checks that the configuration refers to nothing that it does not
    /// hold: the commands that describe the host, the default profile, and
    /// the commands of every profile, in this order.
    pub fn validate(&self) -> (r: Result<(), Error>)
        ensures
            match r {
                Ok(_) => invalid_reason(self@) is None,
                Err(e) => invalid_reason(self@) matches Some(reason) && e@ == (
                    ErrorView::InvalidConfig { reason }),
            },
    {
        match self.validate_host_info() {
            Ok(_) => {},
            Err(e) => {
                return Err(e);
            },
        }
        match self.validate_default_profile() {
            Ok(_) => {},
            Err(e) => {
                return Err(e);
            },
        }
        self.validate_profiles_commands()
    }

    /// Checks that the commands that describe the host all exist.
    pub fn validate_host_info(&self) -> (r: Result<(), Error>)
        ensures
            match r {
                Ok(_) => hostinfo_valid(self@),
                Err(e) => !hostinfo_valid(self@) && e@ == (
                    ErrorView::InvalidConfig { reason: "hostinfo command not found"@ }),
            },
    {
        match &self.hostinfo {
            Some(hostinfo) => if commands_known(&self.commands, &hostinfo.commands) {
                Ok(())
            } else {
                Err(Error::InvalidConfig { reason: "hostinfo command not found" })
            },
            None => Ok(()),
        }
    }

    /// Checks that the profile that the defaults name exists.
    pub fn validate_default_profile(&self) -> (r: Result<(), Error>)
        ensures
            match r {
                Ok(_) => default_profile_valid(self@),
                Err(e) => !default_profile_valid(self@) && e@ == (
                    ErrorView::InvalidConfig { reason: "no such profile"@ }),
            },
    {
        match self.profile(self.defaults.profile.as_str()) {
            Ok(_) => Ok(()),
            Err(e) => Err(e),
        }
    }

    /// Checks that the commands of every profile all exist.
    pub fn validate_profiles_commands(&self) -> (r: Result<(), Error>)
        ensures
            match r {
                Ok(_) => profiles_valid(self@),
                Err(e) => !profiles_valid(self@) && e@ == (
                    ErrorView::InvalidConfig { reason: "profile command not found"@ }),
            },
    {
        let mut p: usize = 0;
        while p < self.profiles.len()
            invariant
                p <= self.profiles.len(),
                forall|q: int|
                    0 <= q < p ==> all_known(
                        self@.commands,
                        (#[trigger] self@.profiles[q]).commands,
                    ),
            decreases self.profiles.len() - p,
        {
            if !commands_known(&self.commands, &self.profiles[p].commands) {
                assert(!all_known(self@.commands, self@.profiles[p as int].commands));
                return Err(Error::InvalidConfig { reason: "profile command not found" });
            }
            p += 1;
        }
        Ok(())
    }

    /// Gives every command that has no timeout the timeout of the defaults.
    pub fn populate_defaults(self) -> (config: Config)
        ensures
            config@ == (ConfigView {
                commands: self@.commands.map_values(
                    |c: CommandView| with_default_timeout(c, self@.defaults.timeout),
                ),
                ..self@
            }),
            forall|i: int|
                0 <= i < config@.commands.len() ==> (#[trigger] config@.commands[i]).timeout_sec
                    is Some,
    {
        let timeout = self.defaults.timeout;
        self.populate_commands_timeout(timeout)
    }

    /// Gives every command that has no timeout this timeout.
    pub fn populate_commands_timeout(self, timeout: u64) -> (config: Config)
        ensures
            config@ == (ConfigView {
                commands: self@.commands.map_values(
                    |c: CommandView| with_default_timeout(c, timeout),
                ),
                ..self@
            }),
            forall|i: int|
                0 <= i < config@.commands.len() ==> (#[trigger] config@.commands[i]).timeout_sec
                    is Some,
    {
        let Config { defaults, hostinfo, profiles, commands } = self;
        let mut populated: Vec<Command> = Vec::new();
        let mut i: usize = 0;
        while i < commands.len()
            invariant
                i <= commands.len(),
                populated.len() == i,
                forall|j: int|
                    0 <= j < i ==> (#[trigger] populated[j])@ == with_default_timeout(
                        commands[j]@,
                        timeout,
                    ),
            decreases commands.len() - i,
        {
            let command = commands[i].clone();
            let command = match command.timeout_sec() {
                Some(_) => command,
                None => command.with_timeout(timeout),
            };
            populated.push(command);
            i += 1;
        }
        assert(views(populated@) =~= views(commands@).map_values(
            |c: CommandView| with_default_timeout(c, timeout),
        ));
        Config { defaults, hostinfo, profiles, commands: populated }
    }
}

} // verus!
