//! What the command line decides before a run: the form of the output, which
//! commands run, how often and how many at a time, and whether progress is
//! shown.

use crate::analysis::{uname_line, Context, ContextView, Uname};
use crate::command::{Command, CommandView};
use crate::config;
use crate::config::{
    contains_name, first_named, has_profile, select, selected, Config, ConfigView, ProfileView,
};
use crate::model::{same_text, texts, views};
use crate::renderer::{create_renderer, renderer_for, RendererChoice, RendererChoiceView};
use vstd::prelude::*;

verus! {

/// The text that `str::to_lowercase` of the standard library returns: each
/// character replaced by its lowercase form as Unicode defines it.
pub uninterp spec fn lowercase(text: Seq<char>) -> Seq<char>;

/// Calls `str::to_lowercase`. The result depends on the text alone and is
/// named by [`lowercase`].
#[verifier::external_body]
fn to_lowercase(text: &str) -> (lower: String)
    ensures
        lower@ == lowercase(text@),
{
    text.to_lowercase()
}

/// The form of the report.
#[derive(Debug, PartialEq, Eq, Clone, Copy)]
pub enum OutputType {
    /// A template of the caller.
    Hbs,
    /// The built-in HTML template.
    Html,
    /// The report as JSON.
    Json,
    /// The built-in Markdown template.
    Markdown,
}

/// Why the command line cannot be followed.
#[derive(Debug)]
pub enum Error {
    /// No form of output has this name.
    UnknownOutputType { name: String },
    /// A template of the caller was asked for and none was named.
    MissingOutputTemplate,
    /// No command may run at a time.
    NoParallelCommands,
    /// The commands are to be run zero times.
    NoRepetitions,
    /// There are more runs of commands than can be counted.
    TooManyCommands,
    /// The configuration does not hold what was asked for.
    InvalidConfig { source: config::Error },
}

/// Mathematical model of an [`Error`].
pub enum ErrorView {
    UnknownOutputType { name: Seq<char> },
    MissingOutputTemplate,
    NoParallelCommands,
    NoRepetitions,
    TooManyCommands,
    InvalidConfig { source: config::ErrorView },
}

impl View for Error {
    type V = ErrorView;

    open spec fn view(&self) -> ErrorView {
        match *self {
            Error::UnknownOutputType { name } => ErrorView::UnknownOutputType { name: name@ },
            Error::MissingOutputTemplate => ErrorView::MissingOutputTemplate,
            Error::NoParallelCommands => ErrorView::NoParallelCommands,
            Error::NoRepetitions => ErrorView::NoRepetitions,
            Error::TooManyCommands => ErrorView::TooManyCommands,
            Error::InvalidConfig { source } => ErrorView::InvalidConfig { source: source@ },
        }
    }
}

/// What an error says to the user.
pub open spec fn message_spec(error: ErrorView) -> Seq<char> {
    match error {
        ErrorView::UnknownOutputType { name } => "failed to parse "@ + name + " as output type"@,
        ErrorView::MissingOutputTemplate => "Output type hbs requires output template"@,
        ErrorView::NoParallelCommands => "at least one command has to run at a time"@,
        ErrorView::NoRepetitions => "commands have to run at least once"@,
        ErrorView::TooManyCommands => "too many runs of commands"@,
        ErrorView::InvalidConfig { source } => config::message_spec(source),
    }
}

impl Error {
    /// What the error says to the user.
    pub fn message(&self) -> (message: String)
        ensures
            message@ == message_spec(self@),
    {
        match self {
            Error::UnknownOutputType { name } => {
                let mut message = "failed to parse ".to_owned();
                message.append(name.as_str());
                message.append(" as output type");
                message
            },
            Error::MissingOutputTemplate => "Output type hbs requires output template".to_owned(),
            Error::NoParallelCommands => "at least one command has to run at a time".to_owned(),
            Error::NoRepetitions => "commands have to run at least once".to_owned(),
            Error::TooManyCommands => "too many runs of commands".to_owned(),
            Error::InvalidConfig { source } => source.message(),
        }
    }
}

/// The form of output that a name in lowercase stands for.
pub open spec fn output_type_of(lower: Seq<char>) -> Option<OutputType> {
    if lower == "hbs"@ {
        Some(OutputType::Hbs)
    } else if lower == "html"@ {
        Some(OutputType::Html)
    } else if lower == "json"@ {
        Some(OutputType::Json)
    } else if lower == "markdown"@ {
        Some(OutputType::Markdown)
    } else {
        None
    }
}

impl OutputType {
    /// The form of output that a name in lowercase stands for.
    pub fn from_lowercase(lower: &str) -> (output_type: Option<OutputType>)
        ensures
            output_type == output_type_of(lower@),
    {
        if same_text(lower, "hbs") {
            Some(OutputType::Hbs)
        } else if same_text(lower, "html") {
            Some(OutputType::Html)
        } else if same_text(lower, "json") {
            Some(OutputType::Json)
        } else if same_text(lower, "markdown") {
            Some(OutputType::Markdown)
        } else {
            None
        }
    }

    /// The form of output that a name stands for, in whatever case it is
    /// written.
    pub fn from_str(s: &str) -> (r: Result<OutputType, Error>)
        ensures
            match r {
                Ok(output_type) => output_type_of(lowercase(s@)) == Some(output_type),
                Err(e) => output_type_of(lowercase(s@)) is None && e@ == (
                    ErrorView::UnknownOutputType { name: s@ }),
            },
    {
        let lower = to_lowercase(s);
        match OutputType::from_lowercase(lower.as_str()) {
            Some(output_type) => Ok(output_type),
            None => Err(Error::UnknownOutputType { name: s.to_owned() }),
        }
    }
}

/// What the command line holds, as plain values.
#[derive(Debug)]
pub struct Opt {
    /// Path of the configuration, or none for the built-in one.
    pub config: Option<String>,
    /// The form of the report.
    pub output_type: OutputType,
    /// Path of the template, for the output type `Hbs`.
    pub output_template: Option<String>,
    /// How many commands run at a time; goes before the configuration.
    pub parallel: Option<usize>,
    /// How many times the commands are run; goes before the configuration.
    pub repetitions: Option<usize>,
    /// Show progress in any case.
    pub progress: bool,
    /// Show no progress in any case.
    pub no_progress: bool,
    /// Say what is going on.
    pub debug: bool,
    /// The profile to run.
    pub profile: Option<String>,
    /// Show the configuration and stop.
    pub show_config: bool,
    /// Show the profiles and stop.
    pub show_profiles: bool,
    /// Show the commands and stop.
    pub show_commands: bool,
    /// Commands to add to the profile (`+name`) or to leave out of it
    /// (`-name`).
    pub filter_commands: Vec<String>,
}

impl Opt {
    /// Whether a template of the caller is asked for and none is named.
    pub open spec fn lacks_template(&self) -> bool {
        self.output_type == OutputType::Hbs && self.output_template is None
    }

    /// Checks that a template is named where one of the caller is asked for.
    pub fn validate(self) -> (r: Result<Opt, Error>)
        ensures
            match r {
                Ok(opt) => !self.lacks_template() && opt == self,
                Err(e) => self.lacks_template() && e@ == ErrorView::MissingOutputTemplate,
            },
    {
        let lacks = match self.output_type {
            OutputType::Hbs => self.output_template.is_none(),
            _ => false,
        };
        if lacks {
            Err(Error::MissingOutputTemplate)
        } else {
            Ok(self)
        }
    }
}

/// What the program is asked to do.
#[derive(Debug, PartialEq, Eq, Clone, Copy)]
pub enum Task {
    /// Show the configuration.
    ShowConfig,
    /// Show the profiles.
    ShowProfiles,
    /// Show the commands.
    ShowCommands,
    /// Run the commands and write the report.
    Report,
}

impl Opt {
    /// What the program is asked to do. Of several things to show, the
    /// configuration goes before the profiles and the profiles before the
    /// commands, and only one is shown; the report is for when nothing is to
    /// be shown.
    pub fn task(&self) -> (task: Task)
        ensures
            task == if self.show_config {
                Task::ShowConfig
            } else if self.show_profiles {
                Task::ShowProfiles
            } else if self.show_commands {
                Task::ShowCommands
            } else {
                Task::Report
            },
    {
        if self.show_config {
            Task::ShowConfig
        } else if self.show_profiles {
            Task::ShowProfiles
        } else if self.show_commands {
            Task::ShowCommands
        } else {
            Task::Report
        }
    }
}

/// The context of a report: the host and the time, and as annotations the
/// profile that ran and the version of the program that ran it.
pub fn create_context(
    uname: &Uname,
    date_time: &str,
    profile_name: &str,
    version: &str,
) -> (context: Context)
    ensures
        context@ == (ContextView {
            hostname: uname.nodename@,
            uname: uname_line(*uname),
            date_time: date_time@,
            more: Map::empty().insert("Profile"@, profile_name@).insert(
                "Usereport version"@,
                version@,
            ),
        }),
{
    let mut context = Context::new(uname, date_time);
    context.add("Profile", profile_name);
    context.add("Usereport version", version);
    context
}

/// Whether progress is shown: always where it is asked for, never where it
/// is refused, and else where the progress would go to a terminal.
pub open spec fn show_progress(progress: bool, no_progress: bool, to_terminal: bool) -> bool {
    progress || (!no_progress && to_terminal)
}

/// Decides whether progress is shown. `stderr_is_terminal` says whether
/// standard error, on which progress is drawn, is a terminal.
pub fn is_show_progress(opt: &Opt, stderr_is_terminal: bool) -> (show: bool)
    ensures
        show == show_progress(opt.progress, opt.no_progress, stderr_is_terminal),
{
    if opt.progress {
        return true;
    }
    if opt.no_progress {
        return false;
    }
    if stderr_is_terminal {
        return true;
    }
    false
}

/// The names that `specs` marks with `sign`: of each text that starts with
/// the sign, what follows the sign, in the order of the texts.
pub open spec fn marked(specs: Seq<Seq<char>>, sign: char) -> Seq<Seq<char>>
    decreases specs.len(),
{
    if specs.len() == 0 {
        Seq::empty()
    } else {
        let rest = marked(specs.drop_last(), sign);
        let last = specs.last();
        if last.len() > 0 && last[0] == sign {
            rest.push(last.skip(1))
        } else {
            rest
        }
    }
}

/// Reads which commands are to be added to a profile and which are to be
/// left out of it: the names marked with `+`, and the names marked with `-`.
/// A text with neither sign says nothing.
pub fn create_command_filter(command_spec: &[String]) -> (filter: (Vec<String>, Vec<String>))
    ensures
        texts(filter.0@) == marked(texts(command_spec@), '+'),
        texts(filter.1@) == marked(texts(command_spec@), '-'),
{
    let ghost specs = texts(command_spec@);
    let mut add: Vec<String> = Vec::new();
    let mut remove: Vec<String> = Vec::new();
    let mut i: usize = 0;
    while i < command_spec.len()
        invariant
            i <= command_spec.len(),
            specs == texts(command_spec@),
            texts(add@) == marked(specs.take(i as int), '+'),
            texts(remove@) == marked(specs.take(i as int), '-'),
        decreases command_spec.len() - i,
    {
        let spec = command_spec[i].as_str();
        assert(specs.take(i + 1).drop_last() =~= specs.take(i as int));
        if !spec.is_empty() {
            let sign = spec.get_char(0);
            if sign == '+' {
                let name = spec.substring_char(1, spec.unicode_len());
                add.push(name.to_owned());
            } else if sign == '-' {
                let name = spec.substring_char(1, spec.unicode_len());
                remove.push(name.to_owned());
            }
        }
        i += 1;
    }
    assert(specs.take(command_spec.len() as int) =~= specs);
    (add, remove)
}

/// The commands that a profile names, or `None` where no profile has this
/// name. Of two profiles with one name the first counts.
pub open spec fn profile_commands(profiles: Seq<ProfileView>, name: Seq<char>) -> Option<
    Seq<Seq<char>>,
> {
    if has_profile(profiles, name) {
        Some(profiles[choose|i: int| first_named(profiles, name, i)].commands)
    } else {
        None
    }
}

/// The commands that run: those of the profile but for the ones to be left
/// out, and after them the ones to be added, each group in the order in which
/// the configuration has its commands.
pub open spec fn chosen_commands(
    commands: Seq<CommandView>,
    profile: Seq<Seq<char>>,
    add: Seq<Seq<char>>,
    remove: Seq<Seq<char>>,
) -> Seq<CommandView> {
    selected(commands, profile).filter(|c: CommandView| !remove.contains(c.name)) + selected(
        commands,
        add,
    )
}

/// Only one place is the first place of a name.
proof fn lemma_first_named(profiles: Seq<ProfileView>, name: Seq<char>, i: int)
    requires
        first_named(profiles, name, i),
    ensures
        has_profile(profiles, name),
        (choose|i: int| first_named(profiles, name, i)) == i,
{
}

/// Copies the commands whose names are not among `names`.
fn reject(commands: Vec<Command>, names: &Vec<String>) -> (kept: Vec<Command>)
    ensures
        views(kept@) == views(commands@).filter(
            |c: CommandView| !texts(names@).contains(c.name),
        ),
{
    let ghost all = views(commands@);
    let ghost wanted = |c: CommandView| !texts(names@).contains(c.name);
    let mut kept: Vec<Command> = Vec::new();
    let mut i: usize = 0;
    assert(views(kept@) =~= all.take(0).filter(wanted)) by {
        reveal(Seq::filter);
    }
    while i < commands.len()
        invariant
            i <= commands.len(),
            all == views(commands@),
            wanted == |c: CommandView| !texts(names@).contains(c.name),
            views(kept@) == all.take(i as int).filter(wanted),
        decreases commands.len() - i,
    {
        assert(all.take(i + 1).drop_last() =~= all.take(i as int));
        if !contains_name(names, commands[i].name_string()) {
            kept.push(commands[i].clone());
        }
        assert(views(kept@) == all.take(i + 1).filter(wanted)) by {
            reveal(Seq::filter);
        }
        i += 1;
    }
    assert(all.take(commands.len() as int) =~= all);
    kept
}

/// The name of the profile that runs: the one that the command line names,
/// or else the one that the defaults of the configuration name.
pub fn profile_name<'a>(opt: &'a Opt, config: &'a Config) -> (name: &'a str)
    ensures
        name@ == match opt.profile {
            Some(profile) => profile@,
            None => config@.defaults.profile,
        },
{
    match &opt.profile {
        Some(profile) => profile.as_str(),
        None => config.defaults.profile.as_str(),
    }
}

/// The commands that run for a profile, with those that the command line
/// adds and without those that it leaves out. Fails where the configuration
/// has no profile of this name.
pub fn create_commands(opt: &Opt, config: &Config, profile_name: &str) -> (r: Result<
    Vec<Command>,
    Error,
>)
    ensures
        match r {
            Ok(commands) => profile_commands(config@.profiles, profile_name@) matches Some(profile)
                && views(commands@) == chosen_commands(
                config@.commands,
                profile,
                marked(texts(opt.filter_commands@), '+'),
                marked(texts(opt.filter_commands@), '-'),
            ),
            Err(e) => profile_commands(config@.profiles, profile_name@) is None && e@ == (
                ErrorView::InvalidConfig {
                    source: config::ErrorView::InvalidConfig { reason: "no such profile"@ },
                }),
        },
{
    let (add, remove) = create_command_filter(opt.filter_commands.as_slice());
    let profile = match config.profile(profile_name) {
        Ok(profile) => profile,
        Err(source) => {
            return Err(Error::InvalidConfig { source });
        },
    };
    proof {
        let i = choose|i: int|
            first_named(config@.profiles, profile_name@, i) && *profile
                == #[trigger] config.profiles[i];
        lemma_first_named(config@.profiles, profile_name@, i);
    }
    let mut commands = reject(config.commands_for_profile(profile), &remove);
    let mut additional = select(&config.commands, &add);
    commands.append(&mut additional);
    Ok(commands)
}

/// All that is settled before a report is generated.
pub struct ReportPlan {
    /// How many commands run at a time; at least one.
    pub max_parallel_commands: usize,
    /// How many times the commands of the profile are run; at least once.
    pub repetitions: usize,
    /// Whether progress is shown.
    pub show_progress: bool,
    /// The renderer that writes the report.
    pub renderer: RendererChoice,
    /// The commands that describe the host.
    pub hostinfo: Vec<Command>,
    /// The commands of the profile.
    pub commands: Vec<Command>,
    /// How many runs of a command there are in all.
    pub number_of_commands: usize,
}

/// Mathematical model of a [`ReportPlan`].
pub struct ReportPlanView {
    pub max_parallel_commands: usize,
    pub repetitions: usize,
    pub show_progress: bool,
    pub renderer: RendererChoiceView,
    pub hostinfo: Seq<CommandView>,
    pub commands: Seq<CommandView>,
    pub number_of_commands: usize,
}

impl View for ReportPlan {
    type V = ReportPlanView;

    open spec fn view(&self) -> ReportPlanView {
        ReportPlanView {
            max_parallel_commands: self.max_parallel_commands,
            repetitions: self.repetitions,
            show_progress: self.show_progress,
            renderer: self.renderer@,
            hostinfo: views(self.hostinfo@),
            commands: views(self.commands@),
            number_of_commands: self.number_of_commands,
        }
    }
}

/// A setting of the command line, or that of the configuration where the
/// command line has none.
pub open spec fn setting(given: Option<usize>, default: usize) -> usize {
    match given {
        Some(value) => value,
        None => default,
    }
}

/// How many runs of a command there are in all: one of each command that
/// describes the host, and `repetitions` of each command of the profile.
pub open spec fn runs(hostinfo: int, repetitions: int, commands: int) -> int {
    hostinfo + repetitions * commands
}

/// The text of an optional string.
pub open spec fn path_text(path: Option<String>) -> Option<Seq<char>> {
    match path {
        Some(p) => Some(p@),
        None => None,
    }
}

/// What is settled for a command line and a configuration, or why nothing
/// can be. The checks are made in this order: commands at a time, repetitions,
/// renderer, profile, number of runs.
pub open spec fn plan_spec(
    opt: Opt,
    config: ConfigView,
    profile_name: Seq<char>,
    stderr_is_terminal: bool,
) -> Result<ReportPlanView, ErrorView> {
    let max_parallel_commands = setting(opt.parallel, config.defaults.max_parallel_commands);
    let repetitions = setting(opt.repetitions, config.defaults.repetitions);
    let hostinfo = match config.hostinfo {
        Some(names) => selected(config.commands, names),
        None => Seq::empty(),
    };
    if max_parallel_commands == 0 {
        Err(ErrorView::NoParallelCommands)
    } else if repetitions == 0 {
        Err(ErrorView::NoRepetitions)
    } else {
        match renderer_for(opt.output_type, path_text(opt.output_template)) {
            None => Err(ErrorView::MissingOutputTemplate),
            Some(renderer) => match profile_commands(config.profiles, profile_name) {
                None => Err(
                    ErrorView::InvalidConfig {
                        source: config::ErrorView::InvalidConfig { reason: "no such profile"@ },
                    },
                ),
                Some(profile) => {
                    let commands = chosen_commands(
                        config.commands,
                        profile,
                        marked(texts(opt.filter_commands@), '+'),
                        marked(texts(opt.filter_commands@), '-'),
                    );
                    let number = runs(
                        hostinfo.len() as int,
                        repetitions as int,
                        commands.len() as int,
                    );
                    if number > usize::MAX {
                        Err(ErrorView::TooManyCommands)
                    } else {
                        Ok(
                            ReportPlanView {
                                max_parallel_commands,
                                repetitions,
                                show_progress: show_progress(
                                    opt.progress,
                                    opt.no_progress,
                                    stderr_is_terminal,
                                ),
                                renderer,
                                hostinfo,
                                commands,
                                number_of_commands: number as usize,
                            },
                        )
                    }
                },
            },
        }
    }
}

/// Settles all that a report needs before any command runs: how many
/// commands run at a time and how often, whether progress is shown, which
/// renderer writes the report, which commands run, and how many runs there
/// are in all.
pub fn plan_report(opt: &Opt, config: &Config, profile_name: &str, stderr_is_terminal: bool) -> (r:
    Result<ReportPlan, Error>)
    ensures
        match r {
            Ok(plan) => plan_spec(*opt, config@, profile_name@, stderr_is_terminal) == Ok::<
                ReportPlanView,
                ErrorView,
            >(plan@) && plan.max_parallel_commands >= 1 && plan.repetitions >= 1,
            Err(e) => plan_spec(*opt, config@, profile_name@, stderr_is_terminal) == Err::<
                ReportPlanView,
                ErrorView,
            >(e@),
        },
{
    let max_parallel_commands = match opt.parallel {
        Some(value) => value,
        None => config.defaults.max_parallel_commands,
    };
    let repetitions = match opt.repetitions {
        Some(value) => value,
        None => config.defaults.repetitions,
    };
    if max_parallel_commands == 0 {
        return Err(Error::NoParallelCommands);
    }
    if repetitions == 0 {
        return Err(Error::NoRepetitions);
    }
    let show_progress = is_show_progress(opt, stderr_is_terminal);
    let renderer = match create_renderer(opt.output_type, opt.output_template.as_ref()) {
        Some(renderer) => renderer,
        None => {
            return Err(Error::MissingOutputTemplate);
        },
    };
    let hostinfo = config.commands_for_hostinfo();
    let commands = match create_commands(opt, config, profile_name) {
        Ok(commands) => commands,
        Err(e) => {
            return Err(e);
        },
    };
    let repeated = match repetitions.checked_mul(commands.len()) {
        Some(repeated) => repeated,
        None => {
            return Err(Error::TooManyCommands);
        },
    };
    let number_of_commands = match hostinfo.len().checked_add(repeated) {
        Some(number) => number,
        None => {
            return Err(Error::TooManyCommands);
        },
    };
    Ok(
        ReportPlan {
            max_parallel_commands,
            repetitions,
            show_progress,
            renderer,
            hostinfo,
            commands,
            number_of_commands,
        },
    )
}

/// The texts of `lines` one after the other, with `separator` between two of
/// them.
pub open spec fn joined(lines: Seq<Seq<char>>, separator: Seq<char>) -> Seq<char>
    decreases lines.len(),
{
    if lines.len() == 0 {
        Seq::empty()
    } else if lines.len() == 1 {
        lines[0]
    } else {
        joined(lines.drop_last(), separator) + separator + lines.last()
    }
}

/// The text that a table shows for something that may be missing: the text
/// itself, or a dash.
pub open spec fn or_dash(text: Option<Seq<char>>) -> Seq<char> {
    match text {
        Some(t) => t,
        None => "-"@,
    }
}

/// The row of a profile in the table of profiles: its name, its commands one
/// to a line, and its description.
pub fn profile_row(profile: &config::Profile) -> (row: (String, String, String))
    ensures
        row.0@ == profile@.name,
        row.1@ == joined(profile@.commands, seq!['\n']),
        row.2@ == or_dash(profile@.description),
{
    let mut commands = String::new();
    let mut i: usize = 0;
    let ghost lines = texts(profile.commands@);
    while i < profile.commands.len()
        invariant
            i <= profile.commands.len(),
            lines == texts(profile.commands@),
            commands@ == joined(lines.take(i as int), seq!['\n']),
        decreases profile.commands.len() - i,
    {
        assert(lines.take(i + 1).drop_last() =~= lines.take(i as int));
        if i > 0 {
            proof {
                reveal_strlit("\n");
            }
            commands.append("\n");
        }
        commands.append(profile.commands[i].as_str());
        i += 1;
    }
    assert(lines.take(profile.commands.len() as int) =~= lines);
    let description = match &profile.description {
        Some(d) => d.clone(),
        None => "-".to_owned(),
    };
    (profile.name.clone(), commands, description)
}

/// The row of a command in the table of commands: its name, its command
/// line, and its title.
pub fn command_row(command: &Command) -> (row: (String, String, String))
    ensures
        row.0@ == command@.name,
        row.1@ == command@.command,
        row.2@ == or_dash(command@.title),
{
    let title = match command.title() {
        Some(t) => t.to_owned(),
        None => "-".to_owned(),
    };
    (command.name().to_owned(), command.command().to_owned(), title)
}

} // verus!
