//! The `format` command: from its arguments to the rendered text, one read
//! at a time.
//!
//! The command neither reads, renders nor prints. [`Cli::execute`] resolves
//! the inputs and gives a [`FormatRun`], which names the file to read next,
//! first each input and then the template, and takes what the read gave. Once
//! the template is read, the run hands out what the renderer is to be given:
//!
//! ```text
//! let mut run = cli.execute()?;
//! let request = loop {
//!     let read = /* read the bytes at `run.wanted()` */;
//!     match run.supply(read)? {
//!         Progress::Pending(next) => run = next,
//!         Progress::Render(request) => break request,
//!     }
//! };
//! let output = rendering(/* render `request` */)?;
//! ```

use vstd::prelude::*;

use crate::environment::Environment;
use crate::failure::{joined, Failure, FailureView};
use crate::pattern::{is_resolution, literal_resolution};
use crate::population::{Population, PopulationView};
use crate::object::{environment_object, object_nodes};
use crate::read::{read_text, ReadOutcome};
use crate::render::RenderRequest;
use crate::settings::EnvironmentPopulateSettings;

verus! {

/// The command line.
#[derive(Debug)]
pub struct Cli {
    pub command: CliCommand,
}

/// The commands of the command line.
#[derive(Debug)]
pub enum CliCommand {
    /// Render a template against input files.
    Format(CliFormatCommand),
}

/// The arguments of the `format` command.
#[derive(Debug)]
pub struct CliFormatCommand {
    /// The path of the template.
    pub template: String,
    /// File paths or glob patterns. Which of the two a string is, is decided
    /// string by string, unless `no_globs` is set.
    pub input: Vec<String>,
    /// Take every input as a file path.
    pub no_globs: bool,
    /// Keep leading and trailing whitespace of the files' contents.
    pub no_trim: bool,
}

/// A [`FormatRun`] as a mathematical value.
pub struct FormatRunView {
    pub template: Seq<char>,
    pub population: PopulationView,
}

impl FormatRunView {
    /// The path of the file to read next: the next input while inputs are
    /// left to load, then the template.
    pub open spec fn wanted(self) -> Seq<char> {
        match self.population.next_path() {
            Some(path) => path,
            None => self.template,
        }
    }
}

/// A `format` command under way: the inputs are resolved, and the files are
/// loaded and the template rendered as the caller hands in what it read.
#[derive(Debug)]
pub struct FormatRun {
    template: String,
    population: Population,
}

/// How far a [`FormatRun`] has come after a read.
#[derive(Debug)]
pub enum Progress {
    /// More is to be read.
    Pending(FormatRun),
    /// Every file is read; this is what the renderer is to be handed.
    Render(RenderRequest),
}

impl View for FormatRun {
    type V = FormatRunView;

    closed spec fn view(&self) -> FormatRunView {
        FormatRunView { template: self.template@, population: self.population@ }
    }
}

impl FormatRun {
    /// The path of the file whose bytes are to be read next.
    pub fn wanted(&self) -> (path: &str)
        ensures
            path@ == self@.wanted(),
    {
        match self.population.next_path() {
            Some(path) => path,
            None => self.template.as_str(),
        }
    }

    /// Takes what reading the wanted file gave.
    ///
    /// While inputs are left, the read is that of the next input: the run
    /// goes on with one file more, or ends with the failure to load it. Once
    /// every input is loaded, the read is that of the template: the run ends
    /// with what the renderer is to be handed, the template's text and the
    /// object graph of the loaded files, or with the failure to read the
    /// template.
    pub fn supply(self, read: ReadOutcome) -> (result: Result<Progress, Failure>)
        ensures
            match self@.population.next_path() {
                Some(_) => match self@.population.accept(read@) {
                    Ok(next) => result matches Ok(Progress::Pending(run)) && run@ == (FormatRunView {
                        template: self@.template,
                        population: next,
                    }),
                    Err(failure) => result matches Err(f) && f@ == failure,
                },
                None => match read_text(self@.template, read@) {
                    Err(failure) => result matches Err(f) && f@ == failure,
                    Ok(text) => result matches Ok(Progress::Render(request)) && request.source@
                        == text && object_nodes(request.globals) == environment_object(
                        self@.population.files,
                    ),
                },
            },
    {
        let FormatRun { template, population } = self;
        if population.is_complete() {
            match population.finish() {
                Some(environment) => match environment.run_preprocessor(template.as_str(), read) {
                    Ok(request) => Ok(Progress::Render(request)),
                    Err(failure) => Err(failure),
                },
                None => unreached(),
            }
        } else {
            match population.accept(read) {
                Ok(population) => Ok(Progress::Pending(FormatRun { template, population })),
                Err(failure) => Err(failure),
            }
        }
    }
}

impl CliFormatCommand {
    /// The settings that the flags ask for: patterns are expanded unless
    /// `no_globs` is set, and contents are trimmed unless `no_trim` is.
    pub fn settings(&self) -> (settings: EnvironmentPopulateSettings)
        ensures
            settings.allow_globs == !self.no_globs,
            settings.trim_contents == !self.no_trim,
    {
        EnvironmentPopulateSettings::default().set_allow_globs(!self.no_globs).set_trim_contents(
            !self.no_trim,
        )
    }

    /// Resolves the inputs and starts the run. Nothing is read yet.
    pub fn execute(self) -> (result: Result<FormatRun, Failure>)
        ensures
            is_run_of(self, result),
    {
        let settings = self.settings();
        match Environment::populate_from(self.input.as_slice(), settings) {
            Ok(population) => Ok(FormatRun { template: self.template, population }),
            Err(failure) => Err(failure),
        }
    }
}

/// The paths that a run was started over, or the failure in its place, as a
/// mathematical value.
pub open spec fn run_paths(result: Result<FormatRun, Failure>) -> Result<
    Seq<Seq<char>>,
    FailureView,
> {
    match result {
        Ok(run) => Ok(run@.population.paths),
        Err(failure) => Err(failure@),
    }
}

/// Whether `result` is what starting the command gives: a run for the
/// command's template, with nothing loaded yet, over the paths that the
/// inputs resolve to under the settings that the flags ask for.
pub open spec fn is_run_of(command: CliFormatCommand, result: Result<FormatRun, Failure>) -> bool {
    &&& result matches Ok(run) ==> {
        &&& run@.template == command.template@
        &&& run@.population == PopulationView::start(
            run@.population.paths,
            EnvironmentPopulateSettings {
                allow_globs: !command.no_globs,
                trim_contents: !command.no_trim,
            },
        )
        &&& run@.population.well_formed()
    }
    &&& command.no_globs ==> run_paths(result) == literal_resolution(command.input.deep_view())
    &&& !command.no_globs ==> is_resolution(command.input.deep_view(), run_paths(result))
}

impl Cli {
    /// Starts the command that the command line names.
    pub fn execute(self) -> (result: Result<FormatRun, Failure>)
        ensures
            match self.command {
                CliCommand::Format(command) => is_run_of(command, result),
            },
    {
        match self.command {
            CliCommand::Format(command) => command.execute(),
        }
    }
}

impl FailureView {
    /// The line that reports the failure: whether it came of reading a file,
    /// of the template, or of something else, and then what went wrong.
    pub open spec fn report(self) -> Seq<char> {
        match self {
            FailureView::NotFound { .. } | FailureView::Io { .. } | FailureView::Decode { .. } =>
                "Failed to read input(s): "@ + self.message(),
            FailureView::Render { .. } => "Failed to process liquid template: "@ + self.message(),
            _ => "Failed: "@ + self.message(),
        }
    }
}

/// The line that reports why a run failed.
pub fn failure_message(failure: &Failure) -> (line: String)
    ensures
        line@ == failure@.report(),
{
    let message = failure.message();
    match failure {
        Failure::NotFound { .. } | Failure::Io { .. } | Failure::Decode { .. } => joined(
            "Failed to read input(s): ",
            message.as_str(),
        ),
        Failure::Render { .. } => joined("Failed to process liquid template: ", message.as_str()),
        _ => joined("Failed: ", message.as_str()),
    }
}

} // verus!
