//! The decisions of a run: how much to log, what to announce, and how the
//! process ends.
//!
//! Nothing here prints, logs or exits. Each function computes what the entry
//! point is to do and leaves the doing to it.

use crate::args::{resolves, ArgError, Args, Matches, Outcome, STDIN_PATH};
use crate::cli::{clap_report, Report};
use vstd::prelude::*;

verus! {

/// The exit status of a run that succeeded, or that was asked for help or
/// version.
pub const EXIT_SUCCESS: i32 = 0;

/// The exit status of a run that ended in an error.
pub const EXIT_FAILURE: i32 = 2;

/// First progress line of the processing stage.
pub const STAGE_START: &'static str = "***ENTITY RECOGNITION: START!***";

/// Progress line of the multiword step.
pub const STAGE_MULTIWORDS: &'static str = "***   1) Multiwords***";

/// Last progress line of the processing stage.
pub const STAGE_DONE: &'static str = "***ENTITY RECOGNITION: DONE!***";

/// How much of the log is shown.
#[derive(Clone, Copy, Debug, PartialEq, Eq, Structural)]
pub enum LogLevel {
    /// Nothing.
    Off,
    /// Warnings and errors.
    Warn,
    /// Informational messages and above.
    Info,
    /// Debugging messages and above.
    Debug,
}

/// The level that a configuration selects: quiet wins over debug, debug over
/// verbose, and without any of them warnings are shown.
pub open spec fn level_of(config: Matches) -> LogLevel {
    if config.quiet {
        LogLevel::Off
    } else if config.debug {
        LogLevel::Debug
    } else if config.verbose {
        LogLevel::Info
    } else {
        LogLevel::Warn
    }
}

/// Selects the log level of a run.
pub fn log_level(args: &Args) -> (level: LogLevel)
    ensures
        level == level_of(args@),
{
    if args.quiet() {
        LogLevel::Off
    } else if args.debug() {
        LogLevel::Debug
    } else if args.verbose() {
        LogLevel::Info
    } else {
        LogLevel::Warn
    }
}

/// Whether the command line `argv` asks for a run, and `config` is what it
/// matched.
pub open spec fn asks_for_run(argv: Seq<Seq<char>>, config: Matches) -> bool {
    clap_report(argv) == (Report::Matched { matches: config, version: false })
}

/// A command line that asks for a run with none of the three logging options
/// resolves to a configuration that logs warnings and errors.
pub proof fn law_default_level(
    argv: Seq<Seq<char>>,
    config: Matches,
    result: Result<Outcome, ArgError>,
)
    requires
        asks_for_run(argv, config),
        resolves(clap_report(argv), result),
        !config.quiet,
        !config.debug,
        !config.verbose,
    ensures
        result matches Ok(Outcome::Parsed(args)) && level_of(args@) == LogLevel::Warn,
{
}

/// A command line that asks for a run with the quiet option resolves to a
/// configuration that logs nothing, whatever else it asks for.
pub proof fn law_quiet_wins(
    argv: Seq<Seq<char>>,
    config: Matches,
    result: Result<Outcome, ArgError>,
)
    requires
        asks_for_run(argv, config),
        resolves(clap_report(argv), result),
        config.quiet,
    ensures
        result matches Ok(Outcome::Parsed(args)) && level_of(args@) == LogLevel::Off,
{
}

/// A command line that asks for a run with the debug option and without the
/// quiet one resolves to a configuration that logs at debug level, verbose
/// or not.
pub proof fn law_debug_over_verbose(
    argv: Seq<Seq<char>>,
    config: Matches,
    result: Result<Outcome, ArgError>,
)
    requires
        asks_for_run(argv, config),
        resolves(clap_report(argv), result),
        config.debug,
        !config.quiet,
    ensures
        result matches Ok(Outcome::Parsed(args)) && level_of(args@) == LogLevel::Debug,
{
}

/// A command line that asks for a run resolves to a configuration whose
/// input path is the positional argument, or `STDIN_PATH` without one.
pub proof fn law_input_path(
    argv: Seq<Seq<char>>,
    config: Matches,
    result: Result<Outcome, ArgError>,
)
    requires
        asks_for_run(argv, config),
        resolves(clap_report(argv), result),
    ensures
        result matches Ok(Outcome::Parsed(args)) && {
            &&& config.input is None ==> args@.input_path() == STDIN_PATH@
            &&& config.input matches Some(path) ==> args@.input_path() == path
        },
{
}

/// The line that confirms which input a run reads.
pub open spec fn confirmation_text(config: Matches) -> Seq<char> {
    "Using file '"@ + config.input_path() + "' as input"@
}

/// Builds the line that confirms which input a run reads.
pub fn confirmation(args: &Args) -> (line: String)
    ensures
        line@ == confirmation_text(args@),
{
    let mut line = String::from_str("Using file '");
    line.append(args.input());
    line.append("' as input");
    line
}

/// Why the processing stage failed.
#[derive(Clone, Debug)]
pub struct ProcessingError {
    /// The text to show the user.
    pub message: String,
}

/// The progress lines of the processing stage, in order.
pub open spec fn stage_lines() -> Seq<Seq<char>> {
    seq![STAGE_START@, STAGE_MULTIWORDS@, STAGE_DONE@]
}

/// The processing stage. It recognises nothing yet: it succeeds on every
/// call and returns its progress lines, for the caller to log at info level.
pub fn process_input() -> (result: Result<Vec<String>, ProcessingError>)
    ensures
        result matches Ok(lines) && lines.deep_view() == stage_lines(),
{
    let mut lines: Vec<String> = Vec::new();
    lines.push(String::from_str(STAGE_START));
    lines.push(String::from_str(STAGE_MULTIWORDS));
    lines.push(String::from_str(STAGE_DONE));
    assert(lines.deep_view() =~= stage_lines());
    Ok(lines)
}

/// How the process ends: what it writes, each text followed by a line feed,
/// and its exit status.
#[derive(Clone, Debug)]
pub struct Exit {
    /// The exit status.
    pub status: i32,
    /// The text for standard output, if there is any.
    pub stdout: Option<String>,
    /// The text for standard error, if there is any.
    pub stderr: Option<String>,
}

/// What the entry point does once the command line is resolved.
#[derive(Clone, Debug)]
pub enum Startup {
    /// Run with this configuration.
    Run(Args),
    /// End at once.
    Exit(Exit),
}

/// Whether `startup` is what follows from the outcome `resolution` of
/// argument resolution.
///
/// A configuration starts a run. Help and version go to standard output and
/// end the process with success. A usage error goes to standard error and
/// ends it with failure.
pub open spec fn starts_as(resolution: Result<Outcome, ArgError>, startup: Startup) -> bool {
    match resolution {
        Ok(Outcome::Parsed(args)) => startup matches Startup::Run(config) && config@ == args@,
        Ok(Outcome::HelpRequested(text)) | Ok(Outcome::VersionRequested(text)) => {
            &&& startup matches Startup::Exit(exit)
            &&& exit.status == EXIT_SUCCESS
            &&& exit.stdout matches Some(shown)
            &&& shown@ == text@
            &&& exit.stderr is None
        },
        Err(ArgError::Usage(message)) => {
            &&& startup matches Startup::Exit(exit)
            &&& exit.status == EXIT_FAILURE
            &&& exit.stdout is None
            &&& exit.stderr matches Some(shown)
            &&& shown@ == message@
        },
    }
}

/// Decides what follows argument resolution.
pub fn startup(resolution: Result<Outcome, ArgError>) -> (startup: Startup)
    ensures
        starts_as(resolution, startup),
{
    match resolution {
        Ok(Outcome::Parsed(args)) => Startup::Run(args),
        Ok(Outcome::HelpRequested(text)) => Startup::Exit(
            Exit { status: EXIT_SUCCESS, stdout: Some(text), stderr: None },
        ),
        Ok(Outcome::VersionRequested(text)) => Startup::Exit(
            Exit { status: EXIT_SUCCESS, stdout: Some(text), stderr: None },
        ),
        Err(ArgError::Usage(message)) => Startup::Exit(
            Exit { status: EXIT_FAILURE, stdout: None, stderr: Some(message) },
        ),
    }
}

/// Decides how the process ends after the processing stage: in silence and
/// with success, or with the error's text on standard error and failure.
pub fn finish(result: Result<(), ProcessingError>) -> (exit: Exit)
    ensures
        exit.stdout is None,
        match result {
            Ok(_) => exit.status == EXIT_SUCCESS && exit.stderr is None,
            Err(error) => {
                &&& exit.status == EXIT_FAILURE
                &&& exit.stderr matches Some(shown)
                &&& shown@ == error.message@
            },
        },
{
    match result {
        Ok(_) => Exit { status: EXIT_SUCCESS, stdout: None, stderr: None },
        Err(error) => Exit { status: EXIT_FAILURE, stdout: None, stderr: Some(error.message) },
    }
}

} // verus!
