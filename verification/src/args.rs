//! Argument resolution: from a command line to the configuration of a run.

use crate::cli::{clap_report, get_matches, version_line, version_text, Parse, Report};
use std::sync::Arc;
use vstd::prelude::*;

verus! {

/// The input path reported when no positional argument was given.
pub const STDIN_PATH: &'static str = "<stdin>";

/// Mathematical model of the options that configure a run.
pub ghost struct Matches {
    /// `-v` or `--verbose` was given.
    pub verbose: bool,
    /// `--debug` was given.
    pub debug: bool,
    /// `-q` or `--quiet` was given.
    pub quiet: bool,
    /// The positional argument, if one was given.
    pub input: Option<Seq<char>>,
}

impl Matches {
    /// The path of the input: the positional argument, or `STDIN_PATH`
    /// where there is none.
    pub open spec fn input_path(self) -> Seq<char> {
        match self.input {
            Some(path) => path,
            None => STDIN_PATH@,
        }
    }
}

/// The options that configure a run, as a command line gave them.
#[derive(Clone, Debug)]
pub struct ArgMatches {
    pub verbose: bool,
    pub debug: bool,
    pub quiet: bool,
    pub input: Option<String>,
}

impl View for ArgMatches {
    type V = Matches;

    open spec fn view(&self) -> Matches {
        Matches {
            verbose: self.verbose,
            debug: self.debug,
            quiet: self.quiet,
            input: match self.input {
                Some(path) => Some(path@),
                None => None,
            },
        }
    }
}

impl ArgMatches {
    /// Records which options were given and the positional argument, if any.
    pub fn new(verbose: bool, debug: bool, quiet: bool, input: Option<String>) -> (matches: Self)
        ensures
            matches.verbose == verbose,
            matches.debug == debug,
            matches.quiet == quiet,
            matches.input == input,
    {
        ArgMatches { verbose, debug, quiet, input }
    }

    /// Wraps the matches into a configuration. This never fails.
    pub fn to_args(self) -> (result: Result<Args, ArgError>)
        ensures
            result matches Ok(args) && args@ == self@,
    {
        Ok(Args(Arc::new(ArgsImp { matches: self })))
    }
}

/// What an `Args` shares among its clones.
#[derive(Clone, Debug)]
pub struct ArgsImp {
    matches: ArgMatches,
}

/// The configuration of a run. It is made once, from the command line, and
/// only read afterwards; a clone shares the same value.
#[derive(Clone, Debug)]
pub struct Args(Arc<ArgsImp>);

impl View for Args {
    type V = Matches;

    closed spec fn view(&self) -> Matches {
        self.0.matches@
    }
}

/// Why a command line was refused.
#[derive(Clone, Debug)]
pub enum ArgError {
    /// The command line is malformed. The text names the offending detail
    /// and shows the usage.
    Usage(String),
}

impl ArgError {
    /// The text to show the user.
    pub fn message(&self) -> (text: &str)
        ensures
            self matches ArgError::Usage(message) && text@ == message@,
    {
        match self {
            ArgError::Usage(message) => message.as_str(),
        }
    }
}

/// What a well-formed command line asks for.
#[derive(Clone, Debug)]
pub enum Outcome {
    /// A run with this configuration.
    Parsed(Args),
    /// The help text, which is carried along.
    HelpRequested(String),
    /// The version line, which is carried along.
    VersionRequested(String),
}

/// Whether `result` resolves a report whose model is `report`.
///
/// An accepted command line asks for the version if `--version` was given,
/// whatever else it holds, and for a run otherwise. A message for standard
/// error is a usage error; any other message is the help text.
pub open spec fn resolves(report: Report, result: Result<Outcome, ArgError>) -> bool {
    match report {
        Report::Matched { matches, version } => if version {
            result matches Ok(Outcome::VersionRequested(text)) && text@ == version_text()
        } else {
            result matches Ok(Outcome::Parsed(args)) && args@ == matches
        },
        Report::Stopped { to_stderr } => if to_stderr {
            result is Err
        } else {
            result matches Ok(Outcome::HelpRequested(_))
        },
    }
}

/// Whether `result` carries the text of the report `parse`, where that has
/// one.
pub open spec fn keeps_text(parse: Parse, result: Result<Outcome, ArgError>) -> bool {
    parse matches Parse::Stopped { message, .. } ==> match result {
        Ok(Outcome::HelpRequested(text)) | Err(ArgError::Usage(text)) => text@ == message@,
        _ => false,
    }
}

/// Turns the parser's report into the outcome of argument resolution. A
/// message is passed on as it is.
pub fn resolve(parse: Parse) -> (result: Result<Outcome, ArgError>)
    ensures
        resolves(parse@, result),
        keeps_text(parse, result),
{
    match parse {
        Parse::Matched { matches, version } => {
            if version {
                Ok(Outcome::VersionRequested(version_line()))
            } else {
                match matches.to_args() {
                    Ok(args) => Ok(Outcome::Parsed(args)),
                    Err(error) => Err(error),
                }
            }
        },
        Parse::Stopped { to_stderr, message } => {
            if to_stderr {
                Err(ArgError::Usage(message))
            } else {
                Ok(Outcome::HelpRequested(message))
            }
        },
    }
}

impl Args {
    /// Resolves the command line `argv`, whose first element is the
    /// program's path.
    ///
    /// The result resolves the parser's report on `argv`: a configuration,
    /// a request for help or version, or a usage error. The text of the help
    /// and of a usage error is the parser's.
    pub fn parse(argv: Vec<String>) -> (result: Result<Outcome, ArgError>)
        ensures
            resolves(clap_report(argv.deep_view()), result),
    {
        resolve(get_matches(&argv))
    }

    /// The matches this configuration was made from.
    pub fn matches(&self) -> (matches: &ArgMatches)
        ensures
            matches@ == self@,
    {
        &self.0.matches
    }

    /// Whether logging at info level was asked for.
    pub fn verbose(&self) -> (verbose: bool)
        ensures
            verbose == self@.verbose,
    {
        self.0.matches.verbose
    }

    /// Whether logging at debug level was asked for.
    pub fn debug(&self) -> (debug: bool)
        ensures
            debug == self@.debug,
    {
        self.0.matches.debug
    }

    /// Whether logging was switched off.
    pub fn quiet(&self) -> (quiet: bool)
        ensures
            quiet == self@.quiet,
    {
        self.0.matches.quiet
    }

    /// The path of the input, `STDIN_PATH` where none was given.
    pub fn input(&self) -> (path: &str)
        ensures
            path@ == self@.input_path(),
    {
        match &self.0.matches.input {
            Some(path) => path.as_str(),
            None => STDIN_PATH,
        }
    }
}

} // verus!
