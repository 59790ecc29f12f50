//! The command line as the outside argument parser sees it.
//!
//! Parsing itself is done by `clap`. This module declares the program to it
//! and brings back what it reports as plain values; nothing here decides
//! anything.

use crate::args::{ArgMatches, Matches};
use clap::{App, AppSettings};
use vstd::prelude::*;

verus! {

/// The program's name, as shown in its version line.
pub const PROGRAM: &'static str = "ner";

/// The program's version.
pub const VERSION: &'static str = "0.1.0";

/// One line on what the program does, shown in its help text.
pub const ABOUT: &'static str = "Recognises entities in a text";

/// The options and arguments, one per line, in `clap`'s usage notation.
/// Each is known to the parser by its long name, the positional argument by
/// the name between the brackets.
pub const USAGE: &'static str = "-v, --verbose 'Log at info level'
--debug 'Log at debug level'
-q, --quiet 'Disable logging'
--version 'Print version information'
[INPUT FILE] 'The file to read; standard input when absent'";

/// What the argument parser reports for a command line.
#[derive(Clone, Debug)]
pub enum Parse {
    /// The command line was accepted.
    Matched {
        /// The options that configure a run.
        matches: ArgMatches,
        /// Whether `--version` was given.
        version: bool,
    },
    /// The parser stopped with a message for the user.
    Stopped {
        /// Whether the message reports a mistake, and so belongs on standard
        /// error; help text does not.
        to_stderr: bool,
        /// The text to show.
        message: String,
    },
}

/// Mathematical model of a report: the part of it that the command line
/// alone determines. The text of a message is left out. Where several
/// options are at fault, the parser names the one it meets first in a hash
/// map, so the same command line may give different texts.
pub ghost enum Report {
    /// The command line was accepted.
    Matched { matches: Matches, version: bool },
    /// The parser stopped with a message, for standard error or not.
    Stopped { to_stderr: bool },
}

impl View for Parse {
    type V = Report;

    open spec fn view(&self) -> Report {
        match *self {
            Parse::Matched { matches, version } => Report::Matched { matches: matches@, version },
            Parse::Stopped { to_stderr, message } => Report::Stopped { to_stderr },
        }
    }
}

/// The report of `clap`, less its text, for the command line `argv`, whose
/// first element is the program's path.
pub uninterp spec fn clap_report(argv: Seq<Seq<char>>) -> Report;

/// Runs `clap::App::get_matches_from_safe` on `argv`, for the application
/// that `PROGRAM`, `ABOUT` and `USAGE` declare, and reads the report off with
/// `ArgMatches::is_present`, `ArgMatches::value_of` and `Error::use_stderr`.
///
/// Trusted: that `argv` alone determines whether the command line is
/// accepted, what it matched, and for which stream a message is meant. The
/// parser reads no input and writes nothing: help text is rendered into the
/// message, and declaring `--version` as an option of our own keeps `clap`
/// from printing the version itself. Colour is switched off, so the text
/// does not depend on the terminal either. The arguments are `String`s, so
/// `value_of` never meets the invalid UTF-8 on which it panics.
#[verifier::external_body]
pub(crate) fn get_matches(argv: &Vec<String>) -> (parse: Parse)
    ensures
        parse@ == clap_report(argv.deep_view()),
{
    let app = App::new(PROGRAM).about(ABOUT).setting(AppSettings::ColorNever).args_from_usage(USAGE);
    match app.get_matches_from_safe(argv) {
        Ok(m) => Parse::Matched {
            matches: ArgMatches {
                verbose: m.is_present("verbose"),
                debug: m.is_present("debug"),
                quiet: m.is_present("quiet"),
                input: m.value_of("INPUT FILE").map(String::from),
            },
            version: m.is_present("version"),
        },
        Err(e) => Parse::Stopped { to_stderr: e.use_stderr(), message: e.message },
    }
}

/// The line shown for `--version`: name, a space, version.
pub open spec fn version_text() -> Seq<char> {
    PROGRAM@ + " "@ + VERSION@
}

/// Builds the line shown for `--version`.
pub fn version_line() -> (line: String)
    ensures
        line@ == version_text(),
{
    let mut line = String::from_str(PROGRAM);
    line.append(" ");
    line.append(VERSION);
    line
}

} // verus!
