//! Command-line front end of the entity recogniser: argument resolution and
//! the decisions of a run, verified with Verus.

pub mod args;
pub mod cli;
pub mod run;
