//! The command-line surface, as plain data.
//!
//! Argument parsing itself is the runner's concern; these types carry what
//! it parsed into the library's world.

use vstd::prelude::*;

verus! {

/// Run a natural-language instruction; empty for interactive mode.
#[derive(Debug)]
pub struct RunArguments {
    pub command_in_natural_language: Option<String>,
}

/// Explain a given command.
#[derive(Debug)]
pub struct ExplainArguments {
    pub command: String,
}

/// List the saved scripts.
#[derive(Debug)]
pub struct ListArguments;

/// Remove a saved script by name.
#[derive(Debug)]
pub struct RemoveArguments {
    pub script_name: String,
}

/// Show the version.
#[derive(Debug)]
pub struct VersionArguments;

/// The subcommands the assistant offers.
#[derive(Debug)]
pub enum Commands {
    Run(RunArguments),
    Explain(ExplainArguments),
    List(ListArguments),
    Remove(RemoveArguments),
    Version(VersionArguments),
}

/// Everything the command line said.
#[derive(Debug)]
pub struct Arguments {
    pub commands: Commands,
}

} // verus!
