//! The command line of the runner, as parsed from the arguments.
use vstd::prelude::*;

verus! {

/// The parsed command line.
#[derive(Debug, Clone, PartialEq, Eq)]
pub struct Cli {
    pub command: Commands,
}

/// The subcommands of the runner.
#[derive(Debug, Clone, PartialEq, Eq)]
pub enum Commands {
    /// Run a command inside an ephemeral project-aware environment, in the
    /// image given by `image` or else in the one inferred for the project.
    /// `command` holds the command and its arguments; it is never empty.
    Run { image: Option<String>, command: Vec<String> },
    /// Start an interactive shell for a toolchain, such as `python@3.9`.
    Shell { toolchain: String },
    /// Generate a starter `.now.yaml`.
    Init,
}

} // verus!
