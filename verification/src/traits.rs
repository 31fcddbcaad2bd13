//! The traits the assistant's collaborators implement.
//!
//! Their implementations do I/O — running processes, touching the home
//! directory — and live outside the library; the library only fixes their
//! signatures.

use vstd::prelude::*;

use crate::agent::CommandJSON;
use crate::errors::{ConfigurationError, ExecutionError};

verus! {

/// An agent that can carry out a proposed command object.
pub trait Executable {
    /// Executes the given command as the next step of the agent's workflow.
    fn execute(&mut self, command: &mut CommandJSON) -> Result<(), ExecutionError>;
}

/// A task that can be carried out, yielding its captured output.
pub trait AgentExecution {
    /// Executes the task and returns everything it printed.
    fn execute(&mut self) -> Result<String, ExecutionError>;
}

/// A resource kept under the user's home directory.
pub trait GlobalResourceInitialization {
    /// Prepares the resource the first time the assistant starts.
    fn initialize() -> Result<(), ConfigurationError>;

    /// Loads the resource from its place.
    fn load() -> Result<Self, ConfigurationError> where Self: Sized;
}

} // verus!
