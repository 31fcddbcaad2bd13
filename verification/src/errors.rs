//! The failure taxonomy of the assistant.
//!
//! Configuration failures are fatal at startup; LLM and parse failures feed
//! the retry loop; execution failures are folded back into the conversation
//! so the model can correct itself on the next turn.

use vstd::prelude::*;

verus! {

/// Why a raw LLM reply did not become an action.
#[derive(Debug)]
pub enum ParseError {
    /// The payload is not valid JSON at all.
    InvalidJson,
    /// The payload is valid JSON but matches none of the action schemas.
    SchemaMismatch,
}

/// Why a command execution failed.
#[derive(Debug)]
pub enum ExecutionError {
    /// The action is a request to the human, not a command; it cannot be run.
    NotExecutable,
    /// The shell process could not be started.
    SpawnFailed { details: String },
    /// The process ran but exited with a non-zero status. Everything it
    /// printed before exiting is kept.
    NonZeroStatus { captured_output: String },
}

/// Why the LLM gateway produced no JSON payload this round.
#[derive(Debug)]
pub enum LLMError {
    /// The network call itself failed.
    TransportFailure { details: String },
    /// The service answered, but with no message content.
    EmptyResponse,
    /// The reply text holds no JSON object or array anywhere.
    NoJSONFound,
}

/// An unsupported role was handed to the conversation context.
#[derive(Debug)]
pub enum RoleError {
    InvalidRole,
}

/// The assistant cannot start: a piece of its external configuration is
/// missing or unreadable.
#[derive(Debug)]
pub enum ConfigurationError {
    MissingEnvironmentVariable { name: String },
    Unreadable { details: String },
}

/// A named script was asked of the cache and is not there.
#[derive(Debug)]
pub enum CacheError {
    ScriptNotFound { name: String },
}

/// The message of a `NotExecutable` failure.
pub open spec fn not_executable_text() -> Seq<char> {
    "This action requests a human response and cannot be executed."@
}

/// The message of a `SpawnFailed` failure.
pub open spec fn spawn_failed_text(details: Seq<char>) -> Seq<char> {
    "Failed to execute command: "@ + details
}

/// The message of a `NonZeroStatus` failure; the output the process managed
/// to print is kept in it.
pub open spec fn nonzero_status_text(captured_output: Seq<char>) -> Seq<char> {
    "Process exited with non-zero status. Output so far:\n"@ + captured_output
}

/// The text of an execution failure, as it is shown and as it is folded back
/// into the conversation for the model to read.
pub open spec fn execution_error_text(e: ExecutionError) -> Seq<char> {
    match e {
        ExecutionError::NotExecutable => not_executable_text(),
        ExecutionError::SpawnFailed { details } => spawn_failed_text(details@),
        ExecutionError::NonZeroStatus { captured_output } => nonzero_status_text(captured_output@),
    }
}

impl ExecutionError {
    /// Renders the failure as one message.
    pub fn message(&self) -> (r: String)
        ensures
            r@ == execution_error_text(*self),
    {
        match self {
            ExecutionError::NotExecutable => {
                "This action requests a human response and cannot be executed.".to_owned()
            },
            ExecutionError::SpawnFailed { details } => {
                let mut out: String = "Failed to execute command: ".to_owned();
                out.append(details.as_str());
                out
            },
            ExecutionError::NonZeroStatus { captured_output } => {
                let mut out: String = "Process exited with non-zero status. Output so far:\n".to_owned();
                out.append(captured_output.as_str());
                out
            },
        }
    }
}

} // verus!
