//! The pure half of the process executor.
//!
//! A command runs in a shell child process whose stdout and stderr are read
//! concurrently and funneled, chunk by chunk, into one ordered stream. That
//! plumbing is I/O and lives outside the library; what is verified here is
//! everything it computes: the shell invocation for a command, the assembly
//! of the arriving chunks into the captured output, and the reading of the
//! process's fate into a result or an error that keeps the output.

use vstd::prelude::*;

use crate::errors::ExecutionError;

verus! {

/// What one command execution produced: the full captured text, in arrival
/// order, and whether the process exited cleanly.
#[derive(Debug)]
pub struct ExecutionResult {
    pub captured_output: String,
    pub succeeded: bool,
}

/// What the runner observed of the child process: it either never started,
/// or it ran to completion with a stream of output chunks and an exit status.
#[derive(Debug)]
pub enum ProcessOutcome {
    SpawnFailure { details: String },
    Completed { chunks: Vec<String>, exit_ok: bool },
}

/// The output chunks, concatenated in arrival order.
pub open spec fn concat_chunks(chunks: Seq<String>) -> Seq<char>
    decreases chunks.len(),
{
    if chunks.len() == 0 {
        Seq::empty()
    } else {
        concat_chunks(chunks.drop_last()) + chunks.last()@
    }
}

/// Joins the arrived chunks into the one captured output text.
pub fn assemble_output(chunks: &Vec<String>) -> (r: String)
    ensures
        r@ == concat_chunks(chunks@),
{
    let mut out = String::new();
    let n = chunks.len();
    for i in 0..n
        invariant
            n == chunks.len(),
            out@ == concat_chunks(chunks@.take(i as int)),
    {
        out.append(chunks[i].as_str());
        proof {
            assert(chunks@.take(i + 1 as int).drop_last() =~= chunks@.take(i as int));
            assert(chunks@.take(i + 1 as int).last() == chunks@[i as int]);
        }
    }
    proof {
        assert(chunks@.take(n as int) =~= chunks@);
    }
    out
}

/// Reads a finished process into the executor's verdict.
///
/// A clean exit succeeds with the captured output; a non-zero exit is an
/// error that still carries everything the process printed before it died;
/// a spawn failure carries the runner's details. Success is owed exactly to
/// the outcomes that completed with a clean exit.
pub fn conclude(outcome: ProcessOutcome) -> (r: Result<ExecutionResult, ExecutionError>)
    ensures
        match outcome {
            ProcessOutcome::Completed { chunks, exit_ok: true } => r matches Ok(res)
                && res.captured_output@ == concat_chunks(chunks@) && res.succeeded,
            ProcessOutcome::Completed { chunks, exit_ok: false } => r matches Err(
                ExecutionError::NonZeroStatus { captured_output },
            ) && captured_output@ == concat_chunks(chunks@),
            ProcessOutcome::SpawnFailure { details } => r matches Err(
                ExecutionError::SpawnFailed { details: d },
            ) && d@ == details@,
        },
{
    match outcome {
        ProcessOutcome::SpawnFailure { details } => Err(ExecutionError::SpawnFailed { details }),
        ProcessOutcome::Completed { chunks, exit_ok } => {
            let captured = assemble_output(&chunks);
            if exit_ok {
                Ok(ExecutionResult { captured_output: captured, succeeded: true })
            } else {
                Err(ExecutionError::NonZeroStatus { captured_output: captured })
            }
        },
    }
}

/// The shell invocation that runs `command`: the interpreter to spawn and its
/// arguments, `sh -c` on POSIX and `cmd /C` on Windows.
pub fn shell_invocation(command: &str, windows: bool) -> (r: (String, Vec<String>))
    ensures
        windows ==> r.0@ == "cmd"@,
        !windows ==> r.0@ == "sh"@,
        r.1@.len() == 2,
        windows ==> r.1@[0]@ == "/C"@,
        !windows ==> r.1@[0]@ == "-c"@,
        r.1@[1]@ == command@,
{
    let mut args: Vec<String> = Vec::new();
    if windows {
        args.push("/C".to_owned());
        args.push(command.to_owned());
        ("cmd".to_owned(), args)
    } else {
        args.push("-c".to_owned());
        args.push(command.to_owned());
        ("sh".to_owned(), args)
    }
}

} // verus!
