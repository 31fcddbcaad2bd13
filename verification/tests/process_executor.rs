use you::errors::ExecutionError;
use you::executor::{assemble_output, conclude, shell_invocation, ProcessOutcome};

#[test]
fn echo_round_trip_captures_output_and_succeeds() {
    // The chunk stream a run of `echo hello-world` produces: one chunk with
    // the line, then a clean exit.
    let outcome = ProcessOutcome::Completed {
        chunks: vec!["hello-world\n".to_string()],
        exit_ok: true,
    };
    let result = conclude(outcome).unwrap();
    assert_eq!(result.captured_output, "hello-world\n");
    assert!(result.succeeded);
}

#[test]
fn nonzero_exit_is_an_error_that_keeps_the_output() {
    // The stream of `sh -c "echo partial; exit 1"`: some output arrived,
    // then the process failed.
    let outcome = ProcessOutcome::Completed {
        chunks: vec!["partial\n".to_string()],
        exit_ok: false,
    };
    match conclude(outcome) {
        Err(ExecutionError::NonZeroStatus { captured_output }) => {
            assert_eq!(captured_output, "partial\n");
        }
        other => panic!("expected NonZeroStatus, got {:?}", other),
    }
}

#[test]
fn silent_failure_keeps_an_empty_output() {
    let outcome = ProcessOutcome::Completed { chunks: vec![], exit_ok: false };
    match conclude(outcome) {
        Err(ExecutionError::NonZeroStatus { captured_output }) => {
            assert_eq!(captured_output, "");
        }
        other => panic!("expected NonZeroStatus, got {:?}", other),
    }
}

#[test]
fn spawn_failure_carries_its_details() {
    let outcome = ProcessOutcome::SpawnFailure { details: "No such file or directory".to_string() };
    match conclude(outcome) {
        Err(ExecutionError::SpawnFailed { details }) => {
            assert_eq!(details, "No such file or directory");
        }
        other => panic!("expected SpawnFailed, got {:?}", other),
    }
}

#[test]
fn chunks_are_joined_in_arrival_order() {
    let chunks = vec![
        "out line 1\n".to_string(),
        "err line 1\n".to_string(),
        "out line 2\n".to_string(),
    ];
    assert_eq!(assemble_output(&chunks), "out line 1\nerr line 1\nout line 2\n");

    let none: Vec<String> = vec![];
    assert_eq!(assemble_output(&none), "");
}

#[test]
fn posix_shell_invocation_is_sh_dash_c() {
    let (program, args) = shell_invocation("echo hi", false);
    assert_eq!(program, "sh");
    assert_eq!(args, vec!["-c".to_string(), "echo hi".to_string()]);
}

#[test]
fn windows_shell_invocation_is_cmd_slash_c() {
    let (program, args) = shell_invocation("dir", true);
    assert_eq!(program, "cmd");
    assert_eq!(args, vec!["/C".to_string(), "dir".to_string()]);
}

#[test]
fn execution_error_messages_keep_the_evidence() {
    let spawn = ExecutionError::SpawnFailed { details: "denied".to_string() };
    assert_eq!(spawn.message(), "Failed to execute command: denied");

    let status = ExecutionError::NonZeroStatus { captured_output: "oops\n".to_string() };
    assert_eq!(
        status.message(),
        "Process exited with non-zero status. Output so far:\noops\n"
    );

    assert_eq!(
        ExecutionError::NotExecutable.message(),
        "This action requests a human response and cannot be executed."
    );
}
