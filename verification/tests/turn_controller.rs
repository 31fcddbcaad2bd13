use you::context::Role;
use you::executor::ProcessOutcome;
use you::gateway::LlmOutcome;
use you::turn::{TurnController, TurnEffect, TurnState};

fn reply(text: &str) -> LlmOutcome {
    LlmOutcome::Success { content: Some(text.to_string()) }
}

#[test]
fn one_confirmed_turn_appends_instruction_echo_and_result() {
    let mut tc = TurnController::new("sys preamble".to_string(), false, 3);
    assert_eq!(tc.state(), TurnState::AwaitingUserInput);
    let before = tc.context().len();

    let eff = tc.on_user_input("list files in current directory".to_string());
    assert!(matches!(eff, TurnEffect::CallLlm));
    assert_eq!(tc.state(), TurnState::LLMThinking);

    let eff = tc.on_llm_reply(reply(
        "Here you go: {\"command\":\"ls\",\"explanation\":\"List files\"} enjoy",
    ));
    let prompt = match eff {
        TurnEffect::Confirm { prompt } => prompt,
        other => panic!("expected Confirm, got {:?}", other),
    };
    assert_eq!(
        prompt,
        "Your input: (y for executing the command, or type to hint LLM)\n    > ls\n        * List files\n"
    );
    assert_eq!(tc.state(), TurnState::AwaitingConfirmation);

    let eff = tc.on_confirmation("y".to_string());
    match eff {
        TurnEffect::RunCommand { command } => assert_eq!(command, "ls"),
        other => panic!("expected RunCommand, got {:?}", other),
    }
    assert_eq!(tc.state(), TurnState::Executing);

    let eff = tc.on_execution_finished(ProcessOutcome::Completed {
        chunks: vec!["file_a\nfile_b\n".to_string()],
        exit_ok: true,
    });
    match eff {
        TurnEffect::OfferSave { command } => assert_eq!(command, "ls"),
        other => panic!("expected OfferSave, got {:?}", other),
    }
    // Single-instruction mode: the session is over after the command ran.
    assert_eq!(tc.state(), TurnState::Idle);

    // The turn appended the user instruction and the execution result — plus
    // the assistant's own echo of its action between them.
    let snapshot = tc.context().snapshot();
    assert_eq!(snapshot.len(), before + 3);
    assert!(matches!(snapshot[before].role, Role::User));
    assert_eq!(snapshot[before].content, "list files in current directory");
    assert!(matches!(snapshot[before + 1].role, Role::Assistant));
    assert!(matches!(snapshot[before + 2].role, Role::System));
    assert_eq!(snapshot[before + 2].content, "file_a\nfile_b\n");
}

#[test]
fn one_bad_reply_means_one_retry_and_two_calls() {
    let mut tc = TurnController::new("sys".to_string(), true, 5);
    let mut llm_calls: usize = 0;
    let mut retry_notices: usize = 0;

    match tc.on_user_input("do something".to_string()) {
        TurnEffect::CallLlm => llm_calls += 1,
        other => panic!("expected CallLlm, got {:?}", other),
    }

    // First reply: prose without any JSON. One retry notice, one more call.
    match tc.on_llm_reply(reply("I cannot answer that right now.")) {
        TurnEffect::RetryLlm => {
            retry_notices += 1;
            llm_calls += 1;
        }
        other => panic!("expected RetryLlm, got {:?}", other),
    }
    assert_eq!(tc.state(), TurnState::LLMThinking);

    // Second reply: a valid action. The turn proceeds.
    let eff = tc.on_llm_reply(reply("{\"command\":\"pwd\",\"explanation\":\"Where am I\"}"));
    assert!(matches!(eff, TurnEffect::Confirm { .. }));

    assert_eq!(llm_calls, 2);
    assert_eq!(retry_notices, 1);
}

#[test]
fn retries_leave_the_context_unchanged() {
    let mut tc = TurnController::new("sys".to_string(), true, 5);
    tc.on_user_input("task".to_string());
    let len_before = tc.context().len();

    tc.on_llm_reply(reply("no json here"));
    tc.on_llm_reply(reply("{\"wrong\":\"schema\"}"));
    assert_eq!(tc.context().len(), len_before);
}

#[test]
fn the_attempt_bound_gives_the_oracle_up() {
    let mut tc = TurnController::new("sys".to_string(), false, 1);
    tc.on_user_input("task".to_string());
    let eff = tc.on_llm_reply(reply("still not json"));
    assert!(matches!(eff, TurnEffect::OracleUnreliable));
    assert_eq!(tc.state(), TurnState::Idle);
}

#[test]
fn transport_failures_and_empty_replies_also_retry() {
    let mut tc = TurnController::new("sys".to_string(), true, 5);
    tc.on_user_input("task".to_string());
    assert!(matches!(
        tc.on_llm_reply(LlmOutcome::Failure { details: "timeout".to_string() }),
        TurnEffect::RetryLlm
    ));
    assert!(matches!(
        tc.on_llm_reply(LlmOutcome::Success { content: None }),
        TurnEffect::RetryLlm
    ));
    assert_eq!(tc.state(), TurnState::LLMThinking);
}

#[test]
fn any_other_confirmation_text_becomes_a_refinement_hint() {
    let mut tc = TurnController::new("sys".to_string(), true, 3);
    tc.on_user_input("clean up".to_string());
    tc.on_llm_reply(reply("{\"command\":\"rm -rf target\",\"explanation\":\"Remove build dir\"}"));
    let len_before = tc.context().len();

    let eff = tc.on_confirmation("only remove the cache subdirectory".to_string());
    assert!(matches!(eff, TurnEffect::CallLlm));
    assert_eq!(tc.state(), TurnState::LLMThinking);

    let snapshot = tc.context().snapshot();
    assert_eq!(snapshot.len(), len_before + 1);
    assert!(matches!(snapshot[len_before].role, Role::User));
    assert_eq!(snapshot[len_before].content, "only remove the cache subdirectory");
}

#[test]
fn an_answer_to_a_request_for_information_goes_back_to_the_llm() {
    let mut tc = TurnController::new("sys".to_string(), true, 3);
    tc.on_user_input("back up my notes".to_string());
    let eff = tc.on_llm_reply(reply("{\"request_additional_information\":\"Where are the notes?\"}"));
    match eff {
        TurnEffect::Confirm { prompt } => assert_eq!(prompt, "Where are the notes?"),
        other => panic!("expected Confirm, got {:?}", other),
    }

    // Any input is the answer; nothing is executed.
    let eff = tc.on_confirmation("in ~/notes".to_string());
    assert!(matches!(eff, TurnEffect::CallLlm));
    assert_eq!(tc.state(), TurnState::LLMThinking);
}

#[test]
fn a_failed_execution_feeds_its_error_back_to_the_llm() {
    let mut tc = TurnController::new("sys".to_string(), true, 3);
    tc.on_user_input("show the log".to_string());
    tc.on_llm_reply(reply("{\"command\":\"cat nope.log\",\"explanation\":\"Show it\"}"));
    tc.on_confirmation("y".to_string());
    let len_before = tc.context().len();

    let eff = tc.on_execution_finished(ProcessOutcome::Completed {
        chunks: vec!["cat: nope.log: No such file or directory\n".to_string()],
        exit_ok: false,
    });
    assert!(matches!(eff, TurnEffect::CallLlm));
    assert_eq!(tc.state(), TurnState::LLMThinking);

    let snapshot = tc.context().snapshot();
    assert_eq!(snapshot.len(), len_before + 1);
    assert!(matches!(snapshot[len_before].role, Role::System));
    assert_eq!(
        snapshot[len_before].content,
        "Process exited with non-zero status. Output so far:\ncat: nope.log: No such file or directory\n"
    );
}

#[test]
fn a_spawn_failure_feeds_its_error_back_to_the_llm() {
    let mut tc = TurnController::new("sys".to_string(), true, 3);
    tc.on_user_input("run it".to_string());
    tc.on_llm_reply(reply("{\"command\":\"x\",\"explanation\":\"e\"}"));
    tc.on_confirmation("y".to_string());

    let eff = tc.on_execution_finished(ProcessOutcome::SpawnFailure {
        details: "No such file or directory".to_string(),
    });
    assert!(matches!(eff, TurnEffect::CallLlm));
    let snapshot = tc.context().snapshot();
    assert_eq!(
        snapshot[snapshot.len() - 1].content,
        "Failed to execute command: No such file or directory"
    );
}

#[test]
fn interactive_mode_awaits_the_next_instruction_after_success() {
    let mut tc = TurnController::new("sys".to_string(), true, 3);
    tc.on_user_input("say hi".to_string());
    tc.on_llm_reply(reply("{\"command\":\"echo hi\",\"explanation\":\"Say hi\"}"));
    tc.on_confirmation("y".to_string());
    let eff = tc.on_execution_finished(ProcessOutcome::Completed {
        chunks: vec!["hi\n".to_string()],
        exit_ok: true,
    });
    assert!(matches!(eff, TurnEffect::OfferSave { .. }));
    assert_eq!(tc.state(), TurnState::AwaitingUserInput);
}

#[test]
fn the_session_preamble_carries_facts_and_templates() {
    let preamble = you::turn::session_preamble("Environment:\nSystem: T\n");
    let template = you::action::LLMActionType::get_llm_action_type_prompt_template();
    let expected = format!(
        "Please translate the following command sent by the user to an executable sh command/script in a json.\nIf you would like to have additional information to send or receive from the user, or perform other actions, please refer to the templates below.\nEnvironment:\nSystem: T\nThis is your template, output in json: {}:\n\nAdditional instructions:- The `interpreter` now only supports sh. ",
        template
    );
    assert_eq!(preamble, expected);
}

#[test]
fn the_exit_token_ends_the_session() {
    let mut tc = TurnController::new("sys".to_string(), true, 3);
    let eff = tc.on_user_input("e".to_string());
    assert!(matches!(eff, TurnEffect::Stop));
    assert_eq!(tc.state(), TurnState::Idle);
    assert_eq!(tc.context().len(), 1);
}
