use you::errors::LLMError;
use you::gateway::{extract_payload, LlmOutcome};

#[test]
fn a_transport_failure_is_its_own_error() {
    let outcome = LlmOutcome::Failure { details: "connection refused".to_string() };
    match extract_payload(&outcome) {
        Err(LLMError::TransportFailure { details }) => {
            assert_eq!(details, "connection refused");
        }
        other => panic!("expected TransportFailure, got {:?}", other),
    }
}

#[test]
fn an_answer_without_content_is_empty_response() {
    let outcome = LlmOutcome::Success { content: None };
    assert!(matches!(extract_payload(&outcome), Err(LLMError::EmptyResponse)));
}

#[test]
fn a_reply_without_json_is_no_json_found() {
    let outcome = LlmOutcome::Success { content: Some("I would rather chat.".to_string()) };
    assert!(matches!(extract_payload(&outcome), Err(LLMError::NoJSONFound)));

    let empty = LlmOutcome::Success { content: Some(String::new()) };
    assert!(matches!(extract_payload(&empty), Err(LLMError::NoJSONFound)));
}

#[test]
fn the_json_is_dug_out_of_the_prose() {
    let outcome = LlmOutcome::Success {
        content: Some("Sure thing! {\"command\":\"ls\",\"explanation\":\"List\"} Anything else?".to_string()),
    };
    let payload = extract_payload(&outcome).unwrap();
    assert_eq!(payload, "{\"command\":\"ls\",\"explanation\":\"List\"}");
}

#[test]
fn a_bare_json_reply_passes_through_whole() {
    let outcome = LlmOutcome::Success {
        content: Some("{\"request_additional_information\":\"Which one?\"}".to_string()),
    };
    let payload = extract_payload(&outcome).unwrap();
    assert_eq!(payload, "{\"request_additional_information\":\"Which one?\"}");
}

#[test]
fn extracted_payloads_parse_into_actions() {
    let outcome = LlmOutcome::Success {
        content: Some("Of course.\n{\"command\":\"date\",\"explanation\":\"Show the date\"}\n".to_string()),
    };
    let payload = extract_payload(&outcome).unwrap();
    let action = you::action::LLMActionType::parse(&payload).unwrap();
    match action {
        you::action::LLMActionType::Execute(e) => assert_eq!(e.get_commands(), "date"),
        other => panic!("expected Execute, got {:?}", other),
    }
}
