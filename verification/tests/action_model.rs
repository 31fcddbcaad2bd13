use you::action::LLMActionType;
use you::errors::ParseError;

fn display_of(action: &LLMActionType) -> String {
    action.fetch_display_prompt()
}

#[test]
fn valid_execute_object_parses_into_execute() {
    let action = LLMActionType::parse("{\"command\":\"ls\",\"explanation\":\"List files\"}").unwrap();
    match &action {
        LLMActionType::Execute(e) => {
            assert_eq!(e.get_commands(), "ls");
        }
        _ => panic!("expected the Execute variant"),
    }
    assert_eq!(
        display_of(&action),
        "Your input: (y for executing the command, or type to hint LLM)\n    > ls\n        * List files\n"
    );
}

#[test]
fn valid_request_information_object_parses() {
    let action =
        LLMActionType::parse("{\"request_additional_information\":\"Which directory?\"}").unwrap();
    assert!(matches!(action, LLMActionType::RequestInformation(_)));
    assert_eq!(display_of(&action), "Which directory?");
}

#[test]
fn valid_request_clis_object_parses() {
    let action = LLMActionType::parse(
        "{\"request_clis_to_install\":[{\"cli_name\":\"rg\",\"suggested_installation_command\":\"apt install ripgrep\",\"additional_notices\":\"fast search\"}]}",
    )
    .unwrap();
    assert!(matches!(action, LLMActionType::RequestCLIsToInstall(_)));
    assert_eq!(
        display_of(&action),
        "The following CLI tools need to be installed:\n\nTool: rg\nInstallation Command: apt install ripgrep\nNote: fast search\n\nPlease install these tools and then continue."
    );
}

#[test]
fn clis_without_notices_parse() {
    let action = LLMActionType::parse(
        "{\"request_clis_to_install\":[{\"cli_name\":\"jq\",\"suggested_installation_command\":\"apt install jq\"}]}",
    )
    .unwrap();
    assert_eq!(
        display_of(&action),
        "The following CLI tools need to be installed:\n\nTool: jq\nInstallation Command: apt install jq\n\nPlease install these tools and then continue."
    );
}

#[test]
fn clis_with_null_notices_parse_like_missing_ones() {
    let action = LLMActionType::parse(
        "{\"request_clis_to_install\":[{\"cli_name\":\"jq\",\"suggested_installation_command\":\"apt install jq\",\"additional_notices\":null}]}",
    )
    .unwrap();
    assert_eq!(
        display_of(&action),
        "The following CLI tools need to be installed:\n\nTool: jq\nInstallation Command: apt install jq\n\nPlease install these tools and then continue."
    );
}

#[test]
fn empty_install_list_parses() {
    let action = LLMActionType::parse("{\"request_clis_to_install\":[]}").unwrap();
    assert!(matches!(action, LLMActionType::RequestCLIsToInstall(_)));
    assert_eq!(
        display_of(&action),
        "The following CLI tools need to be installed:\n\nPlease install these tools and then continue."
    );
}

#[test]
fn malformed_json_is_invalid_json() {
    assert!(matches!(
        LLMActionType::parse("this is not json"),
        Err(ParseError::InvalidJson)
    ));
    assert!(matches!(
        LLMActionType::parse("{\"command\": \"ls\""),
        Err(ParseError::InvalidJson)
    ));
    assert!(matches!(LLMActionType::parse(""), Err(ParseError::InvalidJson)));
    assert!(matches!(
        LLMActionType::parse("{\"command\":\"ls\",\"explanation\":\"ok\"} trailing"),
        Err(ParseError::InvalidJson)
    ));
}

#[test]
fn valid_json_with_no_matching_shape_is_schema_mismatch() {
    assert!(matches!(
        LLMActionType::parse("[1,2,3]"),
        Err(ParseError::SchemaMismatch)
    ));
    assert!(matches!(
        LLMActionType::parse("{\"foo\":\"bar\"}"),
        Err(ParseError::SchemaMismatch)
    ));
    assert!(matches!(
        LLMActionType::parse("\"just a string\""),
        Err(ParseError::SchemaMismatch)
    ));
    assert!(matches!(LLMActionType::parse("42"), Err(ParseError::SchemaMismatch)));
}

#[test]
fn incomplete_execute_object_is_schema_mismatch() {
    assert!(matches!(
        LLMActionType::parse("{\"command\":\"ls\"}"),
        Err(ParseError::SchemaMismatch)
    ));
    assert!(matches!(
        LLMActionType::parse("{\"explanation\":\"only half\"}"),
        Err(ParseError::SchemaMismatch)
    ));
}

#[test]
fn wrongly_typed_fields_are_schema_mismatch() {
    assert!(matches!(
        LLMActionType::parse("{\"command\":\"ls\",\"explanation\":3}"),
        Err(ParseError::SchemaMismatch)
    ));
    assert!(matches!(
        LLMActionType::parse("{\"request_additional_information\":[\"q\"]}"),
        Err(ParseError::SchemaMismatch)
    ));
    assert!(matches!(
        LLMActionType::parse("{\"request_clis_to_install\":\"not an array\"}"),
        Err(ParseError::SchemaMismatch)
    ));
    assert!(matches!(
        LLMActionType::parse(
            "{\"request_clis_to_install\":[{\"cli_name\":\"a\",\"suggested_installation_command\":\"b\",\"additional_notices\":7}]}"
        ),
        Err(ParseError::SchemaMismatch)
    ));
    assert!(matches!(
        LLMActionType::parse("{\"request_clis_to_install\":[{\"cli_name\":\"a\"}]}"),
        Err(ParseError::SchemaMismatch)
    ));
}

#[test]
fn execute_wins_over_later_shapes() {
    let action = LLMActionType::parse(
        "{\"command\":\"ls\",\"explanation\":\"e\",\"request_additional_information\":\"q\"}",
    )
    .unwrap();
    assert!(matches!(action, LLMActionType::Execute(_)));
}

#[test]
fn request_information_wins_over_install_list() {
    let action = LLMActionType::parse(
        "{\"request_additional_information\":\"q\",\"request_clis_to_install\":[]}",
    )
    .unwrap();
    assert_eq!(display_of(&action), "q");
}

#[test]
fn extra_fields_are_ignored() {
    let action = LLMActionType::parse(
        "{\"command\":\"pwd\",\"explanation\":\"where\",\"extra\":[1,{\"deep\":null},true]}",
    )
    .unwrap();
    match &action {
        LLMActionType::Execute(e) => assert_eq!(e.get_commands(), "pwd"),
        _ => panic!("expected the Execute variant"),
    }
}

#[test]
fn reparsing_gives_the_same_description() {
    let raw = "{\"command\":\"du -sh .\",\"explanation\":\"Disk usage\"}";
    let first = display_of(&LLMActionType::parse(raw).unwrap());
    let second = display_of(&LLMActionType::parse(raw).unwrap());
    assert_eq!(first, second);
}

#[test]
fn only_execute_actions_have_a_command() {
    let execute = LLMActionType::parse("{\"command\":\"ls\",\"explanation\":\"e\"}").unwrap();
    assert_eq!(execute.command_to_execute().unwrap(), "ls");

    let ask = LLMActionType::parse("{\"request_additional_information\":\"q\"}").unwrap();
    assert!(matches!(
        ask.command_to_execute(),
        Err(you::errors::ExecutionError::NotExecutable)
    ));

    let install = LLMActionType::parse("{\"request_clis_to_install\":[]}").unwrap();
    assert!(matches!(
        install.command_to_execute(),
        Err(you::errors::ExecutionError::NotExecutable)
    ));
}

#[test]
fn prompt_template_renders_all_three_schemas() {
    let template = LLMActionType::get_llm_action_type_prompt_template();
    let expected = "To execute a command, you may output: {\"command\":\"a shell script, preferrably in one line, to execute.\",\"explanation\":\"explain the shell script briefly. one line maximum. \"}\n\nTo request additional information from the user, you may output: {\"request_additional_information\":\"Describe what information you want the user to add on. \"}\n\nIf the command is not found, you may output: {\"request_clis_to_install\":[{\"cli_name\":\"The name of the cli that you want the user to install\",\"suggested_installation_command\":\"Base on the current system platform, suggest a command line for the user to install the tool\",\"additional_notices\":\"Leave a notice if any to the user. Leave it null if you don't have a notice\"}]}";
    assert_eq!(template, expected);
}

#[test]
fn template_examples_parse_back_into_their_variants() {
    let execute = LLMActionType::parse(
        "{\"command\":\"a shell script, preferrably in one line, to execute.\",\"explanation\":\"explain the shell script briefly. one line maximum. \"}",
    )
    .unwrap();
    assert!(matches!(execute, LLMActionType::Execute(_)));

    let ask = LLMActionType::parse(
        "{\"request_additional_information\":\"Describe what information you want the user to add on. \"}",
    )
    .unwrap();
    assert!(matches!(ask, LLMActionType::RequestInformation(_)));

    let install = LLMActionType::parse(
        "{\"request_clis_to_install\":[{\"cli_name\":\"The name of the cli that you want the user to install\",\"suggested_installation_command\":\"Base on the current system platform, suggest a command line for the user to install the tool\",\"additional_notices\":\"Leave a notice if any to the user. Leave it null if you don't have a notice\"}]}",
    )
    .unwrap();
    assert!(matches!(install, LLMActionType::RequestCLIsToInstall(_)));
}
