//! The action model: the one structured decision the LLM makes each turn.
//!
//! A reply parses into exactly one of three variants — run a command, ask the
//! human for information, or ask the human to install tools. The schemas are
//! structural and first-match-wins, in that order; a document matching none
//! of them is a schema mismatch.

use vstd::prelude::*;

use crate::errors::{ExecutionError, ParseError};
use crate::json::{
    json_doc_of, json_str_member, json_string_token, lookup, parse_document, str_field,
    write_json_str_member, write_json_string, JsonValue,
};

verus! {

/// One tool the LLM asks the user to install.
#[derive(Debug)]
pub struct CLIToInstall {
    pub cli_name: String,
    pub suggested_installation_command: String,
    pub additional_notices: Option<String>,
}

/// The "run this command" action: a shell script and its one-line explanation.
#[derive(Debug)]
pub struct ActionTypeExecute {
    command: String,
    explanation: String,
}

/// The "ask the human" action.
#[derive(Debug)]
pub struct ActionTypeRequestInformation {
    request_additional_information: String,
}

/// The "install these tools first" action.
#[derive(Debug)]
pub struct ActionTypeRequestCLIsToInstall {
    request_clis_to_install: Vec<CLIToInstall>,
}

/// What the LLM asks the system to do this turn.
#[derive(Debug)]
pub enum LLMActionType {
    Execute(ActionTypeExecute),
    RequestInformation(ActionTypeRequestInformation),
    RequestCLIsToInstall(ActionTypeRequestCLIsToInstall),
}

impl ActionTypeExecute {
    pub closed spec fn spec_command(self) -> Seq<char> {
        self.command@
    }

    pub closed spec fn spec_explanation(self) -> Seq<char> {
        self.explanation@
    }

    pub fn new(command: String, explanation: String) -> (r: Self)
        ensures
            r.spec_command() == command@,
            r.spec_explanation() == explanation@,
    {
        ActionTypeExecute { command, explanation }
    }

    /// The shell script this action would run.
    pub fn get_commands(&self) -> (r: &str)
        ensures
            r@ == self.spec_command(),
    {
        self.command.as_str()
    }
}

impl ActionTypeRequestInformation {
    pub closed spec fn spec_question(self) -> Seq<char> {
        self.request_additional_information@
    }

    pub fn new(request_additional_information: String) -> (r: Self)
        ensures
            r.spec_question() == request_additional_information@,
    {
        ActionTypeRequestInformation { request_additional_information }
    }
}

impl ActionTypeRequestCLIsToInstall {
    pub closed spec fn spec_clis(self) -> Seq<CLIToInstall> {
        self.request_clis_to_install@
    }

    pub fn new(request_clis_to_install: Vec<CLIToInstall>) -> (r: Self)
        ensures
            r.spec_clis() == request_clis_to_install@,
    {
        ActionTypeRequestCLIsToInstall { request_clis_to_install }
    }
}

// ---------------------------------------------------------------------------
// The three schema shapes, first-match-wins in this order.
// ---------------------------------------------------------------------------

/// The document carries a string `command` and a string `explanation`.
pub open spec fn execute_shape(doc: JsonValue) -> bool {
    str_field(doc, "command"@) is Some && str_field(doc, "explanation"@) is Some
}

/// The document carries a string `request_additional_information`.
pub open spec fn request_information_shape(doc: JsonValue) -> bool {
    str_field(doc, "request_additional_information"@) is Some
}

/// `additional_notices` may be absent, null, or a string — nothing else.
pub open spec fn notices_shape(entry: JsonValue) -> bool {
    match lookup(entry, "additional_notices"@) {
        Some(JsonValue::Str(_)) => true,
        Some(JsonValue::Null) => true,
        Some(_) => false,
        None => true,
    }
}

/// One entry of the install list: two string fields and optional notices.
pub open spec fn cli_entry_shape(entry: JsonValue) -> bool {
    &&& str_field(entry, "cli_name"@) is Some
    &&& str_field(entry, "suggested_installation_command"@) is Some
    &&& notices_shape(entry)
}

/// The items of an array document, or the empty sequence.
pub open spec fn arr_items(doc: JsonValue) -> Seq<JsonValue> {
    match doc {
        JsonValue::Arr(items) => items@,
        _ => Seq::empty(),
    }
}

/// The document carries `request_clis_to_install`: an array of well-shaped
/// entries.
pub open spec fn request_clis_shape(doc: JsonValue) -> bool {
    match lookup(doc, "request_clis_to_install"@) {
        Some(v) => v is Arr && (forall|i: int|
            0 <= i < arr_items(v).len() ==> cli_entry_shape(#[trigger] arr_items(v)[i])),
        None => false,
    }
}

/// The document matches at least one of the three action schemas.
pub open spec fn any_action_shape(doc: JsonValue) -> bool {
    execute_shape(doc) || request_information_shape(doc) || request_clis_shape(doc)
}

// ---------------------------------------------------------------------------
// What a parsed action owes its document.
// ---------------------------------------------------------------------------

/// `cli` carries exactly the strings of the entry `entry`.
pub open spec fn cli_matches(entry: JsonValue, cli: CLIToInstall) -> bool {
    &&& str_field(entry, "cli_name"@) == Some(cli.cli_name@)
    &&& str_field(entry, "suggested_installation_command"@) == Some(
        cli.suggested_installation_command@,
    )
    &&& match lookup(entry, "additional_notices"@) {
        Some(JsonValue::Str(s)) => cli.additional_notices matches Some(n) && n@ == s@,
        _ => cli.additional_notices is None,
    }
}

/// `action` is the one reading of `doc`: its variant is the first schema that
/// `doc` matches, and every field carries the document's text exactly.
pub open spec fn action_matches(doc: JsonValue, action: LLMActionType) -> bool {
    match action {
        LLMActionType::Execute(e) => {
            &&& execute_shape(doc)
            &&& str_field(doc, "command"@) == Some(e.spec_command())
            &&& str_field(doc, "explanation"@) == Some(e.spec_explanation())
        },
        LLMActionType::RequestInformation(ri) => {
            &&& !execute_shape(doc)
            &&& request_information_shape(doc)
            &&& str_field(doc, "request_additional_information"@) == Some(ri.spec_question())
        },
        LLMActionType::RequestCLIsToInstall(rc) => {
            &&& !execute_shape(doc)
            &&& !request_information_shape(doc)
            &&& request_clis_shape(doc)
            &&& {
                let items = arr_items(lookup(doc, "request_clis_to_install"@).unwrap());
                &&& rc.spec_clis().len() == items.len()
                &&& forall|i: int|
                    0 <= i < items.len() ==> cli_matches(items[i], #[trigger] rc.spec_clis()[i])
            }
        },
    }
}

impl LLMActionType {
    /// Reads one JSON document as an action: the first schema that matches
    /// wins; a document matching none is refused.
    pub fn from_document(doc: &JsonValue) -> (r: Result<LLMActionType, ParseError>)
        ensures
            match r {
                Ok(a) => action_matches(*doc, a),
                Err(e) => e is SchemaMismatch && !any_action_shape(*doc),
            },
    {
        let command = doc.get_str("command");
        let explanation = doc.get_str("explanation");
        if command.is_some() && explanation.is_some() {
            let c: String = command.unwrap().clone();
            let x: String = explanation.unwrap().clone();
            return Ok(LLMActionType::Execute(ActionTypeExecute { command: c, explanation: x }));
        }
        if let Some(q) = doc.get_str("request_additional_information") {
            let question: String = q.clone();
            return Ok(LLMActionType::RequestInformation(ActionTypeRequestInformation {
                request_additional_information: question,
            }));
        }
        match doc.get("request_clis_to_install") {
            Some(JsonValue::Arr(items)) => {
                let mut clis: Vec<CLIToInstall> = Vec::new();
                let n = items.len();
                for i in 0..n
                    invariant
                        n == items.len(),
                        clis@.len() == i,
                        !execute_shape(*doc),
                        !request_information_shape(*doc),
                        lookup(*doc, "request_clis_to_install"@) matches Some(v) && v is Arr
                            && arr_items(v) == items@,
                        forall|j: int|
                            0 <= j < i ==> cli_entry_shape(#[trigger] items@[j]) && cli_matches(
                                items@[j],
                                clis@[j],
                            ),
                {
                    let entry = &items[i];
                    let name: String = match entry.get_str("cli_name") {
                        Some(s) => s.clone(),
                        None => {
                            return Err(ParseError::SchemaMismatch);
                        },
                    };
                    let install: String = match entry.get_str("suggested_installation_command") {
                        Some(s) => s.clone(),
                        None => {
                            return Err(ParseError::SchemaMismatch);
                        },
                    };
                    let notices: Option<String> = match entry.get("additional_notices") {
                        None => None,
                        Some(JsonValue::Null) => None,
                        Some(JsonValue::Str(s)) => Some(s.clone()),
                        Some(_) => {
                            return Err(ParseError::SchemaMismatch);
                        },
                    };
                    clis.push(CLIToInstall {
                        cli_name: name,
                        suggested_installation_command: install,
                        additional_notices: notices,
                    });
                }
                Ok(LLMActionType::RequestCLIsToInstall(ActionTypeRequestCLIsToInstall {
                    request_clis_to_install: clis,
                }))
            },
            _ => Err(ParseError::SchemaMismatch),
        }
    }

    /// Parses one raw text payload into an action.
    ///
    /// Text that is not a single valid JSON value is refused as such; valid
    /// JSON matching no action schema is refused as a schema mismatch; and a
    /// parsed action carries its document's text in full — never partially.
    pub fn parse(raw: &str) -> (r: Result<LLMActionType, ParseError>)
        ensures
            match r {
                Ok(a) => json_doc_of(raw@) matches Some(doc) && action_matches(doc, a),
                Err(ParseError::InvalidJson) => json_doc_of(raw@) is None,
                Err(ParseError::SchemaMismatch) => json_doc_of(raw@) matches Some(doc)
                    && !any_action_shape(doc),
            },
    {
        match parse_document(raw) {
            Some(doc) => LLMActionType::from_document(&doc),
            None => Err(ParseError::InvalidJson),
        }
    }

    /// The command this action would execute. Only the `Execute` variant has
    /// one; the two request variants want a human response, never a process.
    pub fn command_to_execute(&self) -> (r: Result<&String, ExecutionError>)
        ensures
            match *self {
                LLMActionType::Execute(e) => r matches Ok(c) && c@ == e.spec_command(),
                _ => r matches Err(ExecutionError::NotExecutable),
            },
    {
        match self {
            LLMActionType::Execute(e) => Ok(&e.command),
            _ => Err(ExecutionError::NotExecutable),
        }
    }
}

// ---------------------------------------------------------------------------
// Describing an action to the human.
// ---------------------------------------------------------------------------

/// The optional notice line of one install entry.
pub open spec fn cli_notice_line(cli: CLIToInstall) -> Seq<char> {
    match cli.additional_notices {
        Some(n) => "Note: "@ + n@ + "\n"@,
        None => Seq::empty(),
    }
}

/// One install entry, rendered as its block of lines.
pub open spec fn cli_block(cli: CLIToInstall) -> Seq<char> {
    "Tool: "@ + cli.cli_name@ + "\n"@ + "Installation Command: "@
        + cli.suggested_installation_command@ + "\n"@ + cli_notice_line(cli) + "\n"@
}

/// Every install entry's block, in order.
pub open spec fn cli_blocks(clis: Seq<CLIToInstall>) -> Seq<char>
    decreases clis.len(),
{
    if clis.len() == 0 {
        Seq::empty()
    } else {
        cli_blocks(clis.drop_last()) + cli_block(clis.last())
    }
}

/// What the human reads before answering: the command and its explanation for
/// confirmation, the question verbatim, or the list of tools to install.
pub open spec fn display_prompt_spec(action: LLMActionType) -> Seq<char> {
    match action {
        LLMActionType::Execute(e) => {
            "Your input: (y for executing the command, or type to hint LLM)\n    > "@
                + e.spec_command() + "\n        * "@ + e.spec_explanation() + "\n"@
        },
        LLMActionType::RequestInformation(ri) => ri.spec_question(),
        LLMActionType::RequestCLIsToInstall(rc) => {
            "The following CLI tools need to be installed:\n\n"@ + cli_blocks(rc.spec_clis())
                + "Please install these tools and then continue."@
        },
    }
}

impl LLMActionType {
    /// Renders this action for the human who must answer it.
    pub fn fetch_display_prompt(&self) -> (r: String)
        ensures
            r@ == display_prompt_spec(*self),
    {
        match self {
            LLMActionType::Execute(e) => {
                let mut out: String =
                    "Your input: (y for executing the command, or type to hint LLM)\n    > ".to_owned();
                out.append(e.command.as_str());
                out.append("\n        * ");
                out.append(e.explanation.as_str());
                out.append("\n");
                proof {
                    assert(out@ =~= display_prompt_spec(*self));
                }
                out
            },
            LLMActionType::RequestInformation(ri) => {
                ri.request_additional_information.clone()
            },
            LLMActionType::RequestCLIsToInstall(rc) => {
                let mut out: String = "The following CLI tools need to be installed:\n\n".to_owned();
                let clis = &rc.request_clis_to_install;
                let n = clis.len();
                for i in 0..n
                    invariant
                        n == clis.len(),
                        out@ == "The following CLI tools need to be installed:\n\n"@ + cli_blocks(
                            clis@.take(i as int),
                        ),
                {
                    let cli = &clis[i];
                    out.append("Tool: ");
                    out.append(cli.cli_name.as_str());
                    out.append("\n");
                    out.append("Installation Command: ");
                    out.append(cli.suggested_installation_command.as_str());
                    out.append("\n");
                    match &cli.additional_notices {
                        Some(notice) => {
                            out.append("Note: ");
                            out.append(notice.as_str());
                            out.append("\n");
                        },
                        None => {},
                    }
                    out.append("\n");
                    proof {
                        assert(clis@.take(i + 1 as int).drop_last() =~= clis@.take(i as int));
                        assert(clis@.take(i + 1 as int).last() == clis@[i as int]);
                        assert(out@ =~= "The following CLI tools need to be installed:\n\n"@
                            + cli_blocks(clis@.take(i + 1 as int)));
                    }
                }
                out.append("Please install these tools and then continue.");
                proof {
                    assert(clis@.take(n as int) =~= clis@);
                    assert(out@ =~= display_prompt_spec(*self));
                }
                out
            },
        }
    }
}

// ---------------------------------------------------------------------------
// The templates shown to the LLM: one JSON example of each schema.
// ---------------------------------------------------------------------------

pub open spec fn default_execute_command_text() -> Seq<char> {
    "a shell script, preferrably in one line, to execute."@
}

pub open spec fn default_execute_explanation_text() -> Seq<char> {
    "explain the shell script briefly. one line maximum. "@
}

pub open spec fn default_request_information_text() -> Seq<char> {
    "Describe what information you want the user to add on. "@
}

pub open spec fn default_cli_name_text() -> Seq<char> {
    "The name of the cli that you want the user to install"@
}

pub open spec fn default_cli_install_text() -> Seq<char> {
    "Base on the current system platform, suggest a command line for the user to install the tool"@
}

pub open spec fn default_cli_notices_text() -> Seq<char> {
    "Leave a notice if any to the user. Leave it null if you don't have a notice"@
}

impl Default for ActionTypeExecute {
    /// The template value shown to the LLM.
    fn default() -> (r: Self)
        ensures
            r.spec_command() == default_execute_command_text(),
            r.spec_explanation() == default_execute_explanation_text(),
    {
        ActionTypeExecute {
            command: "a shell script, preferrably in one line, to execute.".to_owned(),
            explanation: "explain the shell script briefly. one line maximum. ".to_owned(),
        }
    }
}

impl Default for ActionTypeRequestInformation {
    /// The template value shown to the LLM.
    fn default() -> (r: Self)
        ensures
            r.spec_question() == default_request_information_text(),
    {
        ActionTypeRequestInformation {
            request_additional_information:
                "Describe what information you want the user to add on. ".to_owned(),
        }
    }
}

impl Default for CLIToInstall {
    /// The template value shown to the LLM.
    fn default() -> (r: Self)
        ensures
            r.cli_name@ == default_cli_name_text(),
            r.suggested_installation_command@ == default_cli_install_text(),
            r.additional_notices matches Some(n) && n@ == default_cli_notices_text(),
    {
        CLIToInstall {
            cli_name: "The name of the cli that you want the user to install".to_owned(),
            suggested_installation_command:
                "Base on the current system platform, suggest a command line for the user to install the tool".to_owned(),
            additional_notices: Some(
                "Leave a notice if any to the user. Leave it null if you don't have a notice".to_owned(),
            ),
        }
    }
}

impl Default for ActionTypeRequestCLIsToInstall {
    /// The template value shown to the LLM: one template entry.
    fn default() -> (r: Self)
        ensures
            r.spec_clis().len() == 1,
            r.spec_clis()[0].cli_name@ == default_cli_name_text(),
            r.spec_clis()[0].suggested_installation_command@ == default_cli_install_text(),
            r.spec_clis()[0].additional_notices matches Some(n) && n@
                == default_cli_notices_text(),
    {
        let mut clis: Vec<CLIToInstall> = Vec::new();
        clis.push(CLIToInstall::default());
        ActionTypeRequestCLIsToInstall { request_clis_to_install: clis }
    }
}

/// The execute template, as JSON.
pub open spec fn execute_template_json() -> Seq<char> {
    seq!['{'] + json_str_member("command"@, default_execute_command_text()) + seq![',']
        + json_str_member("explanation"@, default_execute_explanation_text()) + seq!['}']
}

/// The request-information template, as JSON.
pub open spec fn request_information_template_json() -> Seq<char> {
    seq!['{'] + json_str_member(
        "request_additional_information"@,
        default_request_information_text(),
    ) + seq!['}']
}

/// The install-request template, as JSON: a list of one template entry.
pub open spec fn request_clis_template_json() -> Seq<char> {
    seq!['{'] + json_string_token("request_clis_to_install"@) + seq![':', '['] + seq!['{']
        + json_str_member("cli_name"@, default_cli_name_text()) + seq![','] + json_str_member(
        "suggested_installation_command"@,
        default_cli_install_text(),
    ) + seq![','] + json_str_member("additional_notices"@, default_cli_notices_text()) + seq!['}']
        + seq![']', '}']
}

/// The whole prompt section that teaches the LLM the three output schemas.
pub open spec fn llm_action_type_prompt_template_spec() -> Seq<char> {
    "To execute a command, you may output: "@ + execute_template_json()
        + "\n\nTo request additional information from the user, you may output: "@
        + request_information_template_json() + "\n\nIf the command is not found, you may output: "@
        + request_clis_template_json()
}

fn write_execute_template(out: &mut String)
    ensures
        final(out)@ == old(out)@ + execute_template_json(),
{
    out.push('{');
    write_json_str_member(out, "command", "a shell script, preferrably in one line, to execute.");
    out.push(',');
    write_json_str_member(out, "explanation", "explain the shell script briefly. one line maximum. ");
    out.push('}');
    proof {
        assert(out@ =~= old(out)@ + execute_template_json());
    }
}

fn write_request_information_template(out: &mut String)
    ensures
        final(out)@ == old(out)@ + request_information_template_json(),
{
    out.push('{');
    write_json_str_member(
        out,
        "request_additional_information",
        "Describe what information you want the user to add on. ",
    );
    out.push('}');
    proof {
        assert(out@ =~= old(out)@ + request_information_template_json());
    }
}

fn write_request_clis_template(out: &mut String)
    ensures
        final(out)@ == old(out)@ + request_clis_template_json(),
{
    out.push('{');
    write_json_string(out, "request_clis_to_install");
    out.push(':');
    out.push('[');
    out.push('{');
    write_json_str_member(out, "cli_name", "The name of the cli that you want the user to install");
    out.push(',');
    write_json_str_member(
        out,
        "suggested_installation_command",
        "Base on the current system platform, suggest a command line for the user to install the tool",
    );
    out.push(',');
    write_json_str_member(
        out,
        "additional_notices",
        "Leave a notice if any to the user. Leave it null if you don't have a notice",
    );
    out.push('}');
    out.push(']');
    out.push('}');
    proof {
        assert(out@ =~= old(out)@ + request_clis_template_json());
    }
}

impl LLMActionType {
    /// The prompt section that teaches the LLM the three output schemas, one
    /// JSON example of each.
    pub fn get_llm_action_type_prompt_template() -> (r: String)
        ensures
            r@ == llm_action_type_prompt_template_spec(),
    {
        let mut out: String = "To execute a command, you may output: ".to_owned();
        write_execute_template(&mut out);
        out.append("\n\nTo request additional information from the user, you may output: ");
        write_request_information_template(&mut out);
        out.append("\n\nIf the command is not found, you may output: ");
        write_request_clis_template(&mut out);
        proof {
            assert(out@ =~= llm_action_type_prompt_template_spec());
        }
        out
    }
}

// ---------------------------------------------------------------------------
// Laws: a document reads one way only.
// ---------------------------------------------------------------------------

/// Two actions agree on everything their contracts observe.
pub open spec fn actions_equivalent(a: LLMActionType, b: LLMActionType) -> bool {
    match (a, b) {
        (LLMActionType::Execute(ea), LLMActionType::Execute(eb)) => {
            ea.spec_command() == eb.spec_command() && ea.spec_explanation() == eb.spec_explanation()
        },
        (LLMActionType::RequestInformation(ra), LLMActionType::RequestInformation(rb)) => {
            ra.spec_question() == rb.spec_question()
        },
        (LLMActionType::RequestCLIsToInstall(ca), LLMActionType::RequestCLIsToInstall(cb)) => {
            &&& ca.spec_clis().len() == cb.spec_clis().len()
            &&& forall|i: int|
                0 <= i < ca.spec_clis().len() ==> clis_equivalent(
                    #[trigger] ca.spec_clis()[i],
                    cb.spec_clis()[i],
                )
        },
        _ => false,
    }
}

/// Two install entries agree on everything their contracts observe.
pub open spec fn clis_equivalent(a: CLIToInstall, b: CLIToInstall) -> bool {
    &&& a.cli_name@ == b.cli_name@
    &&& a.suggested_installation_command@ == b.suggested_installation_command@
    &&& match (a.additional_notices, b.additional_notices) {
        (Some(na), Some(nb)) => na@ == nb@,
        (None, None) => true,
        _ => false,
    }
}

/// Law: a document determines its action. Any two actions that match the same
/// document agree on the variant and on every field — a parse can neither
/// pick a later schema when an earlier one matches, nor populate a field
/// with anything but the document's own text.
pub proof fn lemma_action_of_document_functional(
    doc: JsonValue,
    a: LLMActionType,
    b: LLMActionType,
)
    requires
        action_matches(doc, a),
        action_matches(doc, b),
    ensures
        actions_equivalent(a, b),
{
}

/// Law: the schemas are tried in their fixed order. An action that matches a
/// document carries the first schema the document fits: `Execute` whenever
/// the execute shape is there, `RequestInformation` next, the install request
/// last.
pub proof fn lemma_first_match_priority(doc: JsonValue, a: LLMActionType)
    requires
        action_matches(doc, a),
    ensures
        execute_shape(doc) ==> a is Execute,
        !execute_shape(doc) && request_information_shape(doc) ==> a is RequestInformation,
        !execute_shape(doc) && !request_information_shape(doc) && request_clis_shape(doc)
            ==> a is RequestCLIsToInstall,
{
}

proof fn lemma_cli_blocks_congruent(a: Seq<CLIToInstall>, b: Seq<CLIToInstall>)
    requires
        a.len() == b.len(),
        forall|i: int| 0 <= i < a.len() ==> clis_equivalent(#[trigger] a[i], b[i]),
    ensures
        cli_blocks(a) == cli_blocks(b),
    decreases a.len(),
{
    if a.len() > 0 {
        assert(forall|i: int|
            0 <= i < a.len() - 1 ==> clis_equivalent(#[trigger] a.drop_last()[i], b.drop_last()[i]));
        lemma_cli_blocks_congruent(a.drop_last(), b.drop_last());
        assert(clis_equivalent(a.last(), b.last()));
        assert(cli_block(a.last()) == cli_block(b.last()));
    }
}

/// Law: re-rendering an action's description is deterministic in its input —
/// any two actions read from the same document render the same description.
pub proof fn lemma_description_deterministic(doc: JsonValue, a: LLMActionType, b: LLMActionType)
    requires
        action_matches(doc, a),
        action_matches(doc, b),
    ensures
        display_prompt_spec(a) == display_prompt_spec(b),
{
    lemma_action_of_document_functional(doc, a, b);
    match (a, b) {
        (LLMActionType::RequestCLIsToInstall(ca), LLMActionType::RequestCLIsToInstall(cb)) => {
            lemma_cli_blocks_congruent(ca.spec_clis(), cb.spec_clis());
        },
        _ => {},
    }
}

} // verus!
