//! The explain path: one LLM round that explains a given shell command.
//!
//! Its reply carries a single JSON object with one string field; the parse
//! and the system prompt that teaches the schema are verified here. The
//! LLM round itself is the same gateway call the run path uses.

use vstd::prelude::*;

use crate::errors::ParseError;
use crate::json::{
    json_doc_of, json_str_member, parse_document, str_field, write_json_str_member, JsonValue,
};

verus! {

/// The LLM's explanation of one command.
#[derive(Debug)]
pub struct CommandExplained {
    explanation: String,
}

/// The document carries a string `explanation`.
pub open spec fn explained_shape(doc: JsonValue) -> bool {
    str_field(doc, "explanation"@) is Some
}

impl CommandExplained {
    pub closed spec fn spec_explanation(self) -> Seq<char> {
        self.explanation@
    }

    pub fn new(explanation: String) -> (r: Self)
        ensures
            r.spec_explanation() == explanation@,
    {
        CommandExplained { explanation }
    }

    /// The explanation text, as it is shown.
    pub fn rendered(&self) -> (r: &str)
        ensures
            r@ == self.spec_explanation(),
    {
        self.explanation.as_str()
    }

    /// Reads one JSON document as an explanation.
    pub fn from_document(doc: &JsonValue) -> (r: Result<CommandExplained, ParseError>)
        ensures
            match r {
                Ok(c) => str_field(*doc, "explanation"@) == Some(c.spec_explanation()),
                Err(e) => e is SchemaMismatch && !explained_shape(*doc),
            },
    {
        match doc.get_str("explanation") {
            Some(s) => Ok(CommandExplained { explanation: s.clone() }),
            None => Err(ParseError::SchemaMismatch),
        }
    }

    /// Parses one raw text payload into an explanation.
    pub fn parse(raw: &str) -> (r: Result<CommandExplained, ParseError>)
        ensures
            match r {
                Ok(c) => json_doc_of(raw@) matches Some(doc) && str_field(doc, "explanation"@)
                    == Some(c.spec_explanation()),
                Err(ParseError::InvalidJson) => json_doc_of(raw@) is None,
                Err(ParseError::SchemaMismatch) => json_doc_of(raw@) matches Some(doc)
                    && !explained_shape(doc),
            },
    {
        match parse_document(raw) {
            Some(doc) => CommandExplained::from_document(&doc),
            None => Err(ParseError::InvalidJson),
        }
    }
}

/// The explanation text of the template shown to the LLM.
pub open spec fn default_explained_text() -> Seq<char> {
    "explain the command and its arguments briefly. one line maximum."@
}

/// The explain template, as JSON.
pub open spec fn explained_template_json() -> Seq<char> {
    seq!['{'] + json_str_member("explanation"@, default_explained_text()) + seq!['}']
}

/// The system prompt of the explain round.
pub open spec fn explain_system_prompt_spec() -> Seq<char> {
    "You are an assistant that explains shell commands in simple terms. Please provide a brief explanation for any command given to you.\n\n"@
        + "You need to respond json format like this: "@ + explained_template_json()
}

/// Builds the system prompt that opens an explain round.
pub fn explain_system_prompt() -> (r: String)
    ensures
        r@ == explain_system_prompt_spec(),
{
    let mut out: String =
        "You are an assistant that explains shell commands in simple terms. Please provide a brief explanation for any command given to you.\n\n".to_owned();
    out.append("You need to respond json format like this: ");
    out.push('{');
    write_json_str_member(
        &mut out,
        "explanation",
        "explain the command and its arguments briefly. one line maximum.",
    );
    out.push('}');
    proof {
        assert(out@ =~= explain_system_prompt_spec());
    }
    out
}

} // verus!
