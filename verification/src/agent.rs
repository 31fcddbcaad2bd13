//! The plain command object of the earliest agent: a shell command and its
//! one-line explanation, with nothing else around it.

use vstd::prelude::*;

use crate::errors::ParseError;
use crate::json::{json_doc_of, parse_document, str_field, JsonValue};

verus! {

/// A command and its explanation, as one LLM reply proposes them.
#[derive(Debug)]
pub struct CommandJSON {
    pub explanation: String,
    pub command: String,
}

impl CommandJSON {
    /// The shell script this object would run.
    pub fn get_commands(&self) -> (r: &str)
        ensures
            r@ == self.command@,
    {
        self.command.as_str()
    }

    /// Reads one JSON document as a command object: a string `command` and a
    /// string `explanation`, nothing less.
    pub fn from_document(doc: &JsonValue) -> (r: Result<CommandJSON, ParseError>)
        ensures
            match r {
                Ok(c) => str_field(*doc, "command"@) == Some(c.command@) && str_field(
                    *doc,
                    "explanation"@,
                ) == Some(c.explanation@),
                Err(e) => e is SchemaMismatch && (str_field(*doc, "command"@) is None || str_field(
                    *doc,
                    "explanation"@,
                ) is None),
            },
    {
        let command = doc.get_str("command");
        let explanation = doc.get_str("explanation");
        if command.is_some() && explanation.is_some() {
            Ok(CommandJSON {
                command: command.unwrap().clone(),
                explanation: explanation.unwrap().clone(),
            })
        } else {
            Err(ParseError::SchemaMismatch)
        }
    }

    /// Parses one raw text payload into a command object.
    pub fn parse(raw: &str) -> (r: Result<CommandJSON, ParseError>)
        ensures
            match r {
                Ok(c) => json_doc_of(raw@) matches Some(doc) && str_field(doc, "command"@)
                    == Some(c.command@) && str_field(doc, "explanation"@) == Some(c.explanation@),
                Err(ParseError::InvalidJson) => json_doc_of(raw@) is None,
                Err(ParseError::SchemaMismatch) => json_doc_of(raw@) matches Some(doc) && (
                str_field(doc, "command"@) is None || str_field(doc, "explanation"@) is None),
            },
    {
        match parse_document(raw) {
            Some(doc) => CommandJSON::from_document(&doc),
            None => Err(ParseError::InvalidJson),
        }
    }
}

} // verus!
