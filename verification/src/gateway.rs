//! The LLM gateway's verified half: reading one network outcome into a JSON
//! payload.
//!
//! The network call itself — one blocking chat-completion round-trip — lives
//! outside the library. What comes back is either a transport failure, an
//! answer with no content, or free text that may bury a JSON object in prose.
//! The gateway pulls the JSON out of the prose (through the `surfing` crate)
//! and owes a payload exactly to the replies that carry one.

use vstd::prelude::*;

use crate::errors::LLMError;

verus! {

/// What the one network round-trip produced, as the runner observed it.
#[derive(Debug)]
pub enum LlmOutcome {
    /// The call itself failed.
    Failure { details: String },
    /// The service answered; its message content, if it sent any.
    Success { content: Option<String> },
}

/// The JSON text that `surfing` digs out of a free-form reply: every JSON
/// object or array in it, concatenated; empty when there is none. A function
/// of the reply text alone.
pub uninterp spec fn extracted_json_of(reply: Seq<char>) -> Seq<char>;

/// Relies on `surfing::extract_json_to_string`: a character scan that copies
/// the bracket-balanced JSON spans of the text, in order; it depends on the
/// text alone, and cannot fail when writing to an in-memory buffer.
#[verifier::external_body]
fn extract_json_text(reply: &str) -> (r: String)
    ensures
        r@ == extracted_json_of(reply@),
{
    surfing::extract_json_to_string(reply).unwrap_or_default()
}

/// Reads one network outcome into the JSON payload for the action parser.
///
/// A transport failure and an empty answer are their own errors; an answer
/// whose text holds no JSON at all is `NoJSONFound`; every other answer
/// yields exactly the JSON text extracted from it.
pub fn extract_payload(outcome: &LlmOutcome) -> (r: Result<String, LLMError>)
    ensures
        match *outcome {
            LlmOutcome::Failure { details } => r matches Err(
                LLMError::TransportFailure { details: d },
            ) && d@ == details@,
            LlmOutcome::Success { content: None } => r matches Err(LLMError::EmptyResponse),
            LlmOutcome::Success { content: Some(c) } => {
                if extracted_json_of(c@).len() == 0 {
                    r matches Err(LLMError::NoJSONFound)
                } else {
                    r matches Ok(p) && p@ == extracted_json_of(c@)
                }
            },
        },
{
    match outcome {
        LlmOutcome::Failure { details } => {
            Err(LLMError::TransportFailure { details: details.clone() })
        },
        LlmOutcome::Success { content: None } => Err(LLMError::EmptyResponse),
        LlmOutcome::Success { content: Some(c) } => {
            let payload = extract_json_text(c.as_str());
            if payload.as_str().is_empty() {
                Err(LLMError::NoJSONFound)
            } else {
                Ok(payload)
            }
        },
    }
}

/// The payload a reply owes the parser, if any: what `extract_payload`
/// returns on the success path, stated once for the turn controller's
/// contracts to build on.
pub open spec fn payload_of(outcome: LlmOutcome) -> Option<Seq<char>> {
    match outcome {
        LlmOutcome::Failure { .. } => None,
        LlmOutcome::Success { content: None } => None,
        LlmOutcome::Success { content: Some(c) } => {
            if extracted_json_of(c@).len() == 0 {
                None
            } else {
                Some(extracted_json_of(c@))
            }
        },
    }
}

} // verus!
