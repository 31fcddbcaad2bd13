//! The JSON documents the assistant reads.
//!
//! An LLM reply carries a JSON object; the schema matching over it is the
//! library's own, verified logic. The text-to-document step is serde_json's
//! and stands behind a trusted wrapper: the document it hands back is the
//! library's own `JsonValue`, over which everything else is proved.

use vstd::prelude::*;

verus! {

/// A JSON document, as far as the assistant's schemas read it.
///
/// Numeric values are never read by any schema, so a number keeps no payload.
/// Object fields keep their order of arrival; keys from serde_json are unique.
#[derive(Debug)]
pub enum JsonValue {
    Null,
    Bool(bool),
    Number,
    Str(String),
    Arr(Vec<JsonValue>),
    Obj(Vec<(String, JsonValue)>),
}

/// First field of `fields` whose key reads `key`, if any.
pub open spec fn field_lookup(fields: Seq<(String, JsonValue)>, key: Seq<char>) -> Option<JsonValue>
    decreases fields.len(),
{
    if fields.len() == 0 {
        None
    } else if fields[0].0@ == key {
        Some(fields[0].1)
    } else {
        field_lookup(fields.skip(1), key)
    }
}

/// Field `key` of `doc`, if `doc` is an object that has it.
pub open spec fn lookup(doc: JsonValue, key: Seq<char>) -> Option<JsonValue> {
    match doc {
        JsonValue::Obj(fields) => field_lookup(fields@, key),
        _ => None,
    }
}

/// Field `key` of `doc`, if it is there and holds a string.
pub open spec fn str_field(doc: JsonValue, key: Seq<char>) -> Option<Seq<char>> {
    match lookup(doc, key) {
        Some(JsonValue::Str(s)) => Some(s@),
        _ => None,
    }
}

proof fn lemma_field_lookup_skip(fields: Seq<(String, JsonValue)>, key: Seq<char>, i: int)
    requires
        0 <= i <= fields.len(),
        forall|j: int| 0 <= j < i ==> fields[j].0@ != key,
    ensures
        field_lookup(fields, key) == field_lookup(fields.skip(i), key),
    decreases i,
{
    if i > 0 {
        assert(fields.skip(1).skip(i - 1) =~= fields.skip(i));
        lemma_field_lookup_skip(fields.skip(1), key, i - 1);
    } else {
        assert(fields.skip(0) =~= fields);
    }
}

impl JsonValue {
    /// The value under `key`, when this document is an object carrying it.
    pub fn get<'a>(&'a self, key: &str) -> (r: Option<&'a JsonValue>)
        ensures
            match r {
                Some(v) => lookup(*self, key@) == Some(*v),
                None => lookup(*self, key@) is None,
            },
    {
        match self {
            JsonValue::Obj(fields) => {
                let wanted: String = key.to_owned();
                let n = fields.len();
                for i in 0..n
                    invariant
                        n == fields.len(),
                        wanted@ == key@,
                        lookup(*self, key@) == field_lookup(fields@, key@),
                        forall|j: int| 0 <= j < i ==> fields@[j].0@ != key@,
                {
                    let entry = &fields[i];
                    if entry.0 == wanted {
                        proof {
                            lemma_field_lookup_skip(fields@, key@, i as int);
                            assert(fields@.skip(i as int)[0] == fields@[i as int]);
                        }
                        return Some(&entry.1);
                    }
                }
                proof {
                    lemma_field_lookup_skip(fields@, key@, n as int);
                }
                None
            },
            _ => None,
        }
    }

    /// The string under `key`, when this document is an object whose `key`
    /// field holds one.
    pub fn get_str<'a>(&'a self, key: &str) -> (r: Option<&'a String>)
        ensures
            match r {
                Some(s) => str_field(*self, key@) == Some(s@),
                None => str_field(*self, key@) is None,
            },
    {
        match self.get(key) {
            Some(JsonValue::Str(s)) => Some(s),
            _ => None,
        }
    }
}

/// Relies on `alloc::string::String::push`: appends the given character to
/// the end of the string. vstd gives `push` no specification of its own.
pub assume_specification[ String::push ](s: &mut String, c: char)
    ensures
        final(s)@ == old(s)@.push(c),
;

/// How one character reads inside a JSON string literal.
pub open spec fn json_escaped_char(c: char) -> Seq<char> {
    if c == '"' {
        seq!['\\', '"']
    } else if c == '\\' {
        seq!['\\', '\\']
    } else if c == '\n' {
        seq!['\\', 'n']
    } else if c == '\t' {
        seq!['\\', 't']
    } else if c == '\r' {
        seq!['\\', 'r']
    } else {
        seq![c]
    }
}

/// A whole string's characters, escaped for a JSON string literal.
pub open spec fn json_escaped(s: Seq<char>) -> Seq<char>
    decreases s.len(),
{
    if s.len() == 0 {
        Seq::empty()
    } else {
        json_escaped(s.drop_last()) + json_escaped_char(s.last())
    }
}

/// A JSON string literal: the escaped characters between double quotes.
pub open spec fn json_string_token(s: Seq<char>) -> Seq<char> {
    seq!['"'] + json_escaped(s) + seq!['"']
}

/// One `"key":"value"` member of a JSON object.
pub open spec fn json_str_member(key: Seq<char>, value: Seq<char>) -> Seq<char> {
    json_string_token(key) + seq![':'] + json_string_token(value)
}

fn push_escaped_char(out: &mut String, c: char)
    ensures
        final(out)@ == old(out)@ + json_escaped_char(c),
{
    if c == '"' {
        out.push('\\');
        out.push('"');
    } else if c == '\\' {
        out.push('\\');
        out.push('\\');
    } else if c == '\n' {
        out.push('\\');
        out.push('n');
    } else if c == '\t' {
        out.push('\\');
        out.push('t');
    } else if c == '\r' {
        out.push('\\');
        out.push('r');
    } else {
        out.push(c);
    }
    proof {
        assert(out@ =~= old(out)@ + json_escaped_char(c));
    }
}

/// Writes `s` onto `out` as a JSON string literal.
pub fn write_json_string(out: &mut String, s: &str)
    ensures
        final(out)@ == old(out)@ + json_string_token(s@),
{
    out.push('"');
    let n = s.unicode_len();
    for i in 0..n
        invariant
            n == s@.len(),
            out@ == old(out)@ + seq!['"'] + json_escaped(s@.take(i as int)),
    {
        let c = s.get_char(i);
        proof {
            assert(s@.take(i + 1 as int).drop_last() =~= s@.take(i as int));
            assert(s@.take(i + 1 as int).last() == s@[i as int]);
        }
        push_escaped_char(out, c);
    }
    out.push('"');
    proof {
        assert(s@.take(n as int) =~= s@);
        assert(out@ =~= old(out)@ + json_string_token(s@));
    }
}

/// Writes one `"key":"value"` object member onto `out`.
pub fn write_json_str_member(out: &mut String, key: &str, value: &str)
    ensures
        final(out)@ == old(out)@ + json_str_member(key@, value@),
{
    write_json_string(out, key);
    out.push(':');
    write_json_string(out, value);
    proof {
        assert(out@ =~= old(out)@ + json_str_member(key@, value@));
    }
}

/// serde_json's document type, declared so that the conversion below may
/// mention it; the library never looks inside a value of it.
#[verifier::external_type_specification]
#[verifier::external_body]
pub struct ExSerdeValue(serde_json::Value);

/// The document that serde_json reads out of `text`, or `None` when the text
/// is not valid JSON. Every caller learns of it only what the contracts of
/// `parse_document` state.
pub uninterp spec fn json_doc_of(text: Seq<char>) -> Option<JsonValue>;

/// Relies on `serde_json::from_str::<serde_json::Value>`: parsing is a
/// function of the text alone; a text that is not valid JSON is refused.
/// The parsed value is carried over into the library's `JsonValue` by
/// `document_from_serde`.
#[verifier::external_body]
pub fn parse_document(text: &str) -> (r: Option<JsonValue>)
    ensures
        r == json_doc_of(text@),
{
    match serde_json::from_str::<serde_json::Value>(text) {
        Ok(v) => Some(document_from_serde(&v)),
        Err(_) => None,
    }
}

/// Relies on the variants of `serde_json::Value`: each arm moves one variant's
/// payload into the matching `JsonValue` shape. This is the conversion half of
/// `parse_document`, split out because the carry-over is recursive.
#[verifier::external_body]
fn document_from_serde(v: &serde_json::Value) -> JsonValue {
    match v {
        serde_json::Value::Null => JsonValue::Null,
        serde_json::Value::Bool(b) => JsonValue::Bool(*b),
        serde_json::Value::Number(_) => JsonValue::Number,
        serde_json::Value::String(s) => JsonValue::Str(s.clone()),
        serde_json::Value::Array(items) => JsonValue::Arr(
            items.iter().map(document_from_serde).collect(),
        ),
        serde_json::Value::Object(map) => JsonValue::Obj(
            map.iter().map(|(k, x)| (k.clone(), document_from_serde(x))).collect(),
        ),
    }
}

} // verus!
