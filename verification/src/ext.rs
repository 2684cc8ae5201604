use vstd::prelude::*;
use crate::json::{Json, JsonView, MAX_JSON_DEPTH};
use crate::num::is_number_lit;

verus! {

#[verifier::external_type_specification]
#[verifier::external_body]
pub struct ExValue(serde_json::Value);

#[verifier::external_type_specification]
#[verifier::external_body]
pub struct ExNumber(serde_json::Number);

/// One level of a JSON document as serde_json hands it back, with the
/// children still in serde_json's own representation.
pub enum JsonNode {
    Null,
    Bool(bool),
    Num(serde_json::Number),
    Str(String),
    Arr(Vec<serde_json::Value>),
    Obj(Vec<(String, serde_json::Value)>),
}

/// The document that the JSON reader yields for a text, in the crate's
/// own shape: `None` where the reader rejects the text. It is a function
/// of the text alone: the reader is deterministic, and it hands object
/// members over key-sorted.
pub uninterp spec fn json_doc_of(s: Seq<char>) -> Option<JsonView>;

/// Relies on serde_json::from_str::<Value>: reads one JSON document from
/// the text, or reports the reader's error message. Malformed text and
/// nesting beyond the reader's own limit are rejected as errors. The
/// result is brought into the crate's tree by the verified converter.
#[verifier::external_body]
pub(crate) fn read_json(s: &str) -> (r: Result<Json, String>)
    ensures
        match (r, json_doc_of(s@)) {
            (Ok(j), Some(v)) => j.deep_view() == v,
            (Err(m), None) => true,
            _ => false,
        },
{
    match serde_json::from_str::<serde_json::Value>(s) {
        Ok(v) => match crate::json::to_json(v, MAX_JSON_DEPTH) {
            Ok(j) => Ok(j),
            Err(_) => Err("nesting is too deep".to_string()),
        },
        Err(e) => Err(e.to_string()),
    }
}

/// Relies on the variants of serde_json::Value, and on Map::into_iter
/// yielding the object's entries: splits one level of a document into the
/// crate's own shape.
#[verifier::external_body]
pub(crate) fn json_node(v: serde_json::Value) -> JsonNode {
    match v {
        serde_json::Value::Null => JsonNode::Null,
        serde_json::Value::Bool(b) => JsonNode::Bool(b),
        serde_json::Value::Number(n) => JsonNode::Num(n),
        serde_json::Value::String(s) => JsonNode::Str(s),
        serde_json::Value::Array(a) => JsonNode::Arr(a),
        serde_json::Value::Object(m) => JsonNode::Obj(m.into_iter().collect()),
    }
}

/// Relies on serde_json::Number's Display implementation: it writes the
/// number as a JSON number token.
#[verifier::external_body]
pub(crate) fn number_text(n: &serde_json::Number) -> (r: String)
    ensures
        is_number_lit(r@),
{
    n.to_string()
}

/// Relies on str's PartialEq: equality character for character.
#[verifier::external_body]
pub(crate) fn str_eq(a: &str, b: &str) -> (r: bool)
    ensures
        r == (a@ == b@),
{
    a == b
}

/// Relies on String::push: appends one character at the end.
#[verifier::external_body]
pub(crate) fn push_char(s: &mut String, c: char)
    ensures
        final(s)@ == old(s)@.push(c),
{
    s.push(c);
}

} // verus!
