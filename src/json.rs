use vstd::prelude::*;

verus! {

/// A JSON document as this library reads it. Numbers keep their text; an
/// object keeps its members in order.
#[derive(Debug, PartialEq)]
pub enum Json {
    Null,
    Bool(bool),
    Number(String),
    Str(String),
    Array(Vec<Json>),
    Object(Vec<(String, Json)>),
}

/// The error kinds of a lookup: the service could not be reached, its body
/// was not JSON, or the JSON was not a list of definitions.
#[derive(Debug, Clone, Copy, PartialEq, Eq)]
pub enum WordnikError {
    Transport,
    Parse,
    Deserialization,
}

#[verifier::external_type_specification]
#[verifier::external_body]
pub struct ExValue(serde_json::Value);

/// Whether `s` is a JSON text that serde_json accepts.
pub uninterp spec fn is_json_text(s: Seq<char>) -> bool;

/// The document that serde_json reads from the JSON text `s`.
pub uninterp spec fn parsed_json(s: Seq<char>) -> Json;

/// Converts a serde_json value into a `Json`, one for one: each variant's
/// contents moved over, a number as the text that `Number`'s `to_string` gives,
/// an object's members in the map's order.
#[verifier::external_body]
fn json_from_value(v: serde_json::Value) -> Json {
    match v {
        serde_json::Value::Null => Json::Null,
        serde_json::Value::Bool(b) => Json::Bool(b),
        serde_json::Value::Number(n) => Json::Number(n.to_string()),
        serde_json::Value::String(s) => Json::Str(s),
        serde_json::Value::Array(a) => Json::Array(a.into_iter().map(json_from_value).collect()),
        serde_json::Value::Object(m) => {
            Json::Object(m.into_iter().map(|(k, x)| (k, json_from_value(x))).collect())
        },
    }
}

/// Relies on `serde_json::from_str`: it parses the whole text as one JSON
/// value, depends on the text alone, and fails exactly when serde_json does
/// not accept the text as one (it is not JSON, or nests past serde_json's
/// recursion limit).
#[verifier::external_body]
fn parse_document(body: &str) -> (r: Option<Json>)
    ensures
        r is Some <==> is_json_text(body@),
        r is Some ==> r->Some_0 == parsed_json(body@),
{
    serde_json::from_str::<serde_json::Value>(body).ok().map(json_from_value)
}

/// Parses a response body as generic JSON: the document that the body holds,
/// or `Parse` exactly when the body is not a JSON text.
pub fn parse_json(body: &str) -> (r: Result<Json, WordnikError>)
    ensures
        is_json_text(body@) ==> r == Ok::<Json, WordnikError>(parsed_json(body@)),
        !is_json_text(body@) ==> r == Err::<Json, WordnikError>(WordnikError::Parse),
{
    match parse_document(body) {
        Some(j) => Ok(j),
        None => Err(WordnikError::Parse),
    }
}

} // verus!
