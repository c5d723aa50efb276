use vstd::prelude::*;
use crate::decode::{definitions_from_json, is_definition_list, items_of, read_from, with_text};
use crate::definition::Definition;
use crate::json::{is_json_text, parse_json, parsed_json, Json, WordnikError};
use crate::operation::Operation;
use crate::render::{pretty_text, render_pretty};

verus! {

/// The address of operation `op` on `word`, under base `entry`, with key `api_key`.
pub open spec fn request_url(entry: Seq<char>, api_key: Seq<char>, word: Seq<char>, op: Operation) -> Seq<char> {
    entry + word + "/"@ + op.spec_name() + "?api_key="@ + api_key
}

/// The outcome of reading definitions from a JSON document: the entries with
/// text, or `Deserialization` when it is not an array of definition objects.
pub open spec fn definitions_outcome(j: Json, r: Result<Vec<Definition>, WordnikError>) -> bool {
    &&& r is Ok <==> is_definition_list(j)
    &&& r is Err ==> r == Err::<Vec<Definition>, WordnikError>(WordnikError::Deserialization)
    &&& r is Ok ==> read_from(r->Ok_0@, with_text(items_of(j)))
}

/// The outcome of rendering the definitions read from a JSON document: it
/// fails exactly as reading them does, and otherwise holds the grouped
/// rendering of the definitions read.
pub open spec fn pretty_outcome(j: Json, r: Result<String, WordnikError>) -> bool {
    &&& r is Ok <==> is_definition_list(j)
    &&& r is Err ==> r == Err::<String, WordnikError>(WordnikError::Deserialization)
    &&& r is Ok ==> exists|defs: Seq<Definition>|
        read_from(defs, with_text(items_of(j))) && r->Ok_0@ == pretty_text(defs)
}

/// A client of the word service: an API key and the base address of the
/// word endpoints, both fixed at construction.
pub struct Wordnik {
    api_key: String,
    entry: String,
}

impl Wordnik {
    /// The API key.
    pub closed spec fn spec_api_key(&self) -> Seq<char> {
        self.api_key@
    }

    /// The base address of the word endpoints.
    pub closed spec fn spec_entry(&self) -> Seq<char> {
        self.entry@
    }

    /// A client with key `api_key` and base address `entry`; neither is checked.
    pub fn new(api_key: String, entry: String) -> (r: Wordnik)
        ensures
            r.spec_api_key() == api_key@,
            r.spec_entry() == entry@,
    {
        Wordnik { api_key, entry }
    }

    /// The address of operation `op` on `word`:
    /// `<entry><word>/<operation>?api_key=<key>`.
    pub fn url(&self, word: &str, op: Operation) -> (r: String)
        ensures
            r@ == request_url(self.spec_entry(), self.spec_api_key(), word@, op),
    {
        let mut s = self.entry.clone();
        s.append(word);
        s.append("/");
        let name = op.name();
        s.append(name.as_str());
        s.append("?api_key=");
        s.append(self.api_key.as_str());
        s
    }

    /// The address from which the definitions of `word` are fetched.
    pub fn definitions_url(&self, word: &str) -> (r: String)
        ensures
            r@ == request_url(self.spec_entry(), self.spec_api_key(), word@, Operation::Definitions),
    {
        self.url(word, Operation::Definitions)
    }

    /// Reads the definitions from the body that the service returned, leaving
    /// out the entries whose text is empty. Fails with `Parse` when the body
    /// is not JSON, and with `Deserialization` when the JSON is not an array
    /// of definition objects.
    pub fn get_definitions(&self, body: &str) -> (r: Result<Vec<Definition>, WordnikError>)
        ensures
            !is_json_text(body@) ==> r == Err::<Vec<Definition>, WordnikError>(WordnikError::Parse),
            is_json_text(body@) ==> definitions_outcome(parsed_json(body@), r),
    {
        match parse_json(body) {
            Ok(j) => definitions_from_json(&j),
            Err(e) => Err(e),
        }
    }

    /// Reads the definitions from the body that the service returned and
    /// renders them grouped by attribution text; fails as
    /// [`Wordnik::get_definitions`] does.
    pub fn get_definitions_pretty(&self, body: &str) -> (r: Result<String, WordnikError>)
        ensures
            !is_json_text(body@) ==> r == Err::<String, WordnikError>(WordnikError::Parse),
            is_json_text(body@) ==> pretty_outcome(parsed_json(body@), r),
    {
        match parse_json(body) {
            Ok(j) => pretty_from_json(&j),
            Err(e) => Err(e),
        }
    }
}

/// Reads the definitions from a JSON document and renders them grouped by
/// attribution text.
pub fn pretty_from_json(j: &Json) -> (r: Result<String, WordnikError>)
    ensures
        pretty_outcome(*j, r),
{
    match definitions_from_json(j) {
        Ok(defs) => Ok(render_pretty(&defs)),
        Err(e) => Err(e),
    }
}

} // verus!
