//! A client library for the Wordnik dictionary service: request URLs,
//! decoding of the definitions that the service returns, and a grouped,
//! human-readable rendering of them.
mod client;
mod decode;
mod definition;
mod json;
mod laws;
mod operation;
mod render;

pub use client::{definitions_outcome, pretty_from_json, pretty_outcome, request_url, Wordnik};
pub use decode::{
    definitions_from_json, field_ok, field_text, is_definition_list, is_record, items_of, lookup,
    members_of, read_from, read_record, record_matches, with_text,
};
pub use definition::{pretty_line, Definition};
pub use json::{is_json_text, parse_json, parsed_json, Json, WordnikError};
pub use laws::{
    has_text, law_kept_are_those_with_text, law_no_empty_text, law_one_header_per_attribution,
};
pub use operation::Operation;
pub use render::{
    attributions, blocks, bullets, first_seen, group_block, group_keys, pretty_text, render_pretty,
};
