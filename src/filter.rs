//! Compilation of filter text into a filter document, in two stages: the
//! text is parsed as JSON, then the parsed value is converted to a document.
use vstd::prelude::*;

verus! {

#[verifier::external_type_specification]
#[verifier::external_body]
pub struct ExDocument(mongodb::bson::Document);

#[verifier::external_type_specification]
#[verifier::external_body]
pub struct ExJsonValue(serde_json::Value);

/// Why filter text could not be compiled; each carries a readable message.
#[derive(Debug, Clone)]
pub enum FilterError {
    /// The text is not well-formed JSON.
    InvalidSyntax(String),
    /// The JSON is well-formed but cannot be turned into a filter document.
    InvalidFilter(String),
}

/// Whether `serde_json` accepts the text as a JSON value.
pub uninterp spec fn json_accepts(text: Seq<char>) -> bool;

/// The text that compilation reads: the query buffer when it holds
/// anything, else the filter buffer.
pub open spec fn filter_source(query: Seq<char>, filter: Seq<char>) -> Seq<char> {
    if query.len() > 0 {
        query
    } else {
        filter
    }
}

/// Whether `bson::to_document` turns the JSON value parsed from the text
/// into a document.
pub uninterp spec fn json_converts(text: Seq<char>) -> bool;

/// A JSON value together with the text it was parsed from. Only
/// [`parse_json`] builds one.
pub struct ParsedJson {
    value: serde_json::Value,
    source: Ghost<Seq<char>>,
}

impl ParsedJson {
    /// The text this value was parsed from.
    pub closed spec fn source(&self) -> Seq<char> {
        self.source@
    }
}

/// Relies on `serde_json::from_str::<serde_json::Value>`: parses the text as
/// JSON, failing with the parser's message; whether it succeeds depends on
/// the text alone.
#[verifier::external_body]
pub(crate) fn parse_json(text: &str) -> (r: Result<ParsedJson, String>)
    ensures
        r is Ok <==> json_accepts(text@),
        r matches Ok(p) ==> p.source() == text@,
{
    match serde_json::from_str::<serde_json::Value>(text) {
        Ok(value) => Ok(ParsedJson { value, source: Ghost(text@) }),
        Err(e) => Err(e.to_string()),
    }
}

/// Relies on `mongodb::bson::to_document`: converts a parsed JSON value into
/// a document, failing with the serializer's message (on an array or a
/// scalar, or an integer beyond `i64`); whether it succeeds depends on the
/// value alone.
#[verifier::external_body]
pub(crate) fn to_filter_document(
    parsed: &ParsedJson,
) -> (r: Result<mongodb::bson::Document, String>)
    ensures
        r is Ok <==> json_converts(parsed.source()),
{
    mongodb::bson::to_document(&parsed.value).map_err(|e| e.to_string())
}

/// When both buffers hold text, compilation reads the query buffer.
pub proof fn lemma_query_takes_priority(query: Seq<char>, filter: Seq<char>)
    requires
        query.len() > 0,
    ensures
        filter_source(query, filter) == query,
{
}

} // verus!
