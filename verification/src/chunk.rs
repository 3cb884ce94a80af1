//! Chunk classification.
//!
//! One network chunk is classified as exactly one of: a typed event, a
//! too-small keep-alive, or a parse failure that carries the offending
//! bytes. The JSON text itself is read by `serde_json` behind the two
//! trusted functions below; everything after that point — the schema
//! decision and what the result carries — is verified.

use vstd::prelude::*;

use crate::event::StreamResponse;
use crate::json::Json;
use crate::json::JsonVal;
use crate::parse::parse_response;
use crate::parse::spec_parse_response;

verus! {

#[verifier::external_type_specification]
#[verifier::external_body]
pub struct ExValue(serde_json::Value);

/// Relies on `serde_json::Value`'s public variants: each arm moves one
/// variant's payload into the library's own document type. An integer
/// number becomes `UInt` through `Number::as_u64`; any other number keeps
/// the text its `Display` implementation gives it; arrays and objects are
/// converted element by element.
#[verifier::external_body]
fn json_of_value(v: serde_json::Value) -> Json {
    match v {
        serde_json::Value::Null => Json::Null,
        serde_json::Value::Bool(b) => Json::Bool(b),
        serde_json::Value::Number(n) => match n.as_u64() {
            Some(u) => Json::UInt(u),
            None => Json::Number(n.to_string()),
        },
        serde_json::Value::String(s) => Json::Str(s),
        serde_json::Value::Array(a) => Json::Arr(a.into_iter().map(json_of_value).collect()),
        serde_json::Value::Object(m) => Json::Obj(
            m.into_iter().map(|(k, x)| (k, json_of_value(x))).collect(),
        ),
    }
}

/// The document that the JSON parser reads from one run of bytes, or the
/// error text it reports. `serde_json::from_slice` computes its result
/// from the bytes alone — no randomness, clock or environment — so the
/// outcome is a function of them, named here so that contracts can speak
/// of it.
pub uninterp spec fn json_doc_of(bytes: Seq<u8>) -> Result<JsonVal, Seq<char>>;

/// Relies on `serde_json::from_slice`: the bytes of one valid JSON
/// document (trailing whitespace allowed, nesting bounded by the parser's
/// recursion limit) yield the document tree; anything else yields the
/// parser's error text. Objects arrive with their keys already
/// deduplicated, the last binding winning, as `serde_json`'s map builds
/// them. The result depends on the bytes alone, which the contract states
/// through [`json_doc_of`].
#[verifier::external_body]
pub(crate) fn parse_json_bytes(bytes: &[u8]) -> (r: Result<Json, String>)
    ensures
        match r {
            Result::Ok(j) => json_doc_of(bytes@) == Result::<JsonVal, Seq<char>>::Ok(j@),
            Result::Err(e) => json_doc_of(bytes@) == Result::<JsonVal, Seq<char>>::Err(e@),
        },
{
    match serde_json::from_slice::<serde_json::Value>(bytes) {
        Ok(v) => Ok(json_of_value(v)),
        Err(e) => Err(format!("{}", e)),
    }
}

/// Chunks shorter than this many bytes are keep-alive padding.
pub const MIN_CHUNK_LEN: usize = 10;

/// The cause recorded when a chunk is valid JSON but not an event.
pub const SCHEMA_MISMATCH: &'static str = "document does not match the event schema";

/// What one chunk of the stream turned out to be.
#[derive(Debug, PartialEq)]
pub enum ChunkResult {
    /// A successfully parsed event.
    Event { event: StreamResponse },
    /// Keep-alive padding; skipped silently, never counted as an error.
    TooSmall,
    /// A chunk that did not parse; carries the offending bytes.
    ParseFailure { raw: Vec<u8>, cause: String },
    /// A failure of the connection itself, never produced by `classify`.
    TransportFailure { cause: String },
}

/// Classifies a chunk once its bytes have been read as a document.
pub fn classify_document(raw: Vec<u8>, doc: Result<Json, String>) -> (r: ChunkResult)
    ensures
        raw@.len() < MIN_CHUNK_LEN ==> r == ChunkResult::TooSmall,
        raw@.len() >= MIN_CHUNK_LEN ==> match doc {
            Result::Err(msg) => r == (ChunkResult::ParseFailure { raw, cause: msg }),
            Result::Ok(j) => match spec_parse_response(j@) {
                Option::Some(ev) => (r matches ChunkResult::Event { event } && event@ == ev),
                Option::None => (r matches ChunkResult::ParseFailure { raw: r2, cause } && r2
                    == raw && cause@ == SCHEMA_MISMATCH@),
            },
        },
{
    if raw.len() < MIN_CHUNK_LEN {
        return ChunkResult::TooSmall;
    }
    match doc {
        Result::Ok(j) => match parse_response(&j) {
            Option::Some(event) => ChunkResult::Event { event },
            Option::None => ChunkResult::ParseFailure { raw, cause: SCHEMA_MISMATCH.to_owned() },
        },
        Result::Err(cause) => ChunkResult::ParseFailure { raw, cause },
    }
}

/// Classifies one raw chunk of the stream.
///
/// A chunk shorter than [`MIN_CHUNK_LEN`] is keep-alive padding and is
/// classified `TooSmall`. Any other chunk is read as a document
/// ([`json_doc_of`]): an unreadable one, and a readable one that does not
/// match the event schema, become a `ParseFailure` carrying the chunk's
/// bytes unmodified and the respective cause; a readable one that matches
/// becomes exactly the `Event` the schema extraction yields.
pub fn classify(raw: Vec<u8>) -> (r: ChunkResult)
    ensures
        (r is TooSmall) <==> raw@.len() < MIN_CHUNK_LEN,
        !(r is TransportFailure),
        match r {
            ChunkResult::ParseFailure { raw: r2, cause: _ } => r2 == raw,
            _ => true,
        },
        raw@.len() >= MIN_CHUNK_LEN ==> match json_doc_of(raw@) {
            Result::Ok(v) => match spec_parse_response(v) {
                Option::Some(ev) => (r matches ChunkResult::Event { event } && event@ == ev),
                Option::None => (r matches ChunkResult::ParseFailure { raw: r2, cause } && r2
                    == raw && cause@ == SCHEMA_MISMATCH@),
            },
            Result::Err(e) => (r matches ChunkResult::ParseFailure { raw: r2, cause } && r2 == raw
                && cause@ == e),
        },
{
    let doc = parse_json_bytes(raw.as_slice());
    classify_document(raw, doc)
}

} // verus!
