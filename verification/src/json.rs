//! The reader of JSON text. The text is read by `serde_json`, whose work is
//! taken on trust here; what the text means as a manifest is decided by the
//! schema, which is proved.

use vstd::prelude::*;
use crate::document::{Json, JsonModel};
use crate::error::{Error, ErrorModel};
use crate::manifest::Manifest;
use crate::schema::manifest_read;

verus! {

/// `serde_json::Value`, the tree that `serde_json` reads a text into.
/// Nothing is known of a value here but what the functions below hand out.
#[verifier::external_type_specification]
#[verifier::external_body]
pub struct ExValue(serde_json::Value);

/// The document that `serde_json::from_slice` reads from the text `bytes`,
/// or, where it refuses the text, the message of its error. The same text
/// always gives the same outcome. A number that is a natural number below
/// 2^64 stands in a document as `Integer`, any other as `Fraction`. The
/// members of an object stand in ascending order of their names, each name
/// once: of members that share a name in the text, the last one stays.
pub uninterp spec fn parsed_document(bytes: Seq<u8>) -> Result<JsonModel, Seq<char>>;

/// Turns a `serde_json::Value` into the library's own value, variant by
/// variant: the items of an array in their order, the members of an object
/// in the order in which `serde_json::Map::iter` hands them out, which is
/// the ascending order of their names, and a number as `Integer` where
/// `serde_json::Number::as_u64` gives its value and as `Fraction` where it
/// gives none. Nothing is claimed of the result.
#[verifier::external_body]
fn document_of(v: &serde_json::Value) -> Json {
    match v {
        serde_json::Value::Null => Json::Null,
        serde_json::Value::Bool(b) => Json::Bool(*b),
        serde_json::Value::Number(n) => n.as_u64().map_or(Json::Fraction, Json::Integer),
        serde_json::Value::String(s) => Json::Text(s.clone()),
        serde_json::Value::Array(items) => Json::List(items.iter().map(document_of).collect()),
        serde_json::Value::Object(members) => Json::Object(
            members.iter().map(|(k, v)| (k.clone(), document_of(v))).collect(),
        ),
    }
}

/// Calls `serde_json::from_slice` for a `serde_json::Value`. The contract
/// claims that the outcome is decided by the text alone, and gives it the
/// name `parsed_document`: the document, or the message that the
/// `serde_json::Error` shows.
#[verifier::external_body]
fn read_document(bytes: &[u8]) -> (r: Result<Json, String>)
    ensures
        match parsed_document(bytes@) {
            Ok(d) => r is Ok && r->Ok_0.deep_view() == d,
            Err(message) => r is Err && r->Err_0@ == message,
        },
{
    match serde_json::from_slice::<serde_json::Value>(bytes) {
        Ok(v) => Ok(document_of(&v)),
        Err(e) => Err(e.to_string()),
    }
}

/// Whether `r` is what reading a manifest from the text `bytes` gives.
pub open spec fn parsed(bytes: Seq<u8>, r: Result<Manifest, Error>) -> bool {
    match parsed_document(bytes) {
        Ok(d) => match manifest_read(d) {
            Ok(m) => r is Ok && r->Ok_0@ == m && m.wf(),
            Err(text) => r is Err && r->Err_0@ == ErrorModel::ManifestParse(text),
        },
        Err(message) => r is Err && r->Err_0@ == ErrorModel::ManifestParse(message),
    }
}

impl Manifest {
    /// Reads a manifest from JSON text. A text that is no JSON is refused
    /// as `ManifestParse` with the message of the JSON reader, and a
    /// document that describes no manifest with the text of its first
    /// fault.
    pub fn parse(bytes: &[u8]) -> (r: Result<Manifest, Error>)
        ensures
            parsed(bytes@, r),
    {
        match read_document(bytes) {
            Ok(j) => Manifest::from_json(&j),
            Err(message) => Err(Error::ManifestParse(message)),
        }
    }
}

} // verus!
