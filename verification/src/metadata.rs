//! The application metadata document: a key-value document with string
//! `description` and `version` fields, read from a JSON text.

use vstd::prelude::*;

use crate::errors::ConfigError;

verus! {

/// The top-level string field named `key` of the JSON document `doc`:
/// `None` when `doc` is not well-formed JSON, is not an object, has no such
/// field, or the field is not a JSON string.
pub uninterp spec fn json_string_field(doc: Seq<char>, key: Seq<char>) -> Option<Seq<char>>;

/// Relies on serde_json::from_str::<Value>, Value::get and Value::as_str:
/// parses `doc` and returns its top-level field `key` when that field is a
/// JSON string. The result depends on the two texts alone.
#[verifier::external_body]
fn string_field(doc: &str, key: &str) -> (r: Option<String>)
    ensures
        r matches Some(s) ==> json_string_field(doc@, key@) == Some(s@),
        r is None ==> json_string_field(doc@, key@) is None,
{
    let v: serde_json::Value = match serde_json::from_str(doc) {
        Ok(v) => v,
        Err(_) => return None,
    };
    v.get(key).and_then(|f| f.as_str()).map(|s| s.to_string())
}

/// The mathematical content of a parsed metadata document.
pub struct MetadataView {
    pub description: Seq<char>,
    pub version: Seq<char>,
}

/// Application metadata as read from the metadata document.
#[derive(Debug)]
pub struct Metadata {
    pub description: String,
    pub version: String,
}

impl View for Metadata {
    type V = MetadataView;

    open spec fn view(&self) -> MetadataView {
        MetadataView { description: self.description@, version: self.version@ }
    }
}

impl Clone for Metadata {
    fn clone(&self) -> (r: Self)
        ensures
            r@ == self@,
    {
        Metadata { description: self.description.clone(), version: self.version.clone() }
    }
}

/// The metadata carried by the JSON text `doc`, when `doc` has string
/// `description` and `version` fields.
pub open spec fn spec_parse_metadata(doc: Seq<char>) -> Option<MetadataView> {
    match (json_string_field(doc, "description"@), json_string_field(doc, "version"@)) {
        (Some(d), Some(v)) => Some(MetadataView { description: d, version: v }),
        _ => None,
    }
}

/// Parse a metadata document: succeeds exactly when `doc` is a JSON document
/// whose top-level `description` and `version` fields are strings.
pub fn parse_metadata(doc: &str) -> (r: Result<Metadata, ConfigError>)
    ensures
        r matches Ok(m) ==> spec_parse_metadata(doc@) == Some(m@),
        r matches Err(e) ==> spec_parse_metadata(doc@) is None && e
            == ConfigError::ConfigLoadError,
        r is Ok <==> spec_parse_metadata(doc@) is Some,
{
    let description = string_field(doc, "description");
    let version = string_field(doc, "version");
    match (description, version) {
        (Some(d), Some(v)) => Ok(Metadata { description: d, version: v }),
        _ => Err(ConfigError::ConfigLoadError),
    }
}

} // verus!
