//! Trusted boundary to `serde_json`.
//!
//! The request envelope arrives as JSON text. Parsing and navigating that
//! text is `serde_json`'s work; every call into it stands here behind a
//! wrapper whose contract the rest of the crate is verified against. What
//! each query returns is a function of the document text alone, so the
//! contracts speak over uninterpreted names of that text: a parsed document
//! carries the text it was parsed from as a ghost view — paired in verified
//! code, so the view is always the true source — and each field query ties
//! its result to a name applied to that text. All decisions on the results
//! are made by verified code.

use vstd::prelude::*;

verus! {

#[verifier::external_type_specification]
#[verifier::external_body]
pub struct ExJsonValue(serde_json::Value);

/// Whether a string is accepted as a JSON document; a function of the string
/// alone.
pub uninterp spec fn json_document_accepted(s: Seq<char>) -> bool;

/// The string value of the accepted document's `request_type` field; `None`
/// when the document is not an object, the field is absent, or its value is
/// not a string. A function of the document text alone.
pub uninterp spec fn json_envelope_kind(s: Seq<char>) -> Option<Seq<char>>;

/// Whether the accepted document is an object holding a `content` field; a
/// function of the document text alone.
pub uninterp spec fn json_has_content(s: Seq<char>) -> bool;

/// Whether the document's `content` value is an object.
pub uninterp spec fn json_content_is_object(s: Seq<char>) -> bool;

/// Whether the document's `content` object holds the given field.
pub uninterp spec fn json_content_field_present(s: Seq<char>, key: Seq<char>) -> bool;

/// Whether the document's `content` object holds the given field with value
/// null.
pub uninterp spec fn json_content_field_null(s: Seq<char>, key: Seq<char>) -> bool;

/// The string value of the given field of the document's `content` object;
/// `None` when the field is absent or its value is not a string.
pub uninterp spec fn json_content_field_str(s: Seq<char>, key: Seq<char>) -> Option<Seq<char>>;

/// The JSON encoding of a list of strings, if the serializer accepts it; a
/// function of the strings alone.
pub uninterp spec fn json_name_list(names: Seq<Seq<char>>) -> Option<Seq<char>>;

/// A parsed JSON document, opaque to the verifier, carrying as a ghost view
/// the text it was parsed from. Only `parse_document` constructs one, so the
/// view is always the true source text.
pub struct ParsedDocument {
    value: serde_json::Value,
    source: Ghost<Seq<char>>,
}

impl ParsedDocument {
    /// The document text this value was parsed from.
    pub closed spec fn src(self) -> Seq<char> {
        self.source@
    }
}

/// The `content` value of a parsed document, opaque to the verifier,
/// carrying the whole document's text as its ghost view. Only `content_of`
/// constructs one.
pub struct ContentDocument {
    value: serde_json::Value,
    source: Ghost<Seq<char>>,
}

impl ContentDocument {
    /// The text of the whole document this content was taken from.
    pub closed spec fn src(self) -> Seq<char> {
        self.source@
    }
}

/// Relies on `serde_json::from_str::<Value>`: success depends on the input
/// string alone; on failure the serializer's diagnostic is handed back as
/// text.
#[verifier::external_body]
fn parse_value(s: &str) -> (r: Result<serde_json::Value, String>)
    ensures
        r is Ok <==> json_document_accepted(s@),
{
    serde_json::from_str::<serde_json::Value>(s).map_err(|e| format!("{}", e))
}

/// Parse a request body, pairing the opaque value with the text it came
/// from.
pub(crate) fn parse_document(s: &str) -> (r: Result<ParsedDocument, String>)
    ensures
        r is Ok <==> json_document_accepted(s@),
        r matches Ok(d) ==> d.src() == s@,
{
    match parse_value(s) {
        Ok(value) => Ok(ParsedDocument { value, source: Ghost(s@) }),
        Err(e) => Err(e),
    }
}

/// Relies on `serde_json::Value::get` and `Value::as_str`: the string value
/// of the document's `request_type` field, a function of the document text.
#[verifier::external_body]
pub(crate) fn envelope_kind_field(d: &ParsedDocument) -> (r: Option<String>)
    ensures
        (match r {
            Some(k) => json_envelope_kind(d.src()) == Some(k@),
            None => json_envelope_kind(d.src()) is None,
        }),
{
    d.value.get("request_type").and_then(|v| v.as_str()).map(|s| s.to_string())
}

/// Relies on `serde_json::Value::get` and `Value::clone`: the document's
/// `content` value, present exactly when the document holds that field.
#[verifier::external_body]
fn content_value(d: &ParsedDocument) -> (r: Option<serde_json::Value>)
    ensures
        r is Some <==> json_has_content(d.src()),
{
    d.value.get("content").map(|v| v.clone())
}

/// Take the document's `content` value, pairing it with the document's text.
pub(crate) fn content_of(d: &ParsedDocument) -> (r: Option<ContentDocument>)
    ensures
        r is Some <==> json_has_content(d.src()),
        r matches Some(c) ==> c.src() == d.src(),
{
    match content_value(d) {
        Some(value) => Some(ContentDocument { value, source: Ghost(d.src()) }),
        None => None,
    }
}

/// Relies on `serde_json::Value::is_object`.
#[verifier::external_body]
pub(crate) fn content_is_object(c: &ContentDocument) -> (r: bool)
    ensures
        r == json_content_is_object(c.src()),
{
    c.value.is_object()
}

/// Relies on `serde_json::Value::get`: whether the content holds the field.
#[verifier::external_body]
pub(crate) fn content_field_present(c: &ContentDocument, key: &str) -> (r: bool)
    ensures
        r == json_content_field_present(c.src(), key@),
{
    c.value.get(key).is_some()
}

/// Relies on `serde_json::Value::get` and `Value::is_null`: whether the
/// content holds the field with value null.
#[verifier::external_body]
pub(crate) fn content_field_null(c: &ContentDocument, key: &str) -> (r: bool)
    ensures
        r == json_content_field_null(c.src(), key@),
{
    c.value.get(key).map(|v| v.is_null()).unwrap_or(false)
}

/// Relies on `serde_json::Value::get` and `Value::as_str`: the string value
/// of the given content field, a function of the document text.
#[verifier::external_body]
pub(crate) fn content_field_str(c: &ContentDocument, key: &str) -> (r: Option<String>)
    ensures
        (match r {
            Some(v) => json_content_field_str(c.src(), key@) == Some(v@),
            None => json_content_field_str(c.src(), key@) is None,
        }),
{
    c.value.get(key).and_then(|v| v.as_str()).map(|s| s.to_string())
}

/// Relies on `serde_json::to_string` on a vector of strings: the encoding is
/// a function of the strings alone, and so is whether the serializer accepts
/// them.
#[verifier::external_body]
pub(crate) fn encode_name_list(names: &Vec<String>) -> (r: Result<String, String>)
    ensures
        (match r {
            Ok(out) => json_name_list(names.deep_view()) == Some(out@),
            Err(_) => json_name_list(names.deep_view()) is None,
        }),
{
    serde_json::to_string(names).map_err(|e| format!("{}", e))
}

} // verus!
