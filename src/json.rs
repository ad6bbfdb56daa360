//! The few operations on JSON documents that the stream session needs,
//! carried out by serde_json.
use vstd::prelude::*;

verus! {

#[verifier::external_type_specification]
#[verifier::external_body]
pub struct ExValue(serde_json::Value);

#[verifier::external_type_specification]
#[verifier::external_body]
pub struct ExJsonError(serde_json::Error);

/// Whether a text is one JSON document.
pub uninterp spec fn json_accepts(text: Seq<char>) -> bool;

/// Relies on serde_json::from_str into a `Value`: whether it succeeds
/// depends on the text alone.
#[verifier::external_body]
pub(crate) fn parse_json(text: &str) -> (r: Result<serde_json::Value, serde_json::Error>)
    ensures
        r is Ok == json_accepts(text@),
{
    serde_json::from_str(text)
}

/// The compact JSON text of the member under `key` of the object that
/// `doc` holds; `None` where `doc` is no JSON document, holds no object, or
/// the object has no such key.
pub uninterp spec fn json_member_text(doc: Seq<char>, key: Seq<char>) -> Option<Seq<char>>;

/// Relies on serde_json::from_str into a `Value`, serde_json::Value::get
/// and serde_json's `Display` for `Value`: the member's compact text
/// depends on the document's text and the key alone.
#[verifier::external_body]
pub(crate) fn member_text(doc: &str, key: &str) -> (r: Option<String>)
    ensures
        match r {
            Some(t) => json_member_text(doc@, key@) == Some(t@),
            None => json_member_text(doc@, key@) is None,
        },
{
    serde_json::from_str::<serde_json::Value>(doc).ok().and_then(|v| v.get(key).map(|m| m.to_string()))
}

} // verus!
