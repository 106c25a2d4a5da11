//! The JSON document type of `serde_json`, and the few of its operations the
//! classifier and the feature listing rely on.
use vstd::prelude::*;

verus! {

#[verifier::external_type_specification]
#[verifier::external_body]
pub struct ExJsonValue(serde_json::Value);

/// The member `key` of a JSON object; `None` where `v` is no object or lacks it.
pub uninterp spec fn json_member(v: serde_json::Value, key: Seq<char>) -> Option<serde_json::Value>;

/// The characters of a JSON string; `None` where `v` is not a string.
pub uninterp spec fn json_str(v: serde_json::Value) -> Option<Seq<char>>;

/// Whether `v` is the JSON `null`.
pub uninterp spec fn json_is_null(v: serde_json::Value) -> bool;

/// The compact textual form that `serde_json` writes for `v`.
pub uninterp spec fn json_text(v: serde_json::Value) -> Seq<char>;

/// The document that `serde_json` reads from `s`; `None` where `s` is not JSON.
pub uninterp spec fn json_parse(s: Seq<char>) -> Option<serde_json::Value>;

/// Relies on `serde_json::Value::get` with a string index: it looks up an object
/// member and depends on the document and the key alone.
#[verifier::external_body]
pub(crate) fn member(v: &serde_json::Value, key: &str) -> (r: Option<serde_json::Value>)
    ensures
        r == json_member(*v, key@),
{
    v.get(key).cloned()
}

/// Relies on `serde_json::Value::as_str`: the string's characters, or `None`
/// for any other kind of value.
pub assume_specification[ serde_json::Value::as_str ](v: &serde_json::Value) -> (r: Option<&str>)
    ensures
        r.is_some() == json_str(*v).is_some(),
        r.is_some() ==> r.unwrap()@ == json_str(*v).unwrap(),
;

/// Relies on `serde_json::Value::is_null`.
pub assume_specification[ serde_json::Value::is_null ](v: &serde_json::Value) -> (r: bool)
    ensures
        r == json_is_null(*v),
;

/// Relies on the `Display` impl of `serde_json::Value` (through `to_string`):
/// the compact JSON text of the document, a function of the document alone.
#[verifier::external_body]
pub(crate) fn to_text(v: &serde_json::Value) -> (r: String)
    ensures
        r@ == json_text(*v),
{
    v.to_string()
}

/// Relies on `serde_json::from_str` for `serde_json::Value`: the parsed
/// document, or `None` where the text is not well-formed JSON.
#[verifier::external_body]
pub(crate) fn parse(s: &str) -> (r: Option<serde_json::Value>)
    ensures
        r == json_parse(s@),
{
    serde_json::from_str::<serde_json::Value>(s).ok()
}

} // verus!
