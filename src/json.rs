//! The JSON text parser, serde_json, as the library sees it.
use vstd::prelude::*;

verus! {

#[verifier::external_type_specification]
#[verifier::external_body]
pub struct ExJsonValue(serde_json::Value);

#[verifier::external_type_specification]
#[verifier::external_body]
pub struct ExJsonError(serde_json::Error);

/// Whether serde_json reads `text` as one syntactically valid JSON document.
pub uninterp spec fn json_parses(text: Seq<char>) -> bool;

/// Relies on `serde_json::from_str::<serde_json::Value>`: it succeeds exactly
/// when the text is one valid JSON document, which depends on the text alone.
#[verifier::external_body]
pub(crate) fn parse_json(text: &str) -> (r: Result<serde_json::Value, serde_json::Error>)
    ensures
        r is Ok <==> json_parses(text@),
{
    serde_json::from_str(text)
}

/// The length of the array that the field `key` holds in the JSON object
/// that `text` parses to; `None` where the text is not valid JSON, is not an
/// object, or holds no array under `key`.
pub uninterp spec fn array_field_len(text: Seq<char>, key: Seq<char>) -> Option<nat>;

/// Relies on `serde_json::from_str::<serde_json::Value>` and the lookup
/// `Value::get(key)` followed by `Value::as_array`: the length of the array
/// under `key`, which depends on the two texts alone.
#[verifier::external_body]
pub(crate) fn array_field_len_of(text: &str, key: &str) -> (r: Option<usize>)
    ensures
        match r {
            Some(n) => array_field_len(text@, key@) == Some(n as nat),
            None => array_field_len(text@, key@) is None,
        },
{
    let value: serde_json::Value = serde_json::from_str(text).ok()?;
    value.get(key)?.as_array().map(|items| items.len())
}

} // verus!
