//! Reading a string field of a JSON document with `serde_json`.
use vstd::prelude::*;

verus! {

/// What `serde_json` finds under `key` in a JSON text: the string value of
/// that field (`None` when the field is missing or not a string), or the
/// `Display` text of the parse error.
pub uninterp spec fn spec_json_string_field(content: Seq<char>, key: Seq<char>) -> Result<
    Option<Seq<char>>,
    Seq<char>,
>;

/// The view of an optional string.
pub open spec fn opt_view(s: Option<String>) -> Option<Seq<char>> {
    match s {
        Some(x) => Some(x@),
        None => None,
    }
}

/// `serde_json::from_str::<Value>(content)`, then `get(key)` and `as_str`.
#[verifier::external_body]
pub(crate) fn json_string_field(content: &str, key: &str) -> (r: Result<Option<String>, String>)
    ensures
        match r {
            Ok(s) => spec_json_string_field(content@, key@) == Ok::<Option<Seq<char>>, Seq<char>>(
                opt_view(s),
            ),
            Err(e) => spec_json_string_field(content@, key@) == Err::<Option<Seq<char>>, Seq<char>>(
                e@,
            ),
        },
{
    match serde_json::from_str::<serde_json::Value>(content) {
        Ok(v) => Ok(v.get(key).and_then(serde_json::Value::as_str).map(String::from)),
        Err(e) => Err(e.to_string()),
    }
}

} // verus!
