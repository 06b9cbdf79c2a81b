//! The two uses of JSON: reading a list of extensions, and writing a path
//! as a JSON string literal.
use vstd::prelude::*;

verus! {

#[verifier::external_type_specification]
#[verifier::external_body]
pub struct ExJsonError(serde_json::Error);

/// What serde_json reads from the text `s`, as far as a list of extensions
/// needs it: `None` where `s` is not one JSON value, `Some(None)` for a value
/// other than an array, and `Some(Some(items))` for an array, where each item
/// is the contents of a JSON string, or `None` for any other kind of value.
pub uninterp spec fn json_string_items(s: Seq<char>) -> Option<Option<Seq<Option<Seq<char>>>>>;

/// The JSON string literal that serde_json writes for the text `s`: the text
/// in double quotes, with the characters that JSON demands escaped.
pub uninterp spec fn json_quoted(s: Seq<char>) -> Seq<char>;

/// Relies on `serde_json::from_str::<Value>`: it parses `s` as one JSON
/// value or fails. The value is converted variant by variant: an array is
/// handed out item by item, a string item as its text.
#[verifier::external_body]
pub(crate) fn parse_string_items(s: &str) -> (r: Result<
    Option<Vec<Option<String>>>,
    serde_json::Error,
>)
    ensures
        r is Err <==> json_string_items(s@) is None,
        r matches Ok(v) ==> json_string_items(s@) == Some(v.deep_view()),
{
    match serde_json::from_str::<serde_json::Value>(s) {
        Ok(serde_json::Value::Array(items)) => Ok(
            Some(
                items.into_iter().map(
                    |v| match v {
                        serde_json::Value::String(t) => Some(t),
                        _ => None,
                    },
                ).collect(),
            ),
        ),
        Ok(_) => Ok(None),
        Err(e) => Err(e),
    }
}

/// Relies on the `Display` of `serde_json::Value`: a string value is written
/// as one JSON string literal.
#[verifier::external_body]
pub(crate) fn quote_json(s: &str) -> (r: String)
    ensures
        r@ == json_quoted(s@),
{
    serde_json::Value::String(s.to_string()).to_string()
}

} // verus!
