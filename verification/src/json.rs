use vstd::prelude::*;

verus! {

/// JSON values (`serde_json::Value`) are carried through the library as they
/// are: tool inputs, schemas and response details.
#[verifier::external_type_specification]
#[verifier::external_body]
pub struct ExJsonValue(serde_json::Value);

/// The value that `serde_json::from_str::<Value>` reads from a text, or `None`
/// where the text is not JSON.
pub uninterp spec fn parse_json(text: Seq<char>) -> Option<serde_json::Value>;

/// Calls `serde_json::from_str::<serde_json::Value>`. Trusted: the result is
/// `parse_json` of the text, with the parse error dropped.
#[verifier::external_body]
pub(crate) fn json_from_str(text: &str) -> (r: Option<serde_json::Value>)
    ensures
        r == parse_json(text@),
{
    serde_json::from_str::<serde_json::Value>(text).ok()
}

/// The text that `{:?}` gives for a JSON value: the `Debug` of
/// `serde_json::Value`.
pub uninterp spec fn json_debug(v: serde_json::Value) -> Seq<char>;

/// Formats a JSON value with `{:?}`. Trusted: the result is `json_debug` of
/// the value.
#[verifier::external_body]
pub(crate) fn debug_json(v: &serde_json::Value) -> (r: String)
    ensures
        r@ == json_debug(*v),
{
    format!("{:?}", v)
}

/// Calls `Clone::clone` on a `serde_json::Value`. Trusted: the clone is the
/// same value, as `#[derive(Clone)]` on `Value` makes it.
#[verifier::external_body]
pub(crate) fn clone_json(v: &serde_json::Value) -> (r: serde_json::Value)
    ensures
        r == *v,
{
    v.clone()
}

/// Clones an optional JSON value.
pub(crate) fn clone_json_option(v: &Option<serde_json::Value>) -> (r: Option<serde_json::Value>)
    ensures
        r == *v,
{
    match v {
        Some(x) => Some(clone_json(x)),
        None => None,
    }
}

} // verus!
