//! The trusted boundary to serde_json: recovery documents are arbitrary
//! JSON trees, held as `serde_json::Value` and serialized or parsed by the
//! outside crate. Each result that is a pure function of the input is given
//! a name, so the storage contracts can speak about it exactly.

use vstd::prelude::*;

verus! {

#[verifier::external_type_specification]
#[verifier::external_body]
pub struct ExJsonValue(serde_json::Value);

#[verifier::external_type_specification]
#[verifier::external_body]
pub struct ExJsonError(serde_json::Error);

/// The compact JSON text that `serde_json::to_string` renders a value as.
pub uninterp spec fn compact_json_text(v: serde_json::Value) -> Seq<char>;

/// The pretty-printed JSON text that `serde_json::to_string_pretty`
/// renders a value as.
pub uninterp spec fn pretty_json_text(v: serde_json::Value) -> Seq<char>;

/// What `serde_json::from_str` makes of a text: the parsed document, or
/// nothing when the text is not well-formed JSON.
pub uninterp spec fn parsed_json(s: Seq<char>) -> Option<serde_json::Value>;

/// Relies on serde_json::to_string: the compact rendering depends on the
/// value alone (object keys are kept sorted by the backing map), and
/// rendering a `Value` cannot fail — serialization errors only for maps
/// with non-string keys or a failing `Serialize` impl, and `Value` has
/// neither: its maps are keyed by `String` and its own `Serialize` never
/// errors into the infallible string writer.
#[verifier::external_body]
pub(crate) fn to_compact_json(value: &serde_json::Value) -> (r: String)
    ensures
        r@ == compact_json_text(*value),
{
    serde_json::to_string(value).expect("rendering a JSON value cannot fail")
}

/// Relies on serde_json::to_string_pretty: the pretty rendering depends on
/// the value alone, and rendering a `Value` cannot fail, for the same
/// reasons as the compact rendering.
#[verifier::external_body]
pub(crate) fn to_pretty_json(value: &serde_json::Value) -> (r: String)
    ensures
        r@ == pretty_json_text(*value),
{
    serde_json::to_string_pretty(value).expect("rendering a JSON value cannot fail")
}

/// Relies on serde_json::from_str: the outcome depends on the text alone,
/// and an error means the text is not a well-formed JSON document.
#[verifier::external_body]
pub(crate) fn parse_json(text: &str) -> (r: Result<serde_json::Value, serde_json::Error>)
    ensures
        r matches Ok(v) ==> parsed_json(text@) == Some(v),
        r is Err ==> parsed_json(text@) is None,
{
    serde_json::from_str(text)
}

/// Relies on the Display impl of serde_json::Error for the caller-facing
/// message of a serialization or parse failure.
#[verifier::external_body]
pub(crate) fn json_error_message(err: &serde_json::Error) -> String {
    err.to_string()
}

} // verus!
