//! The boundary to `serde_json`. What the parser and the printer make of a
//! text is named here and believed, not proved.

use vstd::prelude::*;

verus! {

/// A parsed JSON value. Nothing of its inside is known here: it is carried
/// from one of the functions below to the next.
#[verifier::external_type_specification]
#[verifier::external_body]
pub struct ExValue(serde_json::Value);

/// Why `serde_json` refused a text.
#[verifier::external_type_specification]
#[verifier::external_body]
pub struct ExError(serde_json::Error);

/// The compact JSON text of a value, as `serde_json` prints it.
pub uninterp spec fn json_text(value: serde_json::Value) -> Seq<char>;

/// The compact JSON text of the value that `serde_json::from_slice` reads
/// from `bytes`; `None` where it refuses them.
pub uninterp spec fn json_canonical(bytes: Seq<u8>) -> Option<Seq<char>>;

/// The elements that `serde_json::Value::as_array` finds in the value of the
/// compact text `text`, each as its compact text and in the array's order;
/// `None` where the value is no array.
pub uninterp spec fn json_items(text: Seq<char>) -> Option<Seq<Seq<char>>>;

/// The compact texts of a run of values.
pub open spec fn value_texts(values: Seq<serde_json::Value>) -> Seq<Seq<char>> {
    values.map_values(|value: serde_json::Value| json_text(value))
}

/// Calls `serde_json::from_slice` for a `serde_json::Value`. Believed: the
/// outcome depends on the bytes alone, so the text of a value that was read
/// is the named `json_canonical(bytes)`, and a refusal is its `None`.
#[verifier::external_body]
pub(crate) fn parse_value(bytes: &[u8]) -> (r: Result<serde_json::Value, serde_json::Error>)
    ensures
        match r {
            Ok(value) => json_canonical(bytes@) == Some(json_text(value)),
            Err(_) => json_canonical(bytes@) is None,
        },
{
    serde_json::from_slice(bytes)
}

/// Calls `to_string` on a `serde_json::Value`, whose `Display` prints the
/// compact text. Believed: the text depends on the value alone, so it is the
/// named `json_text(value)`.
#[verifier::external_body]
pub(crate) fn value_text(value: &serde_json::Value) -> (r: String)
    ensures
        r@ == json_text(*value),
{
    value.to_string()
}

/// Calls `serde_json::Value::as_array`. Believed: whether the value is an
/// array, and the texts of its elements, depend on the value's text alone,
/// so they are the named `json_items` of that text.
#[verifier::external_body]
pub(crate) fn value_items(value: &serde_json::Value) -> (r: Option<&Vec<serde_json::Value>>)
    ensures
        match r {
            Some(items) => json_items(json_text(*value)) == Some(value_texts(items@)),
            None => json_items(json_text(*value)) is None,
        },
{
    value.as_array()
}

} // verus!
