//! The structured values that pass through the library untouched, and the one
//! JSON encoding the library asks of serde_json.

use vstd::prelude::*;

verus! {

/// `serde_json::Value` is carried as an opaque structured value.
#[verifier::external_type_specification]
#[verifier::external_body]
pub struct ExValue(serde_json::Value);

/// Relies on the derived `Clone` of `serde_json::Value`: the copy is the same value.
pub assume_specification[ <serde_json::Value as Clone>::clone ](v: &serde_json::Value) -> (r:
    serde_json::Value)
    ensures
        r == *v,
;

/// The JSON text of a string: the characters quoted and escaped.
pub uninterp spec fn json_string(s: Seq<char>) -> Seq<char>;

/// Relies on `serde_json::to_string` on a `str`: when it succeeds, the result is the
/// JSON string literal for the text, which depends on the text alone.
#[verifier::external_body]
pub(crate) fn encode_json_string(s: &str) -> (r: Option<String>)
    ensures
        r matches Some(t) ==> t@ == json_string(s@),
{
    serde_json::to_string(s).ok()
}

} // verus!
