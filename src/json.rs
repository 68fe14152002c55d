use vstd::prelude::*;

verus! {

#[verifier::external_type_specification]
#[verifier::external_body]
pub struct ExJsonError(serde_json::Error);

/// Whether serde_json reads a text as exactly one JSON value.
pub uninterp spec fn json_accepts(s: Seq<char>) -> bool;

/// Relies on `serde_json::from_str::<serde_json::Value>`: it succeeds or fails
/// on the text alone; the parsed value itself is not kept.
#[verifier::external_body]
pub(crate) fn parse_json(content: &str) -> (r: Result<(), serde_json::Error>)
    ensures
        r.is_ok() == json_accepts(content@),
{
    serde_json::from_str::<serde_json::Value>(content).map(|_value| ())
}

/// Relies on the `Display` of `serde_json::Error`: the parser's message.
#[verifier::external_body]
pub(crate) fn json_error_message(e: &serde_json::Error) -> (r: String) {
    e.to_string()
}

} // verus!
