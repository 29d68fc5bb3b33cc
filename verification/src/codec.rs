//! The JSON codec the typed helpers store values through.
//!
//! Values live under plain keys as JSON text. Encoding and decoding are done
//! by `serde_json`; what a given text decodes to is named by [`json_decoded`],
//! and every contract about stored values speaks through that name.

use vstd::prelude::*;

verus! {

#[verifier::external_type_specification]
#[verifier::external_body]
pub struct ExJsonError(serde_json::Error);

#[verifier::external_type_specification]
#[verifier::external_body]
pub struct ExJsonValue(serde_json::Value);

/// The value a JSON text decodes to, or nothing if the text is not valid
/// JSON. Names the result of serde_json::from_str for serde_json::Value,
/// which depends on the characters of the text alone.
pub uninterp spec fn json_decoded(text: Seq<char>) -> Option<serde_json::Value>;

/// Relies on serde_json::from_str for serde_json::Value: the parse succeeds
/// exactly when the text is valid JSON, and its result is a function of the
/// characters alone.
#[verifier::external_body]
pub(crate) fn decode_value(text: &str) -> (r: Result<serde_json::Value, serde_json::Error>)
    ensures
        r is Ok <==> json_decoded(text@) is Some,
        r matches Ok(v) ==> json_decoded(text@) == Some(v),
{
    serde_json::from_str(text)
}

/// The JSON text a value encodes to. Names the result of
/// serde_json::to_string for serde_json::Value, which depends on the value
/// alone.
pub uninterp spec fn json_encoded(value: serde_json::Value) -> Seq<char>;

/// Relies on serde_json::to_string for serde_json::Value: encoding a JSON
/// value itself cannot fail (its maps have string keys, its numbers are
/// finite, and the output buffer is in memory), the text is a function of
/// the value alone, and parsing the produced text back yields an equal value
/// — this crate enables serde_json's float_roundtrip parsing, under which
/// serde_json round-trips every value of its own Value type exactly.
#[verifier::external_body]
pub(crate) fn encode_value(value: &serde_json::Value) -> (r: Result<
    String,
    serde_json::Error,
>)
    ensures
        r is Ok,
        r matches Ok(text) ==> text@ == json_encoded(*value),
        r matches Ok(text) ==> json_decoded(text@) == Some(*value),
{
    serde_json::to_string(value)
}

} // verus!
