//! The JSON values that travel through the bridge, and the two calls into
//! serde_json that the bridge makes on them.
use vstd::prelude::*;

verus! {

#[verifier::external_type_specification]
#[verifier::external_body]
pub struct ExValue(serde_json::Value);

#[verifier::external_type_specification]
#[verifier::external_body]
pub struct ExError(serde_json::Error);

/// What serde_json makes of a byte string: the value it denotes, or `None`
/// where serde_json does not accept the bytes (they are not one JSON
/// document, or they nest deeper than serde_json allows).
pub uninterp spec fn json_parse(b: Seq<u8>) -> Option<serde_json::Value>;

/// The text that serde_json writes for a value.
pub uninterp spec fn json_text(v: serde_json::Value) -> Seq<u8>;

/// The indented text that serde_json writes for a value.
pub uninterp spec fn json_pretty(v: serde_json::Value) -> Seq<char>;

/// Relies on `serde_json::from_slice::<Value>`: whether it succeeds, and
/// with what value, depends on the bytes alone.
#[verifier::external_body]
pub(crate) fn parse_json(b: &[u8]) -> (r: Result<serde_json::Value, serde_json::Error>)
    ensures
        json_parse(b@) is Some <==> r is Ok,
        r matches Ok(v) ==> json_parse(b@) == Some(v),
{
    serde_json::from_slice::<serde_json::Value>(b)
}

/// Relies on `Display for serde_json::Value`: the compact JSON text of a
/// value, which depends on the value alone.
#[verifier::external_body]
pub(crate) fn write_json(v: &serde_json::Value) -> (r: Vec<u8>)
    ensures
        r@ == json_text(*v),
{
    v.to_string().into_bytes()
}

/// Relies on `serde_json::to_string_pretty`: serializing a `Value` into a
/// string has no failing path (every map key is a string, and a non-finite
/// number is written as null), and the indented text depends on the value
/// alone.
#[verifier::external_body]
pub(crate) fn write_json_pretty(v: &serde_json::Value) -> (r: Result<String, serde_json::Error>)
    ensures
        r is Ok,
        r matches Ok(s) ==> s@ == json_pretty(*v),
{
    serde_json::to_string_pretty(v)
}

/// Relies on `Display for serde_json::Error`: a message that names the
/// fault and where in the input it stands.
#[verifier::external_body]
pub(crate) fn describe_json_error(e: &serde_json::Error) -> (r: String)
{
    e.to_string()
}

} // verus!
