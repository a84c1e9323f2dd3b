//! What this crate takes from `serde_json` and `serde_qs`, and from `std` for
//! UTF-8: how a body or a query is read as a structured value, and how such a
//! value is written as a body.
//!
//! Verus does not read those crates. A decoded value is a `serde_json::Value`,
//! opaque to Verus, and each call is given a contract here that names its
//! result. Nothing in this file is proved.
use crate::proto::body::keys_are_shallow;
use core::str::Utf8Error;
use serde_json::Error as JsonError;
use serde_json::Value;
use vstd::prelude::*;
use vstd::string::StringSliceAdditionalSpecFns;
use vstd::utf8::valid_utf8;

verus! {

/// `serde_json::Value`: a JSON value, or the map that a form or a query
/// stands for.
#[verifier::external_type_specification]
#[verifier::external_body]
pub struct ExValue(serde_json::Value);

/// `serde_json::Error`: why a JSON text could not be read or written.
#[verifier::external_type_specification]
#[verifier::external_body]
pub struct ExJsonError(JsonError);

/// `Utf8Error`: why bytes are no UTF-8 text.
#[verifier::external_type_specification]
#[verifier::external_body]
pub struct ExUtf8Error(Utf8Error);

/// What `serde_json::from_slice` makes of the JSON text `bytes`.
pub uninterp spec fn json_decoded(bytes: Seq<u8>) -> Result<Value, JsonError>;

/// What `serde_json::to_vec` writes for `value`.
pub uninterp spec fn json_encoded(value: Value) -> Result<Seq<u8>, JsonError>;

/// What `serde_qs::from_bytes` makes of the URL-encoded text `bytes`: the
/// map it reads, as a JSON object, or the text that its error displays as.
pub uninterp spec fn form_decoded(bytes: Seq<u8>) -> Result<Value, Seq<char>>;

/// The text of a refusal, where there is one.
pub open spec fn refusal_text(decoded: Result<Value, String>) -> Result<Value, Seq<char>> {
    match decoded {
        Ok(value) => Ok(value),
        Err(text) => Err(text@),
    }
}

/// What `core::str::from_utf8` says of bytes that are no UTF-8 text.
pub uninterp spec fn utf8_fault(bytes: Seq<u8>) -> Utf8Error;

/// The bytes of an encoding, where there is one.
pub open spec fn written(encoded: Result<Vec<u8>, JsonError>) -> Result<Seq<u8>, JsonError> {
    match encoded {
        Ok(bytes) => Ok(bytes@),
        Err(e) => Err(e),
    }
}

/// Trusted: `serde_json::from_slice`, reading a `Value`. The result depends
/// on the bytes alone.
#[verifier::external_body]
pub(crate) fn decode_json(bytes: &[u8]) -> (decoded: Result<Value, JsonError>)
    ensures
        decoded == json_decoded(bytes@),
{
    serde_json::from_slice::<Value>(bytes)
}

/// Trusted: `serde_json::to_vec`. The result depends on the value alone.
#[verifier::external_body]
pub(crate) fn encode_json(value: &Value) -> (encoded: Result<Vec<u8>, JsonError>)
    ensures
        written(encoded) == json_encoded(*value),
{
    serde_json::to_vec(value)
}

/// Trusted: `serde_qs::from_bytes`, reading a map from keys to values and
/// handing it out as a JSON object. The map, and the text that an error
/// displays as, depend on the bytes alone. The error itself does not (it may
/// carry a backtrace), so only its text is handed out. The parser follows a
/// key down one level for each of its opening brackets, by recursion and
/// without a bound that holds for every key, so the call is made only on
/// texts whose keys are bounded in that.
#[verifier::external_body]
pub(crate) fn decode_form(bytes: &[u8]) -> (decoded: Result<Value, String>)
    requires
        keys_are_shallow(bytes@),
    ensures
        refusal_text(decoded) == form_decoded(bytes@),
{
    serde_qs::from_bytes::<serde_json::Map<String, Value>>(bytes).map(Value::Object).map_err(
        |e| e.to_string(),
    )
}

/// Trusted: `core::str::from_utf8` accepts exactly the valid UTF-8 encodings,
/// and the text it gives is the one that the bytes encode.
#[verifier::external_body]
pub(crate) fn decode_utf8<'a>(bytes: &'a [u8]) -> (decoded: Result<&'a str, Utf8Error>)
    ensures
        decoded is Ok <==> valid_utf8(bytes@),
        decoded matches Ok(text) ==> text.spec_bytes() == bytes@,
        decoded matches Err(e) ==> e == utf8_fault(bytes@),
{
    core::str::from_utf8(bytes)
}

} // verus!
