//! The JSON values of the outside `serde_json` crate, as far as this library
//! carries or produces them.
use vstd::prelude::*;

verus! {

/// `serde_json::Value`, carried through unread: a light's state document, an
/// unrecognised reply, a command's response.
#[verifier::external_type_specification]
#[verifier::external_body]
pub struct ExValue(serde_json::Value);

/// `serde_json::Error`, carried in `TpLinkError::Json`.
#[verifier::external_type_specification]
#[verifier::external_body]
pub struct ExJsonError(serde_json::Error);

/// Whether `bytes` hold exactly one JSON document, as `serde_json` reads it.
pub uninterp spec fn is_json(bytes: Seq<u8>) -> bool;

/// Relies on `serde_json::from_slice::<Value>`: it parses one JSON document,
/// and fails exactly when `bytes` are not one.
#[verifier::external_body]
pub(crate) fn parse_json(bytes: &[u8]) -> (r: Result<serde_json::Value, serde_json::Error>)
    ensures
        r is Ok <==> is_json(bytes@),
{
    serde_json::from_slice::<serde_json::Value>(bytes)
}

} // verus!
