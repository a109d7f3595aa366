//! Field extraction from the small JSON request payloads.
//!
//! The control surface accepts two payload shapes: `{"status": <string>}`
//! and `{"first_name": <string>, "age": <unsigned>, "birthplace": <string>}`.
//! Decoding JSON text is an external collaborator's job; each wrapper below
//! hands the bytes to serde_json and returns the extracted fields.  What a
//! parse yields on given bytes is a pure function of those bytes alone, so
//! each result carries a name that the handlers' contracts are stated over.

use vstd::prelude::*;

verus! {

/// The `status` field that the status payload parser extracts from these
/// bytes: `None` when the bytes are not a JSON object with a string-valued
/// `status` member.
pub uninterp spec fn status_field_of(b: Seq<u8>) -> Option<Seq<char>>;

/// The `(first_name, age, birthplace)` fields that the greeting payload
/// parser extracts from these bytes: `None` when any of the three is
/// missing, of the wrong shape, or the age exceeds the 32-bit range.
pub uninterp spec fn form_fields_of(b: Seq<u8>) -> Option<(Seq<char>, u32, Seq<char>)>;

/// Relies on serde_json::from_slice, Value::get and Value::as_str: the
/// parse is deterministic, a function of the bytes alone.
#[verifier::external_body]
pub(crate) fn parse_status_field(body: &[u8]) -> (r: Option<String>)
    ensures
        (r is None) == (status_field_of(body@) is None),
        r matches Some(s) ==> status_field_of(body@) == Some(s@),
{
    let value: serde_json::Value = serde_json::from_slice(body).ok()?;
    Some(value.get("status")?.as_str()?.to_string())
}

/// Relies on serde_json::from_slice, Value::get, Value::as_str and
/// Value::as_u64: the parse is deterministic, a function of the bytes
/// alone.
#[verifier::external_body]
pub(crate) fn parse_form_fields(body: &[u8]) -> (r: Option<(String, u32, String)>)
    ensures
        (r is None) == (form_fields_of(body@) is None),
        r matches Some(f) ==> form_fields_of(body@) == Some((f.0@, f.1, f.2@)),
{
    let value: serde_json::Value = serde_json::from_slice(body).ok()?;
    let name = value.get("first_name")?.as_str()?.to_string();
    let age: u32 = u32::try_from(value.get("age")?.as_u64()?).ok()?;
    let place = value.get("birthplace")?.as_str()?.to_string();
    Some((name, age, place))
}

} // verus!
