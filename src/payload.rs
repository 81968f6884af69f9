//! Payloads as they arrive: raw text from the transport, parsed into a
//! structured value before it is turned into a typed event.
use vstd::prelude::*;

verus! {

#[verifier::external_type_specification]
#[verifier::external_body]
pub struct ExValue(serde_json::Value);

#[verifier::external_type_specification]
#[verifier::external_body]
pub struct ExJsonError(serde_json::Error);

/// Whether the text holds exactly one JSON value, as serde_json reads it.
pub uninterp spec fn json_parses(raw: Seq<char>) -> bool;

/// Relies on `serde_json::from_str::<serde_json::Value>`: it succeeds exactly on
/// the texts that hold one JSON value, and its outcome depends on the text alone.
#[verifier::external_body]
fn parse_json(raw: &str) -> (r: Result<serde_json::Value, serde_json::Error>)
    ensures
        r is Ok <==> json_parses(raw@),
{
    serde_json::from_str(raw)
}

/// Why a delivered payload could not be read.
#[derive(Debug, Clone, Copy, PartialEq, Eq)]
pub enum PayloadError {
    /// The raw payload is not JSON.
    Malformed,
}

/// An event as a listener receives it: the delivery's identifier and the payload.
pub struct TypedEvent<T> {
    pub id: u32,
    pub payload: T,
}

/// The structured payload that a parse of the raw text gave: the value itself,
/// or `Malformed` when the text could not be parsed.
pub fn payload_from_parse(parsed: Result<serde_json::Value, serde_json::Error>) -> (r: Result<
    serde_json::Value,
    PayloadError,
>)
    ensures
        parsed matches Ok(v) ==> r == Ok::<serde_json::Value, PayloadError>(v),
        parsed is Err ==> r == Err::<serde_json::Value, PayloadError>(PayloadError::Malformed),
{
    match parsed {
        Ok(v) => Ok(v),
        Err(_) => Err(PayloadError::Malformed),
    }
}

/// Parses a raw delivered payload into a structured value; a payload that is
/// not JSON is reported, not replaced by a null value.
pub fn structured_payload(raw: &str) -> (r: Result<serde_json::Value, PayloadError>)
    ensures
        r is Ok <==> json_parses(raw@),
        r matches Err(e) ==> e == PayloadError::Malformed,
{
    payload_from_parse(parse_json(raw))
}

} // verus!
