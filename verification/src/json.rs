//! JSON values as the gateway handles them: carried through unopened, written
//! out as text for a span, read from the bytes a store answered with.
//!
//! Everything in this file is taken on trust from `serde_json`; the rest of
//! the crate is proved against the contracts stated here.

use serde_json::Error;
use serde_json::Value;
use vstd::prelude::*;

verus! {

/// `serde_json::Value`, a JSON document held in memory. The gateway never
/// looks inside one.
#[verifier::external_type_specification]
#[verifier::external_body]
pub struct ExValue(serde_json::Value);

/// `serde_json::Error`, the reason a document could not be written or read.
#[verifier::external_type_specification]
#[verifier::external_body]
pub struct ExError(serde_json::Error);

/// The compact JSON text of a value, or `None` for a value that cannot be
/// written out.
pub uninterp spec fn json_text(value: Value) -> Option<Seq<char>>;

/// The value that a run of bytes spells as JSON, or `None` where the bytes
/// are not one JSON document.
pub uninterp spec fn json_value(bytes: Seq<u8>) -> Option<Value>;

/// Writes a value out as compact JSON text with `serde_json::to_string`.
///
/// Trusted: the outcome is fixed by the value alone. Nothing is claimed
/// about which values can be written, nor about the error of one that
/// cannot.
#[verifier::external_body]
pub(crate) fn write_json(value: &Value) -> (written: Result<String, Error>)
    ensures
        written is Ok <==> json_text(*value) is Some,
        written matches Ok(text) ==> json_text(*value) == Some(text@),
{
    serde_json::to_string(value)
}

/// Reads one JSON document from bytes with `serde_json::from_slice`.
///
/// Trusted: the outcome is fixed by the bytes alone. Nothing is claimed
/// about which bytes are a document, nor about the error for those that
/// are not.
#[verifier::external_body]
pub(crate) fn read_json(bytes: &[u8]) -> (read: Result<Value, Error>)
    ensures
        read is Ok <==> json_value(bytes@) is Some,
        read matches Ok(value) ==> json_value(bytes@) == Some(value),
{
    serde_json::from_slice::<Value>(bytes)
}

} // verus!
