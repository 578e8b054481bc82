//! The codec: bidirectional conversion between a payload value and its
//! external representations. Ingestion (`leaven`) accepts text, an
//! already-parsed structured value, a byte buffer, or the outcome of reading a
//! file; emission (`deflate`) produces text, a structured value, or a byte
//! buffer. The payload is a generic structured value tree; mapping it onto a
//! concrete entity shape is the caller's data-only concern.
//!
//! The codec holds no state. No function here takes anything mutably or
//! reaches shared state, so ingestion and emission — failed or not — can
//! never touch the request budget or anything else outside their arguments.

use vstd::prelude::*;

use crate::error::DecodeError;
use crate::error::EncodeError;

verus! {

/// Declares `serde_json::Value`, the generic structured value tree, so that
/// it can stand in signatures and fields. The codec carries it through as an
/// opaque payload and never looks inside.
#[verifier::external_type_specification]
#[verifier::external_body]
pub struct ExValue(serde_json::Value);

/// What `serde_json::from_str` yields on this text when parsing into a
/// `serde_json::Value`: the parsed value tree, or nothing when the text is
/// malformed. The result is a function of the text alone.
pub uninterp spec fn json_value_of_text(text: Seq<char>) -> Option<serde_json::Value>;

/// What `serde_json::from_slice` yields on these bytes when parsing into a
/// `serde_json::Value`: the parsed value tree, or nothing when the bytes are
/// malformed. The result is a function of the bytes alone.
pub uninterp spec fn json_value_of_bytes(bytes: Seq<u8>) -> Option<serde_json::Value>;

/// What `serde_json::to_string` yields on this value: its canonical text
/// serialization. The result is a function of the value alone (objects keep
/// their sorted keys; floats take their shortest round-tripping form).
pub uninterp spec fn json_text_of(v: serde_json::Value) -> Seq<char>;

/// What `serde_json::to_vec` yields on this value: the UTF-8 bytes of the
/// canonical text serialization. The result is a function of the value alone.
pub uninterp spec fn json_bytes_of(v: serde_json::Value) -> Seq<u8>;

/// Relies on `serde_json::Value`'s derived `Clone`: a structural copy equal
/// to the original.
pub assume_specification[ <serde_json::Value as Clone>::clone ](
    v: &serde_json::Value,
) -> (r: serde_json::Value)
    ensures
        r == *v,
;

/// Relies on `serde_json::from_str`: the parse outcome depends on the text
/// alone.
#[verifier::external_body]
fn parse_text(text: &str) -> (r: Option<serde_json::Value>)
    ensures
        r == json_value_of_text(text@),
{
    serde_json::from_str(text).ok()
}

/// Relies on `serde_json::from_slice`: the parse outcome depends on the bytes
/// alone.
#[verifier::external_body]
fn parse_bytes(bytes: &[u8]) -> (r: Option<serde_json::Value>)
    ensures
        r == json_value_of_bytes(bytes@),
{
    serde_json::from_slice(bytes).ok()
}

/// Relies on `serde_json::to_string` on a `Value`: it cannot fail (objects
/// are string-keyed and the writer is a `Vec`), its text depends on the value
/// alone, and when that text parses back at all it parses back to the value
/// it came from (the parser refuses only documents nested past its recursion
/// limit).
#[verifier::external_body]
fn emit_text(v: &serde_json::Value) -> (r: Option<String>)
    ensures
        r is Some,
        r matches Some(t) ==> t@ == json_text_of(*v),
        r matches Some(t) ==> (json_value_of_text(t@) matches Some(w) ==> w == *v),
{
    serde_json::to_string(v).ok()
}

/// Relies on `serde_json::to_vec` on a `Value`: the byte form of the same
/// text `serde_json::to_string` yields, with the same guarantees (never
/// failing, a function of the value alone, parsing back only to it).
#[verifier::external_body]
fn emit_bytes(v: &serde_json::Value) -> (r: Option<Vec<u8>>)
    ensures
        r is Some,
        r matches Some(b) ==> b@ == json_bytes_of(*v),
        r matches Some(b) ==> (json_value_of_bytes(b@) matches Some(w) ==> w == *v),
{
    serde_json::to_vec(v).ok()
}

/// The outcome of ingesting text: the parsed payload, or `Malformed` when the
/// text does not parse.
pub open spec fn leaven_text_spec(text: Seq<char>) -> Result<serde_json::Value, DecodeError> {
    match json_value_of_text(text) {
        Some(v) => Ok(v),
        None => Err(DecodeError::Malformed),
    }
}

/// The outcome of ingesting bytes: the parsed payload, or `Malformed` when
/// the bytes do not parse.
pub open spec fn leaven_bytes_spec(bytes: Seq<u8>) -> Result<serde_json::Value, DecodeError> {
    match json_value_of_bytes(bytes) {
        Some(v) => Ok(v),
        None => Err(DecodeError::Malformed),
    }
}

/// An external representation a payload can be ingested from: text, an
/// already-parsed structured value, or a byte buffer. A file is ingested
/// through [`FileRead`], which carries what reading it produced.
pub enum Leavenable {
    Text(String),
    JsonValue(serde_json::Value),
    ByteArray(Vec<u8>),
}

/// What reading a named file produced: its full content as text, or nothing
/// because the file was missing or unreadable. The I/O layer that opens the
/// file fills this in; the codec only judges the outcome.
pub enum FileRead {
    Content(String),
    Unreadable,
}

/// The representation `deflate` is asked for.
pub enum Deflation {
    ToString,
    ToJsonValue,
    ToByteArray,
}

/// An emitted external representation of a payload.
#[derive(Debug)]
pub enum Deflated {
    String(String),
    JsonValue(serde_json::Value),
    ByteArray(Vec<u8>),
}

impl Deflated {
    /// The text form, only if this representation is text.
    pub fn to_string(self) -> (r: Option<String>)
        ensures
            match self {
                Deflated::String(s) => r == Some(s),
                _ => r is None,
            },
    {
        if let Deflated::String(s) = self {
            Some(s)
        } else {
            None
        }
    }

    /// The structured value, only if this representation is a structured
    /// value.
    pub fn to_json(self) -> (r: Option<serde_json::Value>)
        ensures
            match self {
                Deflated::JsonValue(v) => r == Some(v),
                _ => r is None,
            },
    {
        if let Deflated::JsonValue(v) = self {
            Some(v)
        } else {
            None
        }
    }

    /// The byte form, only if this representation is a byte buffer.
    pub fn to_bytes(self) -> (r: Option<Vec<u8>>)
        ensures
            match self {
                Deflated::ByteArray(b) => r == Some(b),
                _ => r is None,
            },
    {
        if let Deflated::ByteArray(b) = self {
            Some(b)
        } else {
            None
        }
    }
}

/// Ingestion: produce the payload from an external representation. Text and
/// bytes are parsed; a malformed document is rejected whole as `Malformed`. A
/// structured value is already the payload and converts losslessly.
pub fn leaven(input: Leavenable) -> (r: Result<serde_json::Value, DecodeError>)
    ensures
        match input {
            Leavenable::Text(s) => r == leaven_text_spec(s@),
            Leavenable::JsonValue(v) => r == Ok::<serde_json::Value, DecodeError>(v),
            Leavenable::ByteArray(b) => r == leaven_bytes_spec(b@),
        },
{
    match input {
        Leavenable::Text(s) => match parse_text(s.as_str()) {
            Some(v) => Ok(v),
            None => Err(DecodeError::Malformed),
        },
        Leavenable::JsonValue(v) => Ok(v),
        Leavenable::ByteArray(b) => match parse_bytes(b.as_slice()) {
            Some(v) => Ok(v),
            None => Err(DecodeError::Malformed),
        },
    }
}

/// Ingestion from a file: the file's content, if it could be read, is
/// ingested as text; a file that could not be read is reported as
/// `Unreadable`, which a caller can tell apart from a parse failure.
pub fn leaven_file(read: FileRead) -> (r: Result<serde_json::Value, DecodeError>)
    ensures
        match read {
            FileRead::Content(s) => r == leaven_text_spec(s@),
            FileRead::Unreadable => r == Err::<serde_json::Value, DecodeError>(
                DecodeError::Unreadable,
            ),
        },
{
    match read {
        FileRead::Content(s) => leaven(Leavenable::Text(s)),
        FileRead::Unreadable => Err(DecodeError::Unreadable),
    }
}

/// Emission: produce the requested external representation of the payload.
/// The result always matches the requested kind; the text and byte forms are
/// exactly the payload's canonical serialization, which parses back only to
/// the payload it came from.
pub fn deflate(v: &serde_json::Value, format: Deflation) -> (r: Result<Deflated, EncodeError>)
    ensures
        match format {
            Deflation::ToString => r matches Ok(Deflated::String(t)) && t@ == json_text_of(*v) && (
            json_value_of_text(t@) matches Some(w) ==> w == *v),
            Deflation::ToJsonValue => r matches Ok(Deflated::JsonValue(w)) && w == *v,
            Deflation::ToByteArray => r matches Ok(Deflated::ByteArray(b)) && b@ == json_bytes_of(
                *v,
            ) && (json_value_of_bytes(b@) matches Some(w) ==> w == *v),
        },
{
    match format {
        Deflation::ToString => match emit_text(v) {
            Some(t) => Ok(Deflated::String(t)),
            None => Err(EncodeError::Unserializable),
        },
        Deflation::ToJsonValue => Ok(Deflated::JsonValue(v.clone())),
        Deflation::ToByteArray => match emit_bytes(v) {
            Some(b) => Ok(Deflated::ByteArray(b)),
            None => Err(EncodeError::Unserializable),
        },
    }
}

/// Law: a payload emitted as text and ingested from that text again is the
/// payload itself. The outcome is exactly what ingesting the payload's
/// canonical text gives: the payload back whenever that text parses (it is
/// refused only past the parser's recursion limit), and never a different
/// payload.
pub fn text_round_trip(v: &serde_json::Value) -> (r: Result<serde_json::Value, DecodeError>)
    ensures
        r == leaven_text_spec(json_text_of(*v)),
        r matches Ok(w) ==> w == *v,
        r matches Err(e) ==> e == DecodeError::Malformed,
{
    match deflate(v, Deflation::ToString) {
        Ok(d) => match d.to_string() {
            Some(t) => leaven(Leavenable::Text(t)),
            None => Err(DecodeError::Malformed),
        },
        Err(_) => Err(DecodeError::Malformed),
    }
}

/// Law: a payload emitted as bytes and ingested from those bytes again is the
/// payload itself. The outcome is exactly what ingesting the payload's
/// canonical bytes gives: the payload back whenever those bytes parse (they
/// are refused only past the parser's recursion limit), and never a
/// different payload.
pub fn bytes_round_trip(v: &serde_json::Value) -> (r: Result<serde_json::Value, DecodeError>)
    ensures
        r == leaven_bytes_spec(json_bytes_of(*v)),
        r matches Ok(w) ==> w == *v,
        r matches Err(e) ==> e == DecodeError::Malformed,
{
    match deflate(v, Deflation::ToByteArray) {
        Ok(d) => match d.to_bytes() {
            Some(b) => leaven(Leavenable::ByteArray(b)),
            None => Err(DecodeError::Malformed),
        },
        Err(_) => Err(DecodeError::Malformed),
    }
}

} // verus!
