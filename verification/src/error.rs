//! The error taxonomy of the library. Every fallible operation returns one of
//! these typed failures; no verified function of the library panics.

use vstd::prelude::*;

verus! {

/// Why an ingestion (decode) failed. The two variants are deliberately
/// distinct so that a caller can tell "could not read" from "could not parse".
#[derive(Debug, Clone, Copy, PartialEq, Eq, Structural)]
pub enum DecodeError {
    /// The source could not be read at all (an I/O-level failure, such as a
    /// missing file). No parsing was attempted.
    Unreadable,
    /// The source was read but its content is not a well-formed document, or
    /// its shape does not fit the payload.
    Malformed,
}

/// Why an emission (encode) failed.
#[derive(Debug, Clone, Copy, PartialEq, Eq, Structural)]
pub enum EncodeError {
    /// The payload could not be serialized.
    Unserializable,
}

/// The client-level error a resource fetch can end in.
#[derive(Debug, Clone, Copy, PartialEq, Eq, Structural)]
pub enum OARSError {
    /// The transport call failed (a network or HTTP failure). Recoverable by
    /// retrying at a higher layer.
    NetworkError,
    /// The per-window request budget is exhausted; no transport call was made.
    QueryLimitReached,
    /// The response body could not be decoded into the payload.
    Decode(DecodeError),
    /// An error that fits no other variant.
    Unknown,
}

} // verus!
