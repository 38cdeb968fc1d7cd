//! The errors a call can end with.
use vstd::prelude::*;

verus! {

/// Why a call failed.
#[derive(Debug, PartialEq)]
pub enum Error {
    /// Required input is malformed or missing; no call was attempted.
    ValidationError(String),
    /// The body does not have the shape its declared kind needs; no call was
    /// attempted.
    BodyEncodingError(String),
    /// A header name or value cannot be sent; holds the header's name.
    InvalidHeaderValue(String),
    /// The transport failed; holds its message.
    TransportError(String),
    /// The deadline passed before the transport finished.
    Timeout,
    /// A body that should hold JSON does not.
    MissingResponseBody,
}

} // verus!
