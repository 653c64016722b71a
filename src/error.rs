use vstd::prelude::*;

use crate::encoder::EncodeError;
use crate::profile::{Operation, ProtocolVersion};

verus! {

/// Failure of one request/response round trip.
#[derive(Debug)]
pub enum CallError {
    /// The transport could not deliver the request or a well-formed reply.
    Transport(String),
    /// The server answered with a JSON-RPC error object.
    Returned { code: i64, message: String },
    /// The reply did not have the shape expected for the operation.
    Decode(String),
    /// The operation returns nothing, yet the server sent a value.
    UnexpectedResult { operation: Operation },
}

/// A response field of the canonical model.
#[derive(Clone, Copy, Debug, PartialEq, Eq, Structural)]
pub enum Field {
    Address,
    BanCreated,
    BannedUntil,
    BanReason,
    BanDuration,
    TimeRemaining,
}

/// Why a field value was rejected.
#[derive(Clone, Copy, Debug, PartialEq, Eq, Structural)]
pub enum InvalidReason {
    /// A timestamp before the epoch, which the canonical model cannot represent.
    NegativeTimestamp,
    /// An empty value where the server always reports a non-empty one.
    Empty,
}

/// Failure to project a version-specific response onto the canonical model.
#[derive(Clone, Copy, Debug, PartialEq, Eq, Structural)]
pub enum NormalizeError {
    /// The bound version promises the field, but the response lacks it.
    MissingField(Field),
    /// The bound version promises the field, but its value is not valid.
    InvalidField { field: Field, reason: InvalidReason },
}

/// Failure to resolve credentials.
#[derive(Clone, Copy, Debug, PartialEq, Eq, Structural)]
pub enum AuthError {
    /// The cookie file is unreadable, empty, or its first line has no `:`.
    InvalidCookieFile,
}

/// Every failure a client call can report, attributed to the stage that produced it.
#[derive(Debug)]
pub enum Error {
    Call(CallError),
    Encode { operation: Operation, error: EncodeError },
    Normalize(NormalizeError),
    Auth(AuthError),
    /// The bound protocol version has no entry for the operation.
    UnsupportedOperation { operation: Operation, version: ProtocolVersion },
    /// The server reports another release than the bound protocol version.
    UnexpectedServerVersion { expected: u64, got: u64 },
    /// An authenticated client was asked for without credentials.
    MissingUserPassword,
}

} // verus!
