//! The error taxonomy. Every attempt outcome is resolved locally into
//! retry-next-host, fatal, or success; only fatal errors and the
//! all-hosts-exhausted case surface to the caller.

use vstd::prelude::*;

verus! {

/// The structured `{message}` body the service sends with a 400 response.
#[derive(Clone, Debug, PartialEq, Eq)]
pub struct BadRequestError {
    pub message: String,
}

/// The structured `{message, status}` body the service sends with other
/// client-error responses. Such a response is probably a bug in the caller.
#[derive(Clone, Debug, PartialEq, Eq)]
pub struct UnexpectedResponseError {
    pub message: String,
    pub status: u16,
}

/// Why a request failed for a reason that retrying on another host cannot
/// fix.
#[derive(Clone, Debug, PartialEq, Eq)]
pub enum RequestFailure {
    /// The transport failed in a way other than a timeout; the text
    /// describes the failure.
    Transport(String),
    /// The service answered 400 with a decodable `{message}` body.
    BadRequest(BadRequestError),
    /// The service answered another client-error status with a decodable
    /// `{message, status}` body.
    Unexpected(UnexpectedResponseError),
    /// The service answered the given client-error status, but the error
    /// body could not be decoded; the decode failure is preserved here
    /// rather than lost.
    UndecodableBody { status: u16 },
}

/// Everything a client operation can fail with.
#[derive(Clone, Debug, PartialEq, Eq)]
#[non_exhaustive]
pub enum Error {
    /// The client could not be constructed; the text describes why.
    Configuration(String),
    /// Every candidate host was tried and each attempt was retryable.
    Timeout,
    /// The service reported that the named index does not exist.
    IndexNotFound(String),
    /// A successful response carried a body that did not match the expected
    /// shape; the text describes the decode failure.
    DecodeError(String),
    /// The request itself failed; see [`RequestFailure`].
    RequestError(RequestFailure),
}

} // verus!
