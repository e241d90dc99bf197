//! Errors the gateway reports to its callers.

use vstd::prelude::*;

verus! {

/// Why a caller could not be authenticated.
#[derive(Clone, Copy, Debug, PartialEq, Eq, Structural)]
pub enum AuthenticationError {
    AuthHeaderNotProvided,
    InvalidAuthBearer,
    Unauthenticated,
    UnableToFetchSessionToken,
    InvalidSessionToken,
    UnableToFetchTokenUser,
    TokenUserNotFound,
}

/// Why an authenticated caller may not do what it asked.
#[derive(Clone, Copy, Debug, PartialEq, Eq, Structural)]
pub enum AuthorizationError {
    AccessDenied,
}

/// Why a user context could not be loaded from the request headers.
#[derive(Clone, Copy, Debug, PartialEq, Eq, Structural)]
pub enum UserContextExtractionError {
    AuthInvalidAuthBearer,
    UnableToFetchSessionToken,
    SessionTokenNotFound,
    AuthUserNotFound,
    AuthenticationNotProvided,
}

/// Errors of the gateway's request handling.
#[derive(Clone, Debug, PartialEq, Eq)]
pub enum LLMurError {
    BadRequest(String),
    NotAuthorized,
    UpstreamUnavailable,
    InternalServerError(String),
    Authorization(AuthorizationError),
    Authentication(AuthenticationError),
    /// A record the request names does not exist.
    ResourceNotFound,
}

/// A proxied request that failed: the status and the message to answer
/// the caller with.
#[derive(Clone, Debug, PartialEq, Eq)]
pub struct ProxyRequestError {
    pub status_code: u16,
    pub message: String,
}

/// The message of a bad-request error.
pub open spec fn bad_request(e: LLMurError) -> Seq<char> {
    match e {
        LLMurError::BadRequest(m) => m@,
        _ => Seq::empty(),
    }
}

} // verus!
