//! The errors that the service answers a request with.
use vstd::prelude::*;
use crate::text::text;

verus! {

/// Why a request is refused.
#[derive(Clone, Debug, PartialEq, Eq)]
pub enum ApiError {
    /// The request is malformed or not allowed in the account's state; the
    /// text says why.
    BadRequest(String),
    /// Missing or wrong credentials.
    Unauthorized,
    /// No such thing, or not the caller's.
    NotFound,
    /// The request clashes with the account's state; the text says how.
    Conflict(String),
    /// Something on the service's side is missing or broken; the text says what.
    Internal(String),
}

/// The error is a bad request whose text is `msg`.
pub open spec fn is_bad_request(e: ApiError, msg: Seq<char>) -> bool {
    e matches ApiError::BadRequest(m) && m@ == msg
}

/// The error is an internal one whose text is `msg`.
pub open spec fn is_internal(e: ApiError, msg: Seq<char>) -> bool {
    e matches ApiError::Internal(m) && m@ == msg
}

/// The error is a conflict whose text is `msg`.
pub open spec fn is_conflict(e: ApiError, msg: Seq<char>) -> bool {
    e matches ApiError::Conflict(m) && m@ == msg
}

/// A bad-request error with the given text.
pub fn bad_request(msg: &str) -> (e: ApiError)
    ensures
        is_bad_request(e, msg@),
{
    ApiError::BadRequest(text(msg))
}

/// An internal error with the given text.
pub fn internal(msg: &str) -> (e: ApiError)
    ensures
        is_internal(e, msg@),
{
    ApiError::Internal(text(msg))
}

/// A conflict error with the given text.
pub fn conflict(msg: &str) -> (e: ApiError)
    ensures
        is_conflict(e, msg@),
{
    ApiError::Conflict(text(msg))
}

} // verus!
