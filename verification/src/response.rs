//! The envelope of every answer: whether the request succeeded, and the
//! HTTP status that says how.

use vstd::prelude::*;

use crate::error::{status_of, Error};

verus! {

/// The head of an answer. The body carries `data` on success and `error`
/// otherwise.
#[derive(Debug, Clone, Copy, PartialEq, Eq, Structural)]
pub struct Envelope {
    pub code: u16,
    pub success: bool,
}

/// The request was served.
pub fn ok() -> (head: Envelope)
    ensures
        head == (Envelope { code: 200, success: true }),
{
    Envelope { code: 200, success: true }
}

/// The request made something new.
pub fn created() -> (head: Envelope)
    ensures
        head == (Envelope { code: 201, success: true }),
{
    Envelope { code: 201, success: true }
}

/// The request was not in order.
pub fn bad_request() -> (head: Envelope)
    ensures
        head == (Envelope { code: 400, success: false }),
{
    Envelope { code: 400, success: false }
}

/// What the request asked for is not there.
pub fn not_found() -> (head: Envelope)
    ensures
        head == (Envelope { code: 404, success: false }),
{
    Envelope { code: 404, success: false }
}

/// What the request would make is there already.
pub fn conflict() -> (head: Envelope)
    ensures
        head == (Envelope { code: 409, success: false }),
{
    Envelope { code: 409, success: false }
}

/// Serving the request went wrong.
pub fn internal_error() -> (head: Envelope)
    ensures
        head == (Envelope { code: 500, success: false }),
{
    Envelope { code: 500, success: false }
}

/// The head of the answer that carries an error: by the error's kind, and
/// never a success.
pub fn failure(err: &Error) -> (head: Envelope)
    ensures
        head.code == status_of(err@),
        !head.success,
{
    match err {
        Error::Internal => internal_error(),
        Error::NotFound(_) => not_found(),
        Error::AlreadyExists(_) => conflict(),
        Error::InvalidArgument(_) => bad_request(),
    }
}

} // verus!
