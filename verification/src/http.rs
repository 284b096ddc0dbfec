//! The mapping from operation outcomes to HTTP status codes, shared by
//! every route of the service.

use vstd::prelude::*;

verus! {

/// How a request ended, as the routes distinguish it.
pub enum ResponseKind {
    /// The operation succeeded and has a body or nothing more to say.
    Success,
    /// The operation found nothing: an absent record, an empty result.
    NoContent,
    /// A listing request named an id that is already taken.
    Conflict,
    /// The primary store or the index failed underneath the operation.
    Fault,
}

/// The status code each outcome maps to.
pub fn status_code(kind: &ResponseKind) -> (r: u16)
    ensures
        r == (match kind {
            ResponseKind::Success => 200u16,
            ResponseKind::NoContent => 204u16,
            ResponseKind::Conflict => 409u16,
            ResponseKind::Fault => 500u16,
        }),
{
    match kind {
        ResponseKind::Success => 200,
        ResponseKind::NoContent => 204,
        ResponseKind::Conflict => 409,
        ResponseKind::Fault => 500,
    }
}

} // verus!
