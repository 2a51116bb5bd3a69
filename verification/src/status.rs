//! HTTP status codes that the service replies with.

use vstd::prelude::*;

verus! {

/// The status line of a reply.
#[derive(Clone, Copy, Debug, PartialEq, Eq, Structural)]
pub enum StatusCode {
    /// `200 OK`: the greeting.
    Okay,
    /// `201 Created`: the payload was accepted.
    Created,
    /// `400 Bad Request`: the payload was rejected.
    BadRequest,
}

impl StatusCode {
    /// The numeric code that goes on the wire.
    pub open spec fn code(self) -> u16 {
        match self {
            StatusCode::Okay => 200,
            StatusCode::Created => 201,
            StatusCode::BadRequest => 400,
        }
    }

    /// Returns the numeric code that goes on the wire.
    pub fn as_u16(&self) -> (n: u16)
        ensures
            n == self.code(),
    {
        match self {
            StatusCode::Okay => 200,
            StatusCode::Created => 201,
            StatusCode::BadRequest => 400,
        }
    }
}

} // verus!
