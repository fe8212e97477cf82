//! HTTP status codes and the bare response an error is answered with.

use vstd::prelude::*;

verus! {

/// An HTTP status code.
#[derive(Clone, Copy, Debug, PartialEq, Eq, Structural)]
pub struct StatusCode(pub u16);

impl StatusCode {
    /// `200 OK`.
    pub fn ok() -> (status: StatusCode)
        ensures
            status == StatusCode(200),
    {
        StatusCode(200)
    }

    /// `400 Bad Request`.
    pub fn bad_request() -> (status: StatusCode)
        ensures
            status == StatusCode(400),
    {
        StatusCode(400)
    }

    /// `401 Unauthorized`.
    pub fn unauthorized() -> (status: StatusCode)
        ensures
            status == StatusCode(401),
    {
        StatusCode(401)
    }

    /// `500 Internal Server Error`.
    pub fn internal_server_error() -> (status: StatusCode)
        ensures
            status == StatusCode(500),
    {
        StatusCode(500)
    }

    /// Whether the code lies in the success class, 200 to 299.
    pub open spec fn success(self) -> bool {
        200 <= self.0 < 300
    }

    /// The code as a number.
    pub fn as_u16(&self) -> (code: u16)
        ensures
            code == self.0,
    {
        self.0
    }

    /// Whether the code lies in the success class, 200 to 299.
    pub fn is_success(&self) -> (success: bool)
        ensures
            success == self.success(),
    {
        200 <= self.0 && self.0 < 300
    }
}

/// What goes back to a client: a status and the bytes of a body.
#[derive(Debug)]
pub struct Response {
    pub status: StatusCode,
    pub body: Vec<u8>,
}

} // verus!
