//! What the HTTP handlers decide: the shape of requests and responses, and
//! which error answers which failure.

pub mod payment_engine_handler;
pub mod users_handler;

use vstd::prelude::*;

verus! {

/// The HTTP statuses that the handlers answer with.
#[derive(Clone, Copy, Debug, PartialEq, Eq, Structural)]
pub enum StatusCode {
    BadRequest,
    Unauthorized,
    InternalServerError,
}

impl StatusCode {
    pub open spec fn code(self) -> u16 {
        match self {
            StatusCode::BadRequest => 400,
            StatusCode::Unauthorized => 401,
            StatusCode::InternalServerError => 500,
        }
    }

    /// The status as the number on the wire.
    pub fn as_u16(&self) -> (code: u16)
        ensures
            code == self.code(),
    {
        match self {
            StatusCode::BadRequest => 400,
            StatusCode::Unauthorized => 401,
            StatusCode::InternalServerError => 500,
        }
    }
}

/// The body of every error answer.
#[derive(Debug)]
pub struct ErrorResponse {
    pub status_code: u16,
    pub error: String,
}

impl ErrorResponse {
    /// This answer carries the given status and message.
    pub open spec fn says(&self, status: StatusCode, message: Seq<char>) -> bool {
        self.status_code == status.code() && self.error@ == message
    }

    pub fn new(status: StatusCode, message: &str) -> (response: ErrorResponse)
        ensures
            response.says(status, message@),
    {
        ErrorResponse { status_code: status.as_u16(), error: message.to_owned() }
    }
}

} // verus!
