//! The HTTP statuses that the gateway answers with.

use vstd::prelude::*;

verus! {

/// An HTTP response status, one variant for each status the gateway can send.
#[derive(Clone, Copy, PartialEq, Eq, Structural, Debug, Hash)]
pub enum HttpStatus {
    /// 200
    Okay,
    /// 400
    BadRequest,
    /// 401
    Unauthorized,
    /// 403
    Forbidden,
    /// 404
    NotFound,
    /// 408
    RequestTimeout,
    /// 409
    Conflict,
    /// 412
    PreconditionFailed,
    /// 429
    TooManyRequests,
    /// 500
    InternalServerError,
    /// 501
    NotImplemented,
    /// 503
    ServiceUnavailable,
    /// 504
    GatewayTimeout,
}

impl HttpStatus {
    /// The three-digit number that goes on the wire.
    pub open spec fn number(self) -> int {
        match self {
            HttpStatus::Okay => 200,
            HttpStatus::BadRequest => 400,
            HttpStatus::Unauthorized => 401,
            HttpStatus::Forbidden => 403,
            HttpStatus::NotFound => 404,
            HttpStatus::RequestTimeout => 408,
            HttpStatus::Conflict => 409,
            HttpStatus::PreconditionFailed => 412,
            HttpStatus::TooManyRequests => 429,
            HttpStatus::InternalServerError => 500,
            HttpStatus::NotImplemented => 501,
            HttpStatus::ServiceUnavailable => 503,
            HttpStatus::GatewayTimeout => 504,
        }
    }

    /// The status as the number that goes on the wire.
    pub fn as_u16(&self) -> (n: u16)
        ensures
            n == self.number(),
    {
        match self {
            HttpStatus::Okay => 200,
            HttpStatus::BadRequest => 400,
            HttpStatus::Unauthorized => 401,
            HttpStatus::Forbidden => 403,
            HttpStatus::NotFound => 404,
            HttpStatus::RequestTimeout => 408,
            HttpStatus::Conflict => 409,
            HttpStatus::PreconditionFailed => 412,
            HttpStatus::TooManyRequests => 429,
            HttpStatus::InternalServerError => 500,
            HttpStatus::NotImplemented => 501,
            HttpStatus::ServiceUnavailable => 503,
            HttpStatus::GatewayTimeout => 504,
        }
    }
}

} // verus!
