//! Status codes and error values that the endpoints answer with.
use vstd::prelude::*;

verus! {

/// The HTTP statuses that the endpoints answer with when they refuse a request.
#[derive(Clone, Copy, Debug, PartialEq, Eq, Structural)]
pub enum HttpStatus {
    BadRequest,
    Forbidden,
    NotFound,
    InternalServerError,
    ServiceUnavailable,
}

impl HttpStatus {
    /// The numeric code of the status.
    pub open spec fn spec_code(self) -> u16 {
        match self {
            HttpStatus::BadRequest => 400,
            HttpStatus::Forbidden => 403,
            HttpStatus::NotFound => 404,
            HttpStatus::InternalServerError => 500,
            HttpStatus::ServiceUnavailable => 503,
        }
    }

    pub fn code(&self) -> (c: u16)
        ensures
            c == self.spec_code(),
    {
        match self {
            HttpStatus::BadRequest => 400,
            HttpStatus::Forbidden => 403,
            HttpStatus::NotFound => 404,
            HttpStatus::InternalServerError => 500,
            HttpStatus::ServiceUnavailable => 503,
        }
    }
}

/// A refused request: the status and the human-readable reason sent back.
#[derive(Debug)]
pub struct Rejection {
    pub status: HttpStatus,
    pub message: String,
}

impl View for Rejection {
    type V = (HttpStatus, Seq<char>);

    open spec fn view(&self) -> (HttpStatus, Seq<char>) {
        (self.status, self.message@)
    }
}

impl Rejection {
    pub fn new(status: HttpStatus, message: &str) -> (r: Rejection)
        ensures
            r.status == status,
            r.message@ == message@,
    {
        Rejection { status, message: String::from_str(message) }
    }
}

/// The serialisable error body: the numeric status code and the message.
#[derive(Debug)]
pub struct ApiError {
    pub code: u16,
    pub message: String,
}

impl From<Rejection> for ApiError {
    fn from(custom: Rejection) -> (e: ApiError) {
        ApiError { code: custom.status.code(), message: custom.message }
    }
}

impl vstd::std_specs::convert::FromSpecImpl<Rejection> for ApiError {
    open spec fn obeys_from_spec() -> bool {
        true
    }

    open spec fn from_spec(v: Rejection) -> ApiError {
        ApiError { code: v.status.spec_code(), message: v.message }
    }
}

} // verus!
