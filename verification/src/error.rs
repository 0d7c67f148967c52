//! The error value that every fallible operation of the service returns:
//! an HTTP status code and a message for the client.
use vstd::prelude::*;

verus! {

/// HTTP status codes that the service answers with.
pub const BAD_REQUEST: u16 = 400;

pub const NOT_FOUND: u16 = 404;

pub const NOT_ACCEPTABLE: u16 = 406;

pub const INTERNAL_SERVER_ERROR: u16 = 500;

pub const SERVICE_UNAVAILABLE: u16 = 503;

/// An error answered to the client.
#[derive(Debug)]
pub struct ApiError {
    pub code: u16,
    pub message: String,
}

impl ApiError {
    /// An error with the given status code and message.
    pub fn new(code: u16, message: &str) -> (r: ApiError)
        ensures
            r.code == code,
            r.message@ == message@,
    {
        ApiError { code, message: String::from_str(message) }
    }
}

/// The status code and message of an error, as plain values.
pub open spec fn error_of(e: ApiError) -> (u16, Seq<char>) {
    (e.code, e.message@)
}

/// The message of the generic server-side failure.
pub open spec fn internal_error_message() -> Seq<char> {
    "An internal server error occurred."@
}

/// The generic server-side failure, as plain values.
pub open spec fn internal_error_view() -> Option<(u16, Seq<char>)> {
    Some((INTERNAL_SERVER_ERROR, internal_error_message()))
}

/// Errors that are shared by all parts of the service.
#[derive(Debug)]
pub enum DefaultApiError {
    InternalServerError,
}

impl DefaultApiError {
    /// The error answered for this case.
    pub fn value(&self) -> (r: ApiError)
        ensures
            r.code == INTERNAL_SERVER_ERROR,
            r.message@ == internal_error_message(),
    {
        match *self {
            DefaultApiError::InternalServerError => ApiError::new(
                INTERNAL_SERVER_ERROR,
                "An internal server error occurred.",
            ),
        }
    }
}

/// The generic server-side failure.
pub fn internal_server_error() -> (r: ApiError)
    ensures
        r.code == INTERNAL_SERVER_ERROR,
        r.message@ == internal_error_message(),
{
    DefaultApiError::InternalServerError.value()
}

/// Errors of the media endpoints.
#[derive(Debug)]
pub enum MediaApiError {
    MediaNotFound,
}

impl MediaApiError {
    /// The error answered for this case.
    pub fn value(&self) -> (r: ApiError)
        ensures
            r.code == NOT_FOUND,
            r.message@ == "Media not found."@,
    {
        match *self {
            MediaApiError::MediaNotFound => ApiError::new(NOT_FOUND, "Media not found."),
        }
    }
}

} // verus!
