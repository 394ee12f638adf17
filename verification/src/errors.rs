//! HTTP error answers: a status code and a JSON body with a message.
use vstd::prelude::*;

use crate::bytes::copy_str;

verus! {

/// HTTP 200 OK.
pub const STATUS_OK: u16 = 200;

/// HTTP 303 See Other.
pub const STATUS_SEE_OTHER: u16 = 303;

/// HTTP 400 Bad Request.
pub const STATUS_BAD_REQUEST: u16 = 400;

/// HTTP 401 Unauthorized.
pub const STATUS_UNAUTHORIZED: u16 = 401;

/// HTTP 500 Internal Server Error.
pub const STATUS_INTERNAL_SERVER_ERROR: u16 = 500;

/// Message of the default error answer.
pub const MSG_INTERNAL: &'static str = "Internal server error occurred";

/// The JSON body of an error answer.
pub struct ErrorResponse {
    pub message: String,
}

/// An error answer: HTTP status code and JSON body.
pub struct HttpErrorWrapper(pub (u16, ErrorResponse));

impl HttpErrorWrapper {
    /// The status code of the answer.
    pub open spec fn status(&self) -> u16 {
        self.0.0
    }

    /// The message of the answer's body.
    pub open spec fn text(&self) -> Seq<char> {
        self.0.1.message@
    }

    /// Whether the answer has this status code and message.
    pub open spec fn is(&self, status: u16, text: Seq<char>) -> bool {
        self.status() == status && self.text() == text
    }

    /// The default answer: 500 with the message "Internal server error occurred".
    pub fn new() -> (e: Self)
        ensures
            e.is(STATUS_INTERNAL_SERVER_ERROR, MSG_INTERNAL@),
    {
        HttpErrorWrapper((STATUS_INTERNAL_SERVER_ERROR, ErrorResponse { message: copy_str(MSG_INTERNAL) }))
    }

    /// The same answer with another status code.
    pub fn status_code(self, status_code: u16) -> (e: Self)
        ensures
            e.status() == status_code,
            e.text() == self.text(),
    {
        let HttpErrorWrapper((_, body)) = self;
        HttpErrorWrapper((status_code, body))
    }

    /// The same answer with another message.
    pub fn message(self, message: &str) -> (e: Self)
        ensures
            e.status() == self.status(),
            e.text() == message@,
    {
        let HttpErrorWrapper((status, _)) = self;
        HttpErrorWrapper((status, ErrorResponse { message: copy_str(message) }))
    }
}

/// An answer with the given status code and message.
pub fn http_error(status: u16, message: &str) -> (e: HttpErrorWrapper)
    ensures
        e.is(status, message@),
{
    HttpErrorWrapper::new().status_code(status).message(message)
}

} // verus!
