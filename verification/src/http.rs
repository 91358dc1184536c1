use vstd::prelude::*;

verus! {

/// 400: the request itself is malformed.
pub const BAD_REQUEST: u16 = 400;

/// 403: the caller is not allowed to do this.
pub const FORBIDDEN: u16 = 403;

/// 404: no row matched the request.
pub const NOT_FOUND: u16 = 404;

/// 500: the server failed to do its part.
pub const INTERNAL_SERVER_ERROR: u16 = 500;

/// An error answer: an HTTP status code and the text sent with it.
#[derive(Debug)]
pub struct HttpError {
    pub status: u16,
    pub message: String,
}

impl View for HttpError {
    type V = (u16, Seq<char>);

    open spec fn view(&self) -> (u16, Seq<char>) {
        (self.status, self.message@)
    }
}

/// Builds an error answer from a status and a message.
pub fn http_error(status: u16, message: &str) -> (e: HttpError)
    ensures
        e@ == (status, message@),
{
    HttpError { status, message: String::from_str(message) }
}

/// The answer to a body that does not parse as the expected JSON.
pub fn invalid_payload() -> (e: HttpError)
    ensures
        e@ == (BAD_REQUEST, "Invalid JSON payload"@),
{
    http_error(BAD_REQUEST, "Invalid JSON payload")
}

} // verus!
