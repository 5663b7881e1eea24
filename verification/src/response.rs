//! What goes back to the client: a status and a text body.

use vstd::prelude::*;

verus! {

/// The request was carried out.
pub const OK: u16 = 200;

/// The body or the path of the request could not be decoded.
pub const BAD_REQUEST: u16 = 400;

/// No resource has the path of the request.
pub const NOT_FOUND: u16 = 404;

/// The resource exists and does not take the method of the request.
pub const METHOD_NOT_ALLOWED: u16 = 405;

/// The store reported a failure.
pub const INTERNAL_SERVER_ERROR: u16 = 500;

/// A response as contracts see it.
pub ghost struct ResponseView {
    pub status: int,
    pub body: Seq<char>,
}

/// A response: the status code and the body, which is plain text.
#[derive(Debug, PartialEq, Eq)]
pub struct Response {
    pub status: u16,
    pub body: String,
}

impl View for Response {
    type V = ResponseView;

    open spec fn view(&self) -> ResponseView {
        ResponseView { status: self.status as int, body: self.body@ }
    }
}

impl ResponseView {
    /// Whether the status reports success.
    pub open spec fn is_success(self) -> bool {
        200 <= self.status < 300
    }

    /// Whether the status blames the request.
    pub open spec fn is_client_error(self) -> bool {
        400 <= self.status < 500
    }
}

impl Response {
    /// A response with the given status and body.
    pub fn new(status: u16, body: &str) -> (response: Response)
        ensures
            response@ == (ResponseView { status: status as int, body: body@ }),
    {
        Response { status, body: String::from_str(body) }
    }

    /// Success, with `body` as the text.
    pub fn ok(body: &str) -> (response: Response)
        ensures
            response@ == (ResponseView { status: OK as int, body: body@ }),
    {
        Response::new(OK, body)
    }

    /// The request could not be decoded; `reason` says why.
    pub fn bad_request(reason: &str) -> (response: Response)
        ensures
            response@ == (ResponseView { status: BAD_REQUEST as int, body: reason@ }),
    {
        Response::new(BAD_REQUEST, reason)
    }

    /// No resource has that path. The body is empty.
    pub fn not_found() -> (response: Response)
        ensures
            response@ == (ResponseView { status: NOT_FOUND as int, body: Seq::empty() }),
    {
        Response { status: NOT_FOUND, body: String::new() }
    }

    /// The resource does not take that method. The body is empty.
    pub fn method_not_allowed() -> (response: Response)
        ensures
            response@ == (ResponseView { status: METHOD_NOT_ALLOWED as int, body: Seq::empty() }),
    {
        Response { status: METHOD_NOT_ALLOWED, body: String::new() }
    }

    /// Whether the status reports success.
    pub fn is_success(&self) -> (yes: bool)
        ensures
            yes == self@.is_success(),
    {
        200 <= self.status && self.status < 300
    }
}

/// The message of a failure that the store reported: a fixed prefix, then
/// the store's own words, unchanged.
pub open spec fn database_error_text(detail: Seq<char>) -> Seq<char> {
    "Database error: "@ + detail
}

/// The error of a handler. It carries the message that the client reads.
#[derive(Debug, PartialEq, Eq)]
pub struct MyError(pub String);

impl View for MyError {
    type V = Seq<char>;

    open spec fn view(&self) -> Seq<char> {
        self.0@
    }
}

impl MyError {
    /// The error for a failure of the store, whose message is `detail`.
    pub fn database(detail: &str) -> (error: MyError)
        ensures
            error@ == database_error_text(detail@),
    {
        let mut message = String::from_str("Database error: ");
        message.append(detail);
        MyError(message)
    }

    /// The message, as it is shown.
    pub fn message(&self) -> (text: String)
        ensures
            text@ == self@,
    {
        self.0.clone()
    }

    /// The status that goes with the error: always the server's own.
    pub fn status_code(&self) -> (status: u16)
        ensures
            status == INTERNAL_SERVER_ERROR,
    {
        INTERNAL_SERVER_ERROR
    }

    /// The response that reports the error: its status, and the message as
    /// the body.
    pub fn error_response(&self) -> (response: Response)
        ensures
            response@ == (ResponseView {
                status: INTERNAL_SERVER_ERROR as int,
                body: self@,
            }),
    {
        Response { status: self.status_code(), body: self.message() }
    }
}

} // verus!
