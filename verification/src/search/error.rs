//! The errors of a search.
use vstd::prelude::*;
use crate::text::{decimal, push_all, u64_to_decimal};

verus! {

/// What went wrong in a search.
#[derive(Debug, Clone, PartialEq, Eq)]
pub enum ErrorKind {
    /// The request failed; the text of the HTTP error.
    HttpRequestError(String),
    /// The site answered with a status that is not a success.
    StatusCodeError(u16),
    /// The answer was not the JSON expected; the text of the JSON error.
    ParsingError(String),
    /// The answer's HTML did not hold what was expected.
    ScrapingError,
}

/// A search error: its kind and a message.
#[derive(Debug)]
pub struct Error {
    kind: ErrorKind,
    message: String,
}

impl Error {
    pub closed spec fn spec_kind(&self) -> ErrorKind {
        self.kind
    }

    pub closed spec fn spec_message(&self) -> Seq<char> {
        self.message@
    }

    pub fn new(kind: ErrorKind, message: String) -> (r: Self)
        ensures
            r.spec_kind() == kind,
            r.spec_message() == message@,
    {
        Self { kind, message }
    }

    pub fn kind(&self) -> (r: &ErrorKind)
        ensures
            *r == self.spec_kind(),
    {
        &self.kind
    }

    pub fn message(&self) -> (r: &str)
        ensures
            r@ == self.spec_message(),
    {
        self.message.as_str()
    }
}

/// Whether an HTTP status is a success (2xx).
pub open spec fn is_success(status: u16) -> bool {
    200 <= status && status < 300
}

/// The message of a request that was answered with `status`.
pub open spec fn status_message(url: Seq<char>, status: u16) -> Seq<char> {
    "Request to \""@ + url + "\" failed with "@ + decimal(status as nat)
}

/// The body of an answer with a success status; otherwise a status error naming the URL.
pub fn check_status(url: &str, status: u16, body: String) -> (r: Result<String, Error>)
    ensures
        match r {
            Ok(b) => is_success(status) && b@ == body@,
            Err(e) => !is_success(status) && e.spec_kind() == ErrorKind::StatusCodeError(status)
                && e.spec_message() == status_message(url@, status),
        },
{
    if 200 <= status && status < 300 {
        return Ok(body);
    }
    let mut message = String::new();
    push_all(&mut message, "Request to \"");
    push_all(&mut message, url);
    push_all(&mut message, "\" failed with ");
    let code = u64_to_decimal(status as u64);
    push_all(&mut message, code.as_str());
    Err(Error::new(ErrorKind::StatusCodeError(status), message))
}

/// The error of a failed request, with the text of the HTTP error.
pub fn request_error(text: String) -> (r: Error)
    ensures
        r.spec_kind() == ErrorKind::HttpRequestError(text),
        r.spec_message() == "Request Error"@,
{
    Error::new(ErrorKind::HttpRequestError(text), "Request Error".to_owned())
}

/// The error of an answer that is not the JSON expected.
pub fn parsing_error(text: String) -> (r: Error)
    ensures
        r.spec_kind() == ErrorKind::ParsingError(text),
        r.spec_message() == "Parsing Error"@,
{
    Error::new(ErrorKind::ParsingError(text), "Parsing Error".to_owned())
}

/// An error about the HTML of an answer.
pub fn scraping_error(message: &str) -> (r: Error)
    ensures
        r.spec_kind() == ErrorKind::ScrapingError,
        r.spec_message() == message@,
{
    Error::new(ErrorKind::ScrapingError, message.to_owned())
}

} // verus!
