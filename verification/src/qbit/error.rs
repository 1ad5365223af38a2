//! The errors of the qBittorrent client.
use vstd::prelude::*;
use crate::text::{push_all};

verus! {

/// What went wrong in a call to qBittorrent.
#[derive(Debug, Clone, PartialEq, Eq)]
pub enum ErrorKind {
    /// The request failed; the text of the HTTP error.
    HttpRequestError(String),
    IncorrectLogin,
    TorrentAddError,
    /// A parameter that qBittorrent refused, by name.
    BadParameters(String),
    RequestError,
    TorrentNotFound,
    TorrentNotDownloading,
    CategoryDoesNotExist,
    /// The answer was not the JSON expected; the text of the JSON error.
    SerdeError(String),
    InvalidMagnet,
    TorrentIsFile,
}

/// How an error kind is written out.
pub open spec fn kind_text(kind: ErrorKind) -> Seq<char> {
    match kind {
        ErrorKind::HttpRequestError(e) => "RequestError: "@ + e@,
        ErrorKind::IncorrectLogin => "IncorrectLogin"@,
        ErrorKind::TorrentAddError => "TorrentAddError"@,
        ErrorKind::BadParameters(p) => "Bad Parameter: "@ + p@,
        ErrorKind::RequestError => "RequestError"@,
        ErrorKind::TorrentNotFound => "TorrentNotFound"@,
        ErrorKind::TorrentNotDownloading => "TorrentNotDownloading"@,
        ErrorKind::CategoryDoesNotExist => "CategoryDoesNotExist"@,
        ErrorKind::SerdeError(e) => "SerdeError: "@ + e@,
        ErrorKind::InvalidMagnet => "InvalidMagnet"@,
        ErrorKind::TorrentIsFile => "TorrentIsFile"@,
    }
}

impl ErrorKind {
    /// The kind written out, as its `Display` writes it.
    pub fn to_string(&self) -> (r: String)
        ensures
            r@ == kind_text(*self),
    {
        let mut r = String::new();
        match self {
            ErrorKind::HttpRequestError(e) => {
                push_all(&mut r, "RequestError: ");
                push_all(&mut r, e.as_str());
            },
            ErrorKind::IncorrectLogin => push_all(&mut r, "IncorrectLogin"),
            ErrorKind::TorrentAddError => push_all(&mut r, "TorrentAddError"),
            ErrorKind::BadParameters(p) => {
                push_all(&mut r, "Bad Parameter: ");
                push_all(&mut r, p.as_str());
            },
            ErrorKind::RequestError => push_all(&mut r, "RequestError"),
            ErrorKind::TorrentNotFound => push_all(&mut r, "TorrentNotFound"),
            ErrorKind::TorrentNotDownloading => push_all(&mut r, "TorrentNotDownloading"),
            ErrorKind::CategoryDoesNotExist => push_all(&mut r, "CategoryDoesNotExist"),
            ErrorKind::SerdeError(e) => {
                push_all(&mut r, "SerdeError: ");
                push_all(&mut r, e.as_str());
            },
            ErrorKind::InvalidMagnet => push_all(&mut r, "InvalidMagnet"),
            ErrorKind::TorrentIsFile => push_all(&mut r, "TorrentIsFile"),
        }
        r
    }
}

/// An error of the qBittorrent client: its kind and a message.
#[derive(Debug)]
pub struct Error {
    kind: ErrorKind,
    message: String,
}

impl Error {
    pub closed spec fn spec_kind(&self) -> ErrorKind {
        self.kind
    }

    pub closed spec fn spec_message(&self) -> Seq<char> {
        self.message@
    }

    pub fn new(kind: ErrorKind, message: String) -> (r: Self)
        ensures
            r.spec_kind() == kind,
            r.spec_message() == message@,
    {
        Self { kind, message }
    }

    pub fn kind(&self) -> (r: &ErrorKind)
        ensures
            *r == self.spec_kind(),
    {
        &self.kind
    }

    pub fn message(&self) -> (r: &str)
        ensures
            r@ == self.spec_message(),
    {
        self.message.as_str()
    }

    /// The error written out: `<kind>: message`.
    pub fn to_string(&self) -> (r: String)
        ensures
            r@ == "<"@ + kind_text(self.spec_kind()) + ">: "@ + self.spec_message(),
    {
        let mut r = String::new();
        push_all(&mut r, "<");
        let k = self.kind.to_string();
        push_all(&mut r, k.as_str());
        push_all(&mut r, ">: ");
        push_all(&mut r, self.message.as_str());
        r
    }

    /// The error of a failed HTTP request: an unauthorised status (401) means
    /// the login was refused; anything else is kept as a request error.
    pub fn from_http(status: Option<u16>, text: String) -> (r: Self)
        ensures
            status == Some(401u16) ==> r.spec_kind() == ErrorKind::IncorrectLogin
                && r.spec_message() == "Incorrect login"@,
            status != Some(401u16) ==> r.spec_kind() == ErrorKind::HttpRequestError(text)
                && r.spec_message() == "Request Error"@,
    {
        match status {
            Some(401) => Self::new(ErrorKind::IncorrectLogin, "Incorrect login".to_owned()),
            _ => Self::new(ErrorKind::HttpRequestError(text), "Request Error".to_owned()),
        }
    }

    /// The error of an answer that is not the JSON expected.
    pub fn from_serde(text: String) -> (r: Self)
        ensures
            r.spec_kind() == ErrorKind::SerdeError(text),
            r.spec_message() == "Serde Error"@,
    {
        Self::new(ErrorKind::SerdeError(text), "Serde Error".to_owned())
    }
}

} // verus!
