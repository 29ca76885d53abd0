//! The library's error type and the exit status each kind maps to.

use vstd::prelude::*;
use crate::text::owned;

verus! {

/// What went wrong, with a human-readable detail.
#[derive(Debug)]
pub enum Error {
    BadArgs(String),
    UnknownLanguage(String),
    Network(String),
    Parse(String),
    Config(String),
}

/// An error as the specifications see it: its kind and its detail text.
pub enum ErrorView {
    BadArgs(Seq<char>),
    UnknownLanguage(Seq<char>),
    Network(Seq<char>),
    Parse(Seq<char>),
    Config(Seq<char>),
}

impl View for Error {
    type V = ErrorView;

    open spec fn view(&self) -> ErrorView {
        match self {
            Error::BadArgs(m) => ErrorView::BadArgs(m@),
            Error::UnknownLanguage(m) => ErrorView::UnknownLanguage(m@),
            Error::Network(m) => ErrorView::Network(m@),
            Error::Parse(m) => ErrorView::Parse(m@),
            Error::Config(m) => ErrorView::Config(m@),
        }
    }
}

/// The view of a result that carries a string or an error.
pub open spec fn string_result(r: Result<String, Error>) -> Result<Seq<char>, ErrorView> {
    match r {
        Ok(s) => Ok(s@),
        Err(e) => Err(e@),
    }
}

/// Process exit status for each error kind.
pub open spec fn exit_code_of(e: Error) -> i32 {
    match e {
        Error::BadArgs(_) => 2,
        Error::UnknownLanguage(_) => 3,
        Error::Network(_) => 4,
        Error::Parse(_) => 5,
        Error::Config(_) => 6,
    }
}

/// The text shown to the user for an error.
pub open spec fn message_of(e: Error) -> Seq<char> {
    match e {
        Error::BadArgs(m) => m@,
        Error::UnknownLanguage(m) => "unknown language: "@ + m@,
        Error::Network(m) => "network error: "@ + m@,
        Error::Parse(m) => "could not read translation response: "@ + m@,
        Error::Config(m) => "config error: "@ + m@,
    }
}

impl Error {
    pub fn exit_code(&self) -> (code: i32)
        ensures
            code == exit_code_of(*self),
    {
        match self {
            Error::BadArgs(_) => 2,
            Error::UnknownLanguage(_) => 3,
            Error::Network(_) => 4,
            Error::Parse(_) => 5,
            Error::Config(_) => 6,
        }
    }

    /// The message shown to the user.
    pub fn message(&self) -> (r: String)
        ensures
            r@ == message_of(*self),
    {
        match self {
            Error::BadArgs(m) => owned(m.as_str()),
            Error::UnknownLanguage(m) => {
                let mut r = owned("unknown language: ");
                r.append(m.as_str());
                r
            },
            Error::Network(m) => {
                let mut r = owned("network error: ");
                r.append(m.as_str());
                r
            },
            Error::Parse(m) => {
                let mut r = owned("could not read translation response: ");
                r.append(m.as_str());
                r
            },
            Error::Config(m) => {
                let mut r = owned("config error: ");
                r.append(m.as_str());
                r
            },
        }
    }
}

} // verus!
