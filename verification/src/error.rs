//! The error type shared by every stage of the library.

use vstd::prelude::*;
use vstd::string::*;

use crate::text::{concatText, decimal, decimalText};

verus! {

/// What can go wrong while a video is taken in or served.
#[derive(Debug, Clone)]
pub enum Error {
    /// The underlying data source failed: the index could not be reached,
    /// refused a statement, or handed back data that cannot be read.
    DataError(String),
    /// An operation of the library or of a tool it relies on failed.
    RuntimeError(String),
    /// The request is to be answered with this HTTP status code.
    HTTPStatus(u16, String),
}

/// The mathematical value of an [`Error`].
pub enum ErrorView {
    DataError(Seq<char>),
    RuntimeError(Seq<char>),
    HTTPStatus(u16, Seq<char>),
}

impl View for Error {
    type V = ErrorView;

    open spec fn view(&self) -> ErrorView {
        match self {
            Error::DataError(message) => ErrorView::DataError(message@),
            Error::RuntimeError(message) => ErrorView::RuntimeError(message@),
            Error::HTTPStatus(code, message) => ErrorView::HTTPStatus(*code, message@),
        }
    }
}

/// How `warp::http::StatusCode` displays the status with number `code`:
/// the number and the reason phrase registered for it.
pub uninterp spec fn status_line(code: u16) -> Seq<char>;

/// The display form of an HTTP status code, where the number is one.
///
/// Trusted: `warp::http::StatusCode::from_u16` accepts exactly the numbers
/// from 100 to 999, and the display form of the status it returns depends
/// on that number alone.
#[verifier::external_body]
fn statusLine(code: u16) -> (line: Option<String>)
    ensures
        line is Some <==> 100 <= code < 1000,
        line matches Some(text) ==> text@ == status_line(code),
{
    match warp::http::StatusCode::from_u16(code) {
        Ok(status) => Some(status.to_string()),
        Err(_) => None,
    }
}

/// How a status code is written in messages: as HTTP displays it where it
/// is a status code, as a bare number otherwise.
pub open spec fn status_text(code: u16) -> Seq<char> {
    if 100 <= code < 1000 {
        status_line(code)
    } else {
        decimal(code as nat)
    }
}

impl ErrorView {
    /// The message the error carries.
    pub open spec fn message(self) -> Seq<char> {
        match self {
            ErrorView::DataError(message) => message,
            ErrorView::RuntimeError(message) => message,
            ErrorView::HTTPStatus(_, message) => message,
        }
    }

    /// The HTTP status with which a request that ran into this error is
    /// answered.
    pub open spec fn status_code(self) -> u16 {
        match self {
            ErrorView::DataError(_) => 500,
            ErrorView::RuntimeError(_) => 500,
            ErrorView::HTTPStatus(code, _) => code,
        }
    }

    /// The error written out for a log or a response body.
    pub open spec fn rendered(self) -> Seq<char> {
        match self {
            ErrorView::DataError(message) => "Data error: "@ + message,
            ErrorView::RuntimeError(message) => "Runtime error: "@ + message,
            ErrorView::HTTPStatus(code, message) => "HTTP status with code "@ + status_text(code)
                + ": "@ + message,
        }
    }
}

impl Error {
    /// The message the error carries.
    pub fn message(&self) -> (message: &str)
        ensures
            message@ == self@.message(),
    {
        match self {
            Error::DataError(message) => message.as_str(),
            Error::RuntimeError(message) => message.as_str(),
            Error::HTTPStatus(_, message) => message.as_str(),
        }
    }

    /// The HTTP status with which a request that ran into this error is
    /// answered: the one it names, or 500 for a failure of the server.
    pub fn statusCode(&self) -> (code: u16)
        ensures
            code == self@.status_code(),
    {
        match self {
            Error::DataError(_) => 500,
            Error::RuntimeError(_) => 500,
            Error::HTTPStatus(code, _) => *code,
        }
    }

    /// The error written out for a log or a response body.
    pub fn toString(&self) -> (text: String)
        ensures
            text@ == self@.rendered(),
    {
        match self {
            Error::DataError(message) => concatText("Data error: ", message.as_str()),
            Error::RuntimeError(message) => concatText("Runtime error: ", message.as_str()),
            Error::HTTPStatus(code, message) => {
                let status = match statusLine(*code) {
                    Some(line) => line,
                    None => decimalText(*code as u128),
                };
                let mut text = concatText("HTTP status with code ", status.as_str());
                text.append(": ");
                text.append(message.as_str());
                text
            },
        }
    }
}

} // verus!
