use vstd::prelude::*;
use vstd::string::*;
use crate::text::{decimal, decimal_digits, decimal_text, push_digits};

verus! {

/// A structured error that the server may send: a numeric code and a message.
#[derive(Clone, Debug, PartialEq, Eq)]
pub struct DatamaxiContentError {
    pub code: i16,
    pub msg: String,
}

/// Every way a call can fail.
///
/// The first seven kinds are the API's own; the others carry the message of a
/// failure below it (the network, a header, a read, a number, a URL, JSON, a
/// stream, the clock), which is passed on as it is.
#[derive(Clone, Debug, PartialEq, Eq)]
pub enum Error {
    /// A structured error sent by the server.
    DatamaxiError(DatamaxiContentError),
    /// The value `name` at position `index` is missing.
    ValueMissingError(usize, String),
    /// Status 400, with the start of the response body.
    BadRequest(String),
    /// Status 401.
    Unauthorized,
    /// Status 503.
    ServiceUnavailable,
    /// Status 500, with the start of the response body.
    InternalServerError(String),
    /// Any other status but 200.
    UnexpectedStatusCode(u16),
    /// The request could not be sent or its response not received.
    Request(String),
    /// The API key cannot stand in a header.
    InvalidHeader(String),
    /// The response could not be read.
    Io(String),
    /// A number could not be parsed.
    ParseFloat(String),
    /// The URL could not be parsed.
    UrlParse(String),
    /// The response body is not the JSON that was asked for.
    Json(String),
    /// A streaming connection failed.
    Streaming(String),
    /// The system clock could not be read.
    Timestamp(String),
}

/// The message of an error, for people to read.
pub open spec fn error_text(e: Error) -> Seq<char> {
    match e {
        Error::DatamaxiError(c) => "Server error "@ + decimal(c.code as int) + ": "@ + c.msg@,
        Error::ValueMissingError(index, name) => name@ + " at "@ + decimal_digits(index as nat)
            + " is missing"@,
        Error::BadRequest(m) => "Bad request: "@ + m@,
        Error::Unauthorized => "Unauthorized"@,
        Error::ServiceUnavailable => "Service unavailable"@,
        Error::InternalServerError(m) => "Internal server error: "@ + m@,
        Error::UnexpectedStatusCode(status) => "Received unexpected status code: "@ + decimal(
            status as int,
        ),
        Error::Request(m) => m@,
        Error::InvalidHeader(m) => m@,
        Error::Io(m) => m@,
        Error::ParseFloat(m) => m@,
        Error::UrlParse(m) => m@,
        Error::Json(m) => m@,
        Error::Streaming(m) => m@,
        Error::Timestamp(m) => m@,
    }
}

impl Error {
    /// The message of this error, for people to read.
    pub fn message(&self) -> (r: String)
        ensures
            r@ == error_text(*self),
    {
        match self {
            Error::DatamaxiError(c) => {
                let mut out = "Server error ".to_owned();
                out.append(decimal_text(c.code as i32).as_str());
                out.append(": ");
                out.append(c.msg.as_str());
                out
            },
            Error::ValueMissingError(index, name) => {
                let mut out = name.clone();
                out.append(" at ");
                push_digits(&mut out, *index as u64);
                out.append(" is missing");
                out
            },
            Error::BadRequest(m) => {
                let mut out = "Bad request: ".to_owned();
                out.append(m.as_str());
                out
            },
            Error::Unauthorized => "Unauthorized".to_owned(),
            Error::ServiceUnavailable => "Service unavailable".to_owned(),
            Error::InternalServerError(m) => {
                let mut out = "Internal server error: ".to_owned();
                out.append(m.as_str());
                out
            },
            Error::UnexpectedStatusCode(status) => {
                let mut out = "Received unexpected status code: ".to_owned();
                out.append(decimal_text(*status as i32).as_str());
                out
            },
            Error::Request(m) | Error::InvalidHeader(m) | Error::Io(m) | Error::ParseFloat(m)
            | Error::UrlParse(m) | Error::Json(m) | Error::Streaming(m) | Error::Timestamp(m) => {
                m.clone()
            },
        }
    }
}

} // verus!
