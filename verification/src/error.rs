//! Error taxonomy: conversion failures are local to one row/field and never
//! retried; transport failures are retryable; business errors carry the remote
//! status code and message verbatim and are terminal.

use vstd::prelude::*;
use crate::digits::int_text_of;
use crate::digits::i64_to_dec_string;

verus! {

#[derive(Debug, Clone, PartialEq, Eq)]
pub enum TushareError {
    /// Transport-level failure (connection refused, protocol error, ...).
    HttpError(String),
    /// Business-level error from the remote service: nonzero status code.
    ApiError { code: i32, message: String },
    /// A response body that could not be decoded.
    SerializationError(String),
    /// A cell or row that could not be converted to the requested type.
    ParseError(String),
    /// The transport timed out.
    TimeoutError,
    /// Missing or invalid credential.
    InvalidToken,
    /// Anything else.
    Other(String),
}

pub type TushareResult<T> = Result<T, TushareError>;

/// The one-line description that `message` renders for each variant.
pub open spec fn error_message_spec(e: TushareError) -> Seq<char> {
    match e {
        TushareError::HttpError(m) => "HTTP request error: "@ + m@,
        TushareError::ApiError { code, message } =>
            "API error (code: "@ + int_text_of(code as int) + "): "@ + message@,
        TushareError::SerializationError(m) => "Serialization error: "@ + m@,
        TushareError::ParseError(m) => "Parse error: "@ + m@,
        TushareError::TimeoutError => "Request timeout"@,
        TushareError::InvalidToken => "Invalid API Token"@,
        TushareError::Other(m) => "Other error: "@ + m@,
    }
}

impl TushareError {
    /// Renders the error as one line of text.
    pub fn message(&self) -> (r: String)
        ensures
            r@ == error_message_spec(*self),
    {
        match self {
            TushareError::HttpError(m) => {
                let mut out = "HTTP request error: ".to_owned();
                out.append(m.as_str());
                out
            },
            TushareError::ApiError { code, message } => {
                let mut out = "API error (code: ".to_owned();
                out.append(i64_to_dec_string(*code as i64).as_str());
                out.append("): ");
                out.append(message.as_str());
                out
            },
            TushareError::SerializationError(m) => {
                let mut out = "Serialization error: ".to_owned();
                out.append(m.as_str());
                out
            },
            TushareError::ParseError(m) => {
                let mut out = "Parse error: ".to_owned();
                out.append(m.as_str());
                out
            },
            TushareError::TimeoutError => "Request timeout".to_owned(),
            TushareError::InvalidToken => "Invalid API Token".to_owned(),
            TushareError::Other(m) => {
                let mut out = "Other error: ".to_owned();
                out.append(m.as_str());
                out
            },
        }
    }
}

/// Classifies a transport failure the way the transport reports it:
/// a timeout keeps its own variant, anything else is an HTTP error.
pub fn transport_error(is_timeout: bool, detail: String) -> (e: TushareError)
    ensures
        is_timeout ==> e is TimeoutError,
        !is_timeout ==> (e matches TushareError::HttpError(m) && m@ == detail@),
{
    if is_timeout {
        TushareError::TimeoutError
    } else {
        TushareError::HttpError(detail)
    }
}

} // verus!
