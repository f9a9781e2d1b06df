//! Error taxonomy shared by every stage of a call.

use vstd::prelude::*;
use vstd::string::*;
use vstd::utf8::encode_utf8;

use crate::json::{json_quoted, json_string};

verus! {

/// Kind of a failure.
#[derive(Clone, Copy, Debug, PartialEq, Eq, Structural)]
pub enum ErrorCode {
    /// Unexpected failure, not caused by the caller's input
    Internal,
    /// Unknown or intentionally unhandled method
    NotImplemented,
    /// Malformed header, body or payload
    InvalidParam,
    /// The outbound transmission failed
    NoSend,
}

/// Wire name of an error kind (`SCREAMING_SNAKE_CASE`).
pub open spec fn code_name(code: ErrorCode) -> Seq<char> {
    match code {
        ErrorCode::Internal => "INTERNAL"@,
        ErrorCode::NotImplemented => "NOT_IMPLEMENTED"@,
        ErrorCode::InvalidParam => "INVALID_PARAM"@,
        ErrorCode::NoSend => "NO_SEND"@,
    }
}

/// HTTP status that carries an error of the given kind: 400 for what the
/// caller sent, 500 for failures on the serving side.
pub open spec fn code_status(code: ErrorCode) -> u16 {
    match code {
        ErrorCode::NotImplemented | ErrorCode::InvalidParam => 400,
        ErrorCode::Internal | ErrorCode::NoSend => 500,
    }
}

/// JSON text of an error: `{"code":"<NAME>","message":<string>}`.
pub open spec fn error_json(code: ErrorCode, message: Seq<char>) -> Seq<char> {
    "{\"code\":\""@ + code_name(code) + "\",\"message\":"@ + json_quoted(message) + "}"@
}

impl ErrorCode {
    /// Returns the wire name of this kind.
    pub fn name(&self) -> (r: &'static str)
        ensures
            r@ == code_name(*self),
    {
        match self {
            ErrorCode::Internal => "INTERNAL",
            ErrorCode::NotImplemented => "NOT_IMPLEMENTED",
            ErrorCode::InvalidParam => "INVALID_PARAM",
            ErrorCode::NoSend => "NO_SEND",
        }
    }

    /// Returns the HTTP status of a response that carries this kind.
    pub fn status(&self) -> (r: u16)
        ensures
            r == code_status(*self),
    {
        match self {
            ErrorCode::NotImplemented | ErrorCode::InvalidParam => 400,
            ErrorCode::Internal | ErrorCode::NoSend => 500,
        }
    }
}

/// A failure: its kind and a diagnostic message.
#[derive(Debug)]
pub struct Error {
    /// Kind
    pub code: ErrorCode,
    /// Message
    pub message: String,
}

impl Error {
    /// Instantiates a new [Error].
    pub fn new(code: ErrorCode, msg: &str) -> (r: Error)
        ensures
            r.code == code,
            r.message@ == msg@,
    {
        Error { code, message: msg.to_owned() }
    }

    /// An [ErrorCode::Internal] error.
    pub fn internal(msg: &str) -> (r: Error)
        ensures
            r.code == ErrorCode::Internal,
            r.message@ == msg@,
    {
        Error::new(ErrorCode::Internal, msg)
    }

    /// An [ErrorCode::NotImplemented] error.
    pub fn not_implemented(msg: &str) -> (r: Error)
        ensures
            r.code == ErrorCode::NotImplemented,
            r.message@ == msg@,
    {
        Error::new(ErrorCode::NotImplemented, msg)
    }

    /// An [ErrorCode::InvalidParam] error.
    pub fn invalid_body(msg: &str) -> (r: Error)
        ensures
            r.code == ErrorCode::InvalidParam,
            r.message@ == msg@,
    {
        Error::new(ErrorCode::InvalidParam, msg)
    }

    /// An [ErrorCode::NoSend] error.
    pub fn no_send(msg: &str) -> (r: Error)
        ensures
            r.code == ErrorCode::NoSend,
            r.message@ == msg@,
    {
        Error::new(ErrorCode::NoSend, msg)
    }

    /// Encodes this error as the UTF-8 bytes of its JSON text.
    pub fn to_json(&self) -> (r: Vec<u8>)
        ensures
            r@ == encode_utf8(error_json(self.code, self.message@)),
    {
        let quoted = json_string(self.message.as_str());
        let text = String::from_str("{\"code\":\"").concat(self.code.name()).concat(
            "\",\"message\":",
        ).concat(quoted.as_str()).concat("}");
        text.as_str().as_bytes_vec()
    }
}

} // verus!
