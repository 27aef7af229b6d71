//! Identifiers and errors of JSON-RPC messages.

use crate::text::{decimal, decimal_text};
use vstd::prelude::*;
use vstd::string::*;

verus! {

/// Error code of a batch request on a server that does not support them.
pub const BATCHES_NOT_SUPPORTED_CODE: i32 = -32005;

/// Error code of a batch request that holds too many entries.
pub const TOO_BIG_BATCH_REQUEST_CODE: i32 = -32010;

/// Error code of a message that is no JSON.
pub const PARSE_ERROR_CODE: i32 = -32700;

/// Error code of a message that is no request object.
pub const INVALID_REQUEST_CODE: i32 = -32600;

/// The id of a JSON-RPC message.
#[derive(Debug, Clone, PartialEq, Eq)]
pub enum Id {
    /// Null.
    Null,
    /// Numeric id.
    Number(u64),
    /// String id.
    Str(String),
}

/// What is wrong with a message that could not be dispatched.
#[derive(Debug, Clone, Copy, PartialEq, Eq, Structural)]
pub enum ErrorCode {
    /// The message is not valid JSON.
    ParseError,
    /// The message is not a request object.
    InvalidRequest,
}

impl ErrorCode {
    /// The number that stands for the error in a response.
    pub open spec fn spec_code(self) -> i32 {
        match self {
            ErrorCode::ParseError => PARSE_ERROR_CODE,
            ErrorCode::InvalidRequest => INVALID_REQUEST_CODE,
        }
    }

    /// The text that stands for the error in a response.
    pub open spec fn spec_message(self) -> Seq<char> {
        match self {
            ErrorCode::ParseError => "Parse error"@,
            ErrorCode::InvalidRequest => "Invalid request"@,
        }
    }

    /// The number that stands for the error in a response.
    pub fn code(&self) -> (r: i32)
        ensures
            r == self.spec_code(),
    {
        match self {
            ErrorCode::ParseError => PARSE_ERROR_CODE,
            ErrorCode::InvalidRequest => INVALID_REQUEST_CODE,
        }
    }

    /// The text that stands for the error in a response.
    pub fn message(&self) -> (r: &'static str)
        ensures
            r@ == self.spec_message(),
    {
        match self {
            ErrorCode::ParseError => "Parse error",
            ErrorCode::InvalidRequest => "Invalid request",
        }
    }
}

/// What an [`ErrorObject`] says.
#[verifier::ext_equal]
pub struct ErrorObjectView {
    pub code: i32,
    pub message: Seq<char>,
    pub data: Option<Seq<char>>,
}

/// The error member of a response.
#[derive(Debug, Clone, PartialEq, Eq)]
pub struct ErrorObject {
    /// Code.
    pub code: i32,
    /// Message.
    pub message: String,
    /// Further information, as a string.
    pub data: Option<String>,
}

impl View for ErrorObject {
    type V = ErrorObjectView;

    open spec fn view(&self) -> ErrorObjectView {
        ErrorObjectView {
            code: self.code,
            message: self.message@,
            data: match self.data {
                Some(data) => Some(data@),
                None => None,
            },
        }
    }
}

/// The error object of a code.
pub open spec fn error_of_code(code: ErrorCode) -> ErrorObjectView {
    ErrorObjectView { code: code.spec_code(), message: code.spec_message(), data: None }
}

/// The error object of a batch request on a server that does not support them.
pub open spec fn batches_not_supported_error() -> ErrorObjectView {
    ErrorObjectView {
        code: BATCHES_NOT_SUPPORTED_CODE,
        message: "Batched requests are not supported by this server"@,
        data: None,
    }
}

/// The error object of a batch request with more than `limit` entries.
pub open spec fn too_big_batch_error(limit: nat) -> ErrorObjectView {
    ErrorObjectView {
        code: TOO_BIG_BATCH_REQUEST_CODE,
        message: "The batch request was too large"@,
        data: Some("Exceeded max limit of "@ + decimal(limit)),
    }
}

impl ErrorObject {
    /// The error object of a code.
    pub fn from_code(code: ErrorCode) -> (r: Self)
        ensures
            r@ == error_of_code(code),
    {
        ErrorObject { code: code.code(), message: code.message().to_string(), data: None }
    }

    /// The error object of a batch request on a server that does not support them.
    pub fn batches_not_supported() -> (r: Self)
        ensures
            r@ == batches_not_supported_error(),
    {
        ErrorObject {
            code: BATCHES_NOT_SUPPORTED_CODE,
            message: "Batched requests are not supported by this server".to_string(),
            data: None,
        }
    }
}

/// The error object of a batch request with more than `limit` entries.
pub fn reject_too_big_batch_request(limit: usize) -> (r: ErrorObject)
    ensures
        r@ == too_big_batch_error(limit as nat),
{
    let mut data = "Exceeded max limit of ".to_string();
    data.append(decimal_text(limit).as_str());
    ErrorObject {
        code: TOO_BIG_BATCH_REQUEST_CODE,
        message: "The batch request was too large".to_string(),
        data: Some(data),
    }
}

} // verus!
