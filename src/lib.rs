//! Guest-side SDK for an HTTP edge runtime: the marshalling layer between
//! ergonomic HTTP messages and the host's flat records, the wire format of
//! auxiliary service results, and the decisions taken on each host reply.

pub mod body;
pub mod bridge;
pub mod handler;
pub mod helper;
pub mod host;
pub mod http_client;
pub mod message;
pub mod proxywasm;
pub mod text;

use vstd::prelude::*;
use vstd::string::StringExecFns;
use crate::message::{Method, method_name};
use crate::text::{decimal, decimal_text};

verus! {

/// What converting or sending an HTTP message can fail with.
#[derive(Debug)]
pub enum Error {
    /// A method outside the set that the host carries.
    UnsupportedMethod(Method),
    /// The host's outbound call failed; its own description.
    BindgenHttpError(String),
    /// The message could not be built: a header or URI was refused.
    InvalidBody,
    /// A status outside 100 to 599.
    InvalidStatusCode(u16),
}

/// The text that describes `e`.
pub open spec fn error_text(e: Error) -> Seq<char> {
    match e {
        Error::UnsupportedMethod(m) => "method `"@ + method_name(m) + "` is not supported"@,
        Error::BindgenHttpError(detail) => "http error: "@ + detail@,
        Error::InvalidBody => "invalid http body"@,
        Error::InvalidStatusCode(code) => "invalid status code "@ + decimal(code as nat),
    }
}

impl Error {
    /// The text that describes the error.
    pub fn to_string(&self) -> (r: String)
        ensures
            r@ == error_text(*self),
    {
        match self {
            Error::UnsupportedMethod(m) => {
                let s = String::from_str("method `");
                let s = s.concat(m.as_str());
                s.concat("` is not supported")
            },
            Error::BindgenHttpError(detail) => {
                let s = String::from_str("http error: ");
                s.concat(detail.as_str())
            },
            Error::InvalidBody => String::from_str("invalid http body"),
            Error::InvalidStatusCode(code) => {
                let digits = decimal_text(*code as u32);
                let s = String::from_str("invalid status code ");
                s.concat(digits.as_str())
            },
        }
    }
}

} // verus!
