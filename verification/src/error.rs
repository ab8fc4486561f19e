//! The ways in which an operation fails.

use crate::status::{status_text, StatusCode};
use vstd::prelude::*;
use vstd::string::*;

verus! {

/// Why an operation did not give its result.
#[derive(Debug)]
pub enum Error {
    /// The exchange itself failed, or the body of a successful response could
    /// not be decoded; the text is the transport's own account of it.
    Request(String),
    /// The service answered with a status other than success.
    Api { status: StatusCode, message: String },
    /// The operation needs the client's token and the client has none.
    MissingToken,
    /// The arguments were refused before anything was sent.
    Validation(String),
}

impl Error {
    /// The sentence that `describe` writes.
    pub open spec fn description(&self) -> Seq<char> {
        match self {
            Error::Request(cause) => "HTTP request failed: "@ + cause@,
            Error::Api { status, message } => "API error ("@ + status_text(status@) + "): "@
                + message@,
            Error::MissingToken => "Token is required"@,
            Error::Validation(reason) => "Validation error: "@ + reason@,
        }
    }

    /// The error as one sentence for a person to read.
    pub fn describe(&self) -> (r: String)
        ensures
            r@ == self.description(),
    {
        match self {
            Error::Request(cause) => String::from_str("HTTP request failed: ").concat(
                cause.as_str(),
            ),
            Error::Api { status, message } => {
                let shown: String = status.to_text();
                String::from_str("API error (").concat(shown.as_str()).concat("): ").concat(
                    message.as_str(),
                )
            },
            Error::MissingToken => String::from_str("Token is required"),
            Error::Validation(reason) => String::from_str("Validation error: ").concat(
                reason.as_str(),
            ),
        }
    }
}

} // verus!
