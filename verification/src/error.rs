//! The error taxonomy shared by every call the library routes.

use crate::text::dec_digits;
use crate::text::i32_to_decimal;
use crate::text::signed_decimal;
use crate::text::u64_to_decimal;
use vstd::prelude::*;

verus! {

/// Why a decoded wire record could not be turned into a domain value.
#[derive(Debug, Clone, PartialEq)]
pub enum UnexpectedResponse {
    /// A wire record did not match any valid domain shape; the payload
    /// names the offending sub-structure.
    ConvertError(String),
    /// The wire record carried none of the recognized kind slots.
    Unsupported,
}

/// Every failure a call can end in: transport, timer, deadline,
/// serialization, an explicit remote-side error, a conversion failure
/// (with the raw response text kept for diagnosis), or a malformed
/// envelope.
#[derive(Debug, Clone, PartialEq)]
pub enum Error {
    /// The HTTP transport failed; the payload carries its description.
    Hyper(String),
    /// The timer driver failed; the payload carries its description.
    TokioTimer(String),
    /// The configured deadline elapsed first; the payload is the
    /// configured budget in seconds.
    TimedOut(u64),
    /// The response body was not valid JSON of the expected shape; the
    /// payload carries the decoder's description.
    Serde(String),
    /// The remote API answered `ok = false` with an explicit code and
    /// description, both kept verbatim.
    TelegramApi { error_code: i32, description: String },
    /// The envelope was well-formed and successful, but its payload did
    /// not convert to a domain value; the raw response text is attached.
    UnexpectedResponse { raw_response: String, kind: UnexpectedResponse },
    /// The envelope matched neither the success nor the failure shape.
    UnknownError(String),
}

/// The text describing a conversion failure, with the raw response
/// attached.
pub open spec fn unexpected_response_text(raw: Seq<char>, kind: UnexpectedResponse) -> Seq<char> {
    match kind {
        UnexpectedResponse::ConvertError(s) => "Convert from raw data to data model. "@ + s@
            + ". See raw_response:  "@ + raw,
        UnexpectedResponse::Unsupported => "Unsupported response. See raw_response: "@ + raw,
    }
}

/// The one-line description of each error.
pub open spec fn error_text(e: Error) -> Seq<char> {
    match e {
        Error::Hyper(s) => "Hyper error has occurred: "@ + s@,
        Error::TokioTimer(s) => "Tokio timer error has occurred: "@ + s@,
        Error::TimedOut(secs) => "Request timed out. Provided budget: "@ + dec_digits(secs as nat)
            + " seconds"@,
        Error::Serde(s) => "Serde error has occurred: "@ + s@,
        Error::TelegramApi { error_code, description } => {
            "Error response from telegram bot api: error_code: "@ + signed_decimal(
                error_code as int,
            ) + ", description: "@ + description@
        },
        Error::UnexpectedResponse { raw_response, kind } => unexpected_response_text(
            raw_response@,
            kind,
        ),
        Error::UnknownError(s) => "Unknown error has occurred: "@ + s@,
    }
}

impl Error {
    /// Renders the error as one line of text, exactly `error_text`.
    pub fn message(&self) -> (r: String)
        ensures
            r@ == error_text(*self),
    {
        match self {
            Error::Hyper(s) => {
                let mut out = String::from_str("Hyper error has occurred: ");
                out.append(s.as_str());
                out
            },
            Error::TokioTimer(s) => {
                let mut out = String::from_str("Tokio timer error has occurred: ");
                out.append(s.as_str());
                out
            },
            Error::TimedOut(secs) => {
                let mut out = String::from_str("Request timed out. Provided budget: ");
                let digits = u64_to_decimal(*secs);
                out.append(digits.as_str());
                out.append(" seconds");
                out
            },
            Error::Serde(s) => {
                let mut out = String::from_str("Serde error has occurred: ");
                out.append(s.as_str());
                out
            },
            Error::TelegramApi { error_code, description } => {
                let mut out = String::from_str(
                    "Error response from telegram bot api: error_code: ",
                );
                let code = i32_to_decimal(*error_code);
                out.append(code.as_str());
                out.append(", description: ");
                out.append(description.as_str());
                out
            },
            Error::UnexpectedResponse { raw_response, kind } => {
                let mut out = match kind {
                    UnexpectedResponse::ConvertError(s) => {
                        let mut out = String::from_str("Convert from raw data to data model. ");
                        out.append(s.as_str());
                        out.append(". See raw_response:  ");
                        out
                    },
                    UnexpectedResponse::Unsupported => {
                        String::from_str("Unsupported response. See raw_response: ")
                    },
                };
                out.append(raw_response.as_str());
                out
            },
            Error::UnknownError(s) => {
                let mut out = String::from_str("Unknown error has occurred: ");
                out.append(s.as_str());
                out
            },
        }
    }
}

} // verus!
