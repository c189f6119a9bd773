//! The error taxonomy every query operation reports through.

use vstd::prelude::*;

use crate::render::{dec_digits, u32_dec};

verus! {

/// Why a query operation failed.
///
/// Every failure is returned, never thrown out-of-band, and nothing is
/// retried locally.
#[derive(Debug)]
pub enum Error {
    /// The server answered with a status outside the 2xx range; the code is
    /// carried and the response body is discarded.
    ApiError(u16),
    /// The transport failed (DNS, TCP, TLS, read or write, timeout); the
    /// underlying cause's message is carried.
    NetworkError(String),
    /// The server answered successfully but the body could not be decoded
    /// into the expected shape; the decoder's message is carried.
    ParsingError(String),
    /// An input was rejected before any request was issued; a free-form
    /// message is carried.
    OtherError(String),
}

impl Error {
    /// The user-visible message of each failure.
    pub open spec fn spec_message(self) -> Seq<char> {
        match self {
            Error::ApiError(code) => "API error: "@ + dec_digits(code as nat),
            Error::NetworkError(cause) => "Network error: "@ + cause@,
            Error::ParsingError(cause) => "Parsing error: "@ + cause@,
            Error::OtherError(message) => "Error: "@ + message@,
        }
    }

    /// Renders the user-visible message of this failure.
    pub fn message(&self) -> (s: String)
        ensures
            s@ == self.spec_message(),
    {
        match self {
            Error::ApiError(code) => {
                let digits = u32_dec(*code as u32);
                String::from_str("API error: ").concat(digits.as_str())
            },
            Error::NetworkError(cause) => String::from_str("Network error: ").concat(
                cause.as_str(),
            ),
            Error::ParsingError(cause) => String::from_str("Parsing error: ").concat(
                cause.as_str(),
            ),
            Error::OtherError(message) => String::from_str("Error: ").concat(message.as_str()),
        }
    }
}

} // verus!
