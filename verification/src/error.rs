//! The ways a forwarded request can fail.

use vstd::prelude::*;

verus! {

/// Why a forwarded request produced no response.
#[derive(Clone, Copy, Debug, PartialEq, Eq, Structural)]
pub enum ErrorKind {
    /// The transport client could not be constructed.
    ClientInitFailed,
    /// The method token names no known HTTP verb.
    InvalidMethod,
    /// The exchange with the remote host did not complete.
    TransportFailed,
    /// A response header value or the response body is not decodable text.
    DecodeFailed,
}

impl ErrorKind {
    /// The text of the message shown to the caller for this failure.
    pub open spec fn spec_message(self) -> Seq<char> {
        match self {
            ErrorKind::ClientInitFailed => "Failed to create HTTP client."@,
            ErrorKind::InvalidMethod => "Invalid HTTP method."@,
            ErrorKind::TransportFailed => "Failed to send HTTP request."@,
            ErrorKind::DecodeFailed => "Failed to decode HTTP response."@,
        }
    }

    /// The short, fixed message shown to the caller for this failure.
    pub fn message(&self) -> (text: &'static str)
        ensures
            text@ == self.spec_message(),
    {
        match self {
            ErrorKind::ClientInitFailed => "Failed to create HTTP client.",
            ErrorKind::InvalidMethod => "Invalid HTTP method.",
            ErrorKind::TransportFailed => "Failed to send HTTP request.",
            ErrorKind::DecodeFailed => "Failed to decode HTTP response.",
        }
    }
}

} // verus!
