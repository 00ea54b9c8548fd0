//! The failures that the library reports.

use vstd::prelude::*;
use vstd::string::StringExecFns;
use crate::apdu::DecodeError;

verus! {

/// A failure of one poll of the meter or of one exchange with the charger.
#[derive(Debug, Clone, Copy, PartialEq, Eq, Structural)]
pub enum Error {
    /// The frame's information field could not be deciphered or decoded.
    Decode(DecodeError),
    /// The message is no data notification, or its body is no structure.
    InvalidApduFormat,
    /// The structure holds fewer magnitudes than a reading needs.
    InsufficientFields,
    /// The charger's status is not of the expected shape.
    InvalidStatusJson,
    /// The charger answered a command with a status that is no success.
    FailedRequest,
}

impl Error {
    /// The text that describes the failure.
    pub open spec fn message_text(self) -> Seq<char> {
        match self {
            Error::Decode(DecodeError::Incomplete { .. }) => "incomplete"@,
            Error::Decode(DecodeError::InvalidFormat) => "invalid format"@,
            Error::Decode(DecodeError::DecryptionFailed) => "decryption failed"@,
            Error::InvalidApduFormat => "invalid apdu format"@,
            Error::InsufficientFields => "insufficient fields"@,
            Error::InvalidStatusJson => "invalid JSON status"@,
            Error::FailedRequest => "failed request"@,
        }
    }

    /// Describes the failure in words.
    pub fn message(&self) -> (r: String)
        ensures
            r@ == self.message_text(),
    {
        let text: &str = match self {
            Error::Decode(DecodeError::Incomplete { .. }) => "incomplete",
            Error::Decode(DecodeError::InvalidFormat) => "invalid format",
            Error::Decode(DecodeError::DecryptionFailed) => "decryption failed",
            Error::InvalidApduFormat => "invalid apdu format",
            Error::InsufficientFields => "insufficient fields",
            Error::InvalidStatusJson => "invalid JSON status",
            Error::FailedRequest => "failed request",
        };
        String::from_str(text)
    }
}

} // verus!
