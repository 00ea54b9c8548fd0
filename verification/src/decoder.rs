//! From a frame's information field to the record it carries: the envelope
//! is opened with the shared key, and what it held is decoded.

use vstd::prelude::*;
use crate::apdu::{parse_record, record_of, DecodeError, DecodeFailure, Record, RecordView};
use crate::envelope::{open, opened, Opened, OpenedView};

verus! {

/// The record in an opened envelope. Bytes behind the envelope make the field
/// malformed. An envelope that breaks off is incomplete where the number of
/// missing bytes is known, malformed where it is not.
pub open spec fn record_of_opened(opened: OpenedView) -> Result<RecordView, DecodeFailure> {
    match opened {
        OpenedView::Plain { rest, bytes } => if rest != 0 {
            Err(DecodeFailure::InvalidFormat)
        } else {
            record_of(bytes)
        },
        OpenedView::Incomplete { hint: Some(missing) } => Err(
            DecodeFailure::Incomplete { missing },
        ),
        OpenedView::Incomplete { hint: None } => Err(DecodeFailure::InvalidFormat),
        OpenedView::DecryptionFailed => Err(DecodeFailure::DecryptionFailed),
        OpenedView::Malformed => Err(DecodeFailure::InvalidFormat),
    }
}

/// The record that the information field `info` carries under `key`.
pub open spec fn decoded(info: Seq<u8>, key: Seq<u8>) -> Result<RecordView, DecodeFailure> {
    record_of_opened(opened(info, key))
}

/// Decodes what an opened envelope held.
pub fn record_from(opened: Opened) -> (r: Result<Record, DecodeError>)
    ensures
        match r {
            Ok(record) => record_of_opened(opened@) == Ok::<RecordView, DecodeFailure>(record@),
            Err(error) => record_of_opened(opened@) == Err::<RecordView, DecodeFailure>(error@),
        },
{
    match opened {
        Opened::Plain { rest, bytes } => {
            if rest != 0 {
                Err(DecodeError::InvalidFormat)
            } else {
                parse_record(bytes.as_slice())
            }
        },
        Opened::Incomplete { hint: Some(missing) } => Err(DecodeError::Incomplete { missing }),
        Opened::Incomplete { hint: None } => Err(DecodeError::InvalidFormat),
        Opened::DecryptionFailed => Err(DecodeError::DecryptionFailed),
        Opened::Malformed => Err(DecodeError::InvalidFormat),
    }
}

/// Deciphers the information field of one frame with the shared key and
/// decodes the message in it. One pass: a failure is final for this field.
pub fn decode(info: &[u8], key: &[u8; 16]) -> (r: Result<Record, DecodeError>)
    ensures
        match r {
            Ok(record) => decoded(info@, key@) == Ok::<RecordView, DecodeFailure>(record@),
            Err(error) => decoded(info@, key@) == Err::<RecordView, DecodeFailure>(error@),
        },
{
    record_from(open(info, key))
}

} // verus!
