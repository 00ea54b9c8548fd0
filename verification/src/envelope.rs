//! The ciphered envelope of an application message: opened with the shared
//! key by the DLMS/COSEM library.

use vstd::prelude::*;
use crate::apdu::GENERAL_CIPHERING_TAG;

verus! {

/// The outcome of opening a ciphered envelope.
#[derive(Debug)]
pub enum Opened {
    /// The envelope was read and deciphered. `rest` is the number of bytes
    /// that follow it, `bytes` the deciphered content.
    Plain { rest: usize, bytes: Vec<u8> },
    /// The envelope breaks off. `hint` is the number of missing bytes, where
    /// the grammar can tell.
    Incomplete { hint: Option<usize> },
    /// The cipher refused the content.
    DecryptionFailed,
    /// The bytes are no envelope.
    Malformed,
}

/// The mathematical value of an [`Opened`].
pub enum OpenedView {
    Plain { rest: nat, bytes: Seq<u8> },
    Incomplete { hint: Option<nat> },
    DecryptionFailed,
    Malformed,
}

impl View for Opened {
    type V = OpenedView;

    open spec fn view(&self) -> OpenedView {
        match *self {
            Opened::Plain { rest, bytes } => OpenedView::Plain { rest: rest as nat, bytes: bytes@ },
            Opened::Incomplete { hint } => OpenedView::Incomplete {
                hint: match hint {
                    Some(n) => Some(n as nat),
                    None => None,
                },
            },
            Opened::DecryptionFailed => OpenedView::DecryptionFailed,
            Opened::Malformed => OpenedView::Malformed,
        }
    }
}

/// What `dlms_cosem::Apdu::parse` followed by the `decrypt` of the ciphered
/// message it read makes of `info` under `key`.
pub uninterp spec fn envelope_opened(info: Seq<u8>, key: Seq<u8>) -> OpenedView;

/// The envelope declares a length under 5: too short for the security header
/// that the length counts in.
pub open spec fn short_declared_length(info: Seq<u8>) -> bool {
    ||| info.len() > 10 && info[10] < 5
    ||| info.len() > 12 && info[10] == 0x82 && info[11] == 0 && info[12] < 5
}

/// The bytes can be handed to the envelope parser: they start with the tag of
/// a ciphered message and declare no length under 5.
pub open spec fn openable(info: Seq<u8>) -> bool {
    &&& info.len() > 0
    &&& info[0] == GENERAL_CIPHERING_TAG
    &&& !short_declared_length(info)
}

/// Calls `dlms_cosem::Apdu::parse` and, on the ciphered message it read,
/// `decrypt` with the key. The result is a function of the bytes and the key
/// alone and is named `envelope_opened`; nothing more is believed of it.
/// Bytes under another tag are kept away from the parser, which knows two
/// tags only, and so is a declared length under 5, from which it subtracts
/// the 5 bytes of the security header.
#[verifier::external_body]
fn open_envelope(info: &[u8], key: &[u8; 16]) -> (r: Opened)
    requires
        openable(info@),
    ensures
        r@ == envelope_opened(info@, key@),
{
    match dlms_cosem::Apdu::parse(info) {
        Ok((rest, dlms_cosem::Apdu::GeneralGloCiphering(ciphered))) => match ciphered.decrypt(
            &(*key).into(),
        ) {
            Ok(bytes) => Opened::Plain { rest: rest.len(), bytes },
            Err(_) => Opened::DecryptionFailed,
        },
        Err(nom::Err::Incomplete(nom::Needed::Size(n))) => Opened::Incomplete {
            hint: Some(n.get()),
        },
        Err(nom::Err::Incomplete(_)) => Opened::Incomplete { hint: None },
        _ => Opened::Malformed,
    }
}

fn has_short_declared_length(info: &[u8]) -> (r: bool)
    ensures
        r == short_declared_length(info@),
{
    (info.len() > 10 && info[10] < 5) || (info.len() > 12 && info[10] == 0x82 && info[11] == 0
        && info[12] < 5)
}

/// What opening `info` under `key` gives: bytes that do not start with the
/// tag of a ciphered message, or that declare a length under 5, are
/// malformed; the rest is for the DLMS/COSEM library to say.
pub open spec fn opened(info: Seq<u8>, key: Seq<u8>) -> OpenedView {
    if info.len() == 0 {
        OpenedView::Incomplete { hint: Some(1) }
    } else if openable(info) {
        envelope_opened(info, key)
    } else {
        OpenedView::Malformed
    }
}

/// Opens the ciphered envelope in `info` with `key`.
pub fn open(info: &[u8], key: &[u8; 16]) -> (r: Opened)
    ensures
        r@ == opened(info@, key@),
{
    if info.len() == 0 {
        Opened::Incomplete { hint: Some(1) }
    } else if info[0] == GENERAL_CIPHERING_TAG && !has_short_declared_length(info) {
        open_envelope(info, key)
    } else {
        Opened::Malformed
    }
}

} // verus!
