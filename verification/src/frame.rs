//! The link-layer grammar: what one attempt to read a frame from the head of
//! a byte sequence yields.

use vstd::prelude::*;

verus! {

/// The outcome of one attempt to read a frame from the head of a buffer.
#[derive(Debug)]
pub enum FrameParse {
    /// A whole frame stands at the head. `rest` is the number of bytes that
    /// follow it, `info` its information field (empty for a frame that carries
    /// none).
    Frame { rest: usize, info: Vec<u8> },
    /// The bytes are the beginning of a frame. `hint` is the number of missing
    /// bytes, where the grammar can tell.
    Incomplete { hint: Option<usize> },
    /// The head is no start marker.
    InvalidStart,
    /// The head starts a frame that is malformed: bad length, control field,
    /// checksum or stop marker.
    Invalid,
}

/// The mathematical value of a [`FrameParse`].
pub enum FrameParseView {
    Frame { rest: nat, info: Seq<u8> },
    Incomplete { hint: Option<nat> },
    InvalidStart,
    Invalid,
}

impl View for FrameParse {
    type V = FrameParseView;

    open spec fn view(&self) -> FrameParseView {
        match *self {
            FrameParse::Frame { rest, info } => FrameParseView::Frame {
                rest: rest as nat,
                info: info@,
            },
            FrameParse::Incomplete { hint } => FrameParseView::Incomplete {
                hint: match hint {
                    Some(n) => Some(n as nat),
                    None => None,
                },
            },
            FrameParse::InvalidStart => FrameParseView::InvalidStart,
            FrameParse::Invalid => FrameParseView::Invalid,
        }
    }
}

impl FrameParseView {
    /// The outcomes after which the head byte is dropped.
    pub open spec fn is_rejected(self) -> bool {
        self is InvalidStart || self is Invalid
    }
}

/// What `mbusparse::Telegram::parse` makes of `bytes`.
pub uninterp spec fn telegram_parse(bytes: Seq<u8>) -> FrameParseView;

/// A long-frame header whose length field is too small for the control and
/// address fields that every frame has.
pub open spec fn short_length_header(bytes: Seq<u8>) -> bool {
    &&& bytes.len() >= 4
    &&& bytes[0] == 0x68
    &&& bytes[1] == bytes[2]
    &&& bytes[3] == 0x68
    &&& bytes[1] < 2
}

/// The grammar of the link layer: an M-Bus telegram at the head of `bytes`.
/// Nothing can be said of an empty sequence but that bytes are missing, and a
/// long-frame header with a length under 2 is malformed.
pub open spec fn frame_parse(bytes: Seq<u8>) -> FrameParseView {
    if bytes.len() == 0 {
        FrameParseView::Incomplete { hint: None }
    } else if short_length_header(bytes) {
        FrameParseView::Invalid
    } else {
        telegram_parse(bytes)
    }
}

/// Calls `mbusparse::Telegram::parse`. The result is a function of the bytes
/// alone and is named `telegram_parse`. Believed of it: a telegram that was
/// read leaves fewer bytes than it was given, and a count of missing bytes is
/// at least 1. A long-frame header with a length under 2 is kept away from the
/// parser, which subtracts the two header fields from that length.
#[verifier::external_body]
fn parse_telegram(bytes: &[u8]) -> (r: FrameParse)
    requires
        !short_length_header(bytes@),
    ensures
        r@ == telegram_parse(bytes@),
        r matches FrameParse::Frame { rest, .. } ==> rest < bytes@.len(),
        r matches FrameParse::Incomplete { hint: Some(n) } ==> n >= 1,
{
    match mbusparse::Telegram::parse(bytes) {
        Ok((rest, mbusparse::Telegram::LongFrame { user_data, .. })) => FrameParse::Frame {
            rest: rest.len(),
            info: user_data.to_vec(),
        },
        Ok((rest, _)) => FrameParse::Frame { rest: rest.len(), info: Vec::new() },
        Err(mbusparse::Error::Incomplete(n)) => FrameParse::Incomplete { hint: n.map(|b| b.get()) },
        Err(mbusparse::Error::InvalidStartCharacter) => FrameParse::InvalidStart,
        Err(_) => FrameParse::Invalid,
    }
}

fn has_short_length_header(bytes: &[u8]) -> (r: bool)
    ensures
        r == short_length_header(bytes@),
{
    bytes.len() >= 4 && bytes[0] == 0x68 && bytes[1] == bytes[2] && bytes[3] == 0x68 && bytes[1]
        < 2
}

/// Tries to read one frame from the head of `bytes`.
pub fn parse_frame(bytes: &[u8]) -> (r: FrameParse)
    ensures
        r@ == frame_parse(bytes@),
        r matches FrameParse::Frame { rest, .. } ==> rest < bytes@.len(),
        r matches FrameParse::Incomplete { hint: Some(n) } ==> n >= 1,
        r@.is_rejected() ==> bytes@.len() > 0,
{
    if bytes.len() == 0 {
        FrameParse::Incomplete { hint: None }
    } else if has_short_length_header(bytes) {
        FrameParse::Invalid
    } else {
        parse_telegram(bytes)
    }
}

} // verus!
