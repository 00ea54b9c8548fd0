//! Assembly of link-layer frames from a byte stream that arrives in chunks,
//! with resynchronization by one byte on input that is no frame.

use vstd::prelude::*;
use vstd::slice::slice_subrange;
use crate::frame::{frame_parse, parse_frame, FrameParse, FrameParseView};

verus! {

/// The number of bytes to read after an incomplete parse: the grammar's hint,
/// or 1 where it gives none.
pub open spec fn bytes_to_request(hint: Option<nat>) -> nat {
    match hint {
        Some(n) => if n == 0 {
            1
        } else {
            n
        },
        None => 1,
    }
}

/// The mathematical state of a frame assembler.
pub struct AssemblerState {
    /// The bytes received and not yet consumed, oldest first.
    pub buffer: Seq<u8>,
    /// The number of bytes to read before the next parse.
    pub needed: nat,
    /// The length of the frame at the head of the buffer, 0 if none was found.
    pub frame_len: nat,
    /// The number of bytes dropped from the head since the last chunk came in.
    pub dropped: nat,
}

/// What the assembler reports after a chunk.
#[derive(Debug)]
pub enum Progress {
    /// A frame stands at the head of the buffer; `info` is its information
    /// field.
    Frame { info: Vec<u8> },
    /// At least `bytes` more bytes are needed.
    NeedMore { bytes: usize },
}

/// The mathematical value of a [`Progress`].
pub enum ProgressView {
    Frame { info: Seq<u8> },
    NeedMore { bytes: nat },
}

impl View for Progress {
    type V = ProgressView;

    open spec fn view(&self) -> ProgressView {
        match *self {
            Progress::Frame { info } => ProgressView::Frame { info: info@ },
            Progress::NeedMore { bytes } => ProgressView::NeedMore { bytes: bytes as nat },
        }
    }
}

/// Where the buffer stands once every byte that heads no frame is dropped.
pub struct Settled {
    /// The buffer that is left.
    pub buffer: Seq<u8>,
    /// The number of bytes dropped from the head.
    pub dropped: nat,
    /// What the grammar makes of the buffer that is left.
    pub outcome: FrameParseView,
}

/// Drops bytes from the head of `buffer`, one at a time, for as long as the
/// grammar rejects what is left.
pub open spec fn settle(buffer: Seq<u8>) -> Settled
    decreases buffer.len(),
{
    let outcome = frame_parse(buffer);
    if outcome.is_rejected() && buffer.len() > 0 {
        let later = settle(buffer.skip(1));
        Settled { dropped: later.dropped + 1, ..later }
    } else {
        Settled { buffer, dropped: 0, outcome }
    }
}

impl AssemblerState {
    /// The state of a new assembler.
    pub open spec fn empty() -> AssemblerState {
        AssemblerState { buffer: Seq::empty(), needed: 0, frame_len: 0, dropped: 0 }
    }

    /// The recorded frame lies within the buffer.
    pub open spec fn wf(self) -> bool {
        self.frame_len <= self.buffer.len()
    }

    /// The state after one parse of the buffer gave `parsed`.
    pub open spec fn step(self, parsed: FrameParseView) -> AssemblerState {
        match parsed {
            FrameParseView::Frame { rest, .. } => AssemblerState {
                needed: 0,
                frame_len: (self.buffer.len() - rest) as nat,
                ..self
            },
            FrameParseView::Incomplete { hint } => AssemblerState {
                needed: bytes_to_request(hint),
                frame_len: 0,
                ..self
            },
            _ => AssemblerState {
                buffer: self.buffer.skip(1),
                needed: 0,
                frame_len: 0,
                dropped: self.dropped + 1,
            },
        }
    }

    /// What one parse that gave `parsed` lets the assembler report: nothing
    /// where the head byte was dropped.
    pub open spec fn report(parsed: FrameParseView) -> Option<ProgressView> {
        match parsed {
            FrameParseView::Frame { info, .. } => Some(ProgressView::Frame { info }),
            FrameParseView::Incomplete { hint } => Some(
                ProgressView::NeedMore { bytes: bytes_to_request(hint) },
            ),
            _ => None,
        }
    }

    /// The state after the chunk `incoming` came in.
    pub open spec fn feed(self, incoming: Seq<u8>) -> AssemblerState {
        let settled = settle(self.buffer + incoming);
        AssemblerState {
            buffer: settled.buffer,
            needed: 0,
            frame_len: 0,
            dropped: settled.dropped,
        }.step(settled.outcome)
    }

    /// What the assembler reports after the chunk `incoming` came in.
    pub open spec fn feed_report(self, incoming: Seq<u8>) -> ProgressView {
        AssemblerState::report(settle(self.buffer + incoming).outcome).unwrap()
    }

    /// The state after the frame at the head was drained.
    pub open spec fn drain_frame(self) -> AssemblerState {
        let n = if self.frame_len <= self.buffer.len() {
            self.frame_len
        } else {
            self.buffer.len()
        };
        AssemblerState { buffer: self.buffer.skip(n as int), frame_len: 0, ..self }
    }
}

/// How a run of the assembler over a finite stream ends.
#[derive(Debug)]
pub enum Assembled {
    /// A frame was found after `read` bytes of the stream were taken in.
    Frame { info: Vec<u8>, read: usize },
    /// The stream could not supply the bytes asked for; `read` bytes of it
    /// were taken in before.
    EndOfStream { read: usize },
}

/// The mathematical value of an [`Assembled`].
pub enum AssembledView {
    Frame { info: Seq<u8>, read: nat },
    EndOfStream { read: nat },
}

impl View for Assembled {
    type V = AssembledView;

    open spec fn view(&self) -> AssembledView {
        match *self {
            Assembled::Frame { info, read } => AssembledView::Frame {
                info: info@,
                read: read as nat,
            },
            Assembled::EndOfStream { read } => AssembledView::EndOfStream { read: read as nat },
        }
    }
}

/// The run of the assembler from `state` over what is left of a stream, when
/// `request` bytes are to be read next and `read` bytes were read before:
/// read the bytes, take them in, and go on with the bytes then asked for until
/// a frame is found or the stream cannot supply a request.
pub open spec fn assemble(state: AssemblerState, stream: Seq<u8>, request: nat, read: nat) -> (
    AssemblerState,
    AssembledView,
)
    decreases stream.len(), (if request == 0 { 1int } else { 0int }),
{
    if request > stream.len() {
        (state, AssembledView::EndOfStream { read })
    } else {
        let chunk = stream.take(request as int);
        proof {
            lemma_settle(state.buffer + chunk);
        }
        match state.feed_report(chunk) {
            ProgressView::Frame { info } => (
                state.feed(chunk),
                AssembledView::Frame { info, read: read + request },
            ),
            ProgressView::NeedMore { bytes } => assemble(
                state.feed(chunk),
                stream.skip(request as int),
                bytes,
                read + request,
            ),
        }
    }
}

/// What is left after dropping is never rejected by the grammar, and the
/// bytes dropped and the bytes left make up the buffer.
pub proof fn lemma_settle(buffer: Seq<u8>)
    ensures
        !settle(buffer).outcome.is_rejected(),
        settle(buffer).outcome == frame_parse(settle(buffer).buffer),
        settle(buffer).dropped <= buffer.len(),
        settle(buffer).buffer == buffer.skip(settle(buffer).dropped as int),
    decreases buffer.len(),
{
    let outcome = frame_parse(buffer);
    if outcome.is_rejected() && buffer.len() > 0 {
        lemma_settle(buffer.skip(1));
        let later = settle(buffer.skip(1));
        assert(buffer.skip(1).skip(later.dropped as int) =~= buffer.skip(later.dropped as int + 1));
    } else {
        assert(buffer.skip(0) =~= buffer);
    }
}

/// Each corrupt byte before a frame costs exactly one resynchronization, and
/// the frame is recovered intact: if the grammar rejects the buffer at each of
/// its first `corrupt` alignments and not at the next, then exactly `corrupt`
/// bytes are dropped and the parse of what follows them stands.
pub proof fn law_resynchronization(buffer: Seq<u8>, corrupt: nat)
    requires
        corrupt <= buffer.len(),
        forall|j: int| 0 <= j < corrupt ==> (#[trigger] frame_parse(buffer.skip(j))).is_rejected(),
        !frame_parse(buffer.skip(corrupt as int)).is_rejected(),
    ensures
        settle(buffer).dropped == corrupt,
        settle(buffer).buffer == buffer.skip(corrupt as int),
        settle(buffer).outcome == frame_parse(buffer.skip(corrupt as int)),
    decreases corrupt,
{
    assert(buffer.skip(0) =~= buffer);
    if corrupt > 0 {
        let tail = buffer.skip(1);
        assert(frame_parse(buffer.skip(0)).is_rejected());
        assert forall|j: int| 0 <= j < corrupt - 1 implies (#[trigger] frame_parse(
            tail.skip(j),
        )).is_rejected() by {
            assert(tail.skip(j) =~= buffer.skip(j + 1));
        }
        assert(tail.skip(corrupt - 1) =~= buffer.skip(corrupt as int));
        law_resynchronization(tail, (corrupt - 1) as nat);
    }
}

/// A run over a finite stream ends, whatever the grammar answers, in one of
/// two ways. Either a frame was found: then it stands at the head of the
/// buffer, recorded by its length, and its information field is the one
/// reported. Or the stream could not supply a request: then more bytes are
/// needed than the stream had left. Either way no more bytes were read than
/// the stream holds.
pub proof fn law_assembly_ends(state: AssemblerState, stream: Seq<u8>, request: nat, read: nat)
    requires
        request == 0 || request == state.needed,
    ensures
        match assemble(state, stream, request, read) {
            (end, AssembledView::Frame { info, read: total }) => {
                &&& read <= total <= read + stream.len()
                &&& frame_parse(end.buffer) matches FrameParseView::Frame { rest, info: found }
                &&& found == info
                &&& end.frame_len == (end.buffer.len() - rest) as nat
            },
            (end, AssembledView::EndOfStream { read: total }) => {
                &&& read <= total <= read + stream.len()
                &&& end.needed > read + stream.len() - total
            },
        },
    decreases stream.len(), (if request == 0 { 1int } else { 0int }),
{
    if request <= stream.len() {
        let chunk = stream.take(request as int);
        lemma_settle(state.buffer + chunk);
        match state.feed_report(chunk) {
            ProgressView::Frame { info } => {},
            ProgressView::NeedMore { bytes } => {
                law_assembly_ends(
                    state.feed(chunk),
                    stream.skip(request as int),
                    bytes,
                    read + request,
                );
            },
        }
    }
}

/// Collects bytes that arrive in chunks and finds the frames in them.
pub struct FrameAssembler {
    buffer: Vec<u8>,
    bytes_needed: usize,
    frame_len: usize,
    dropped: usize,
}

impl View for FrameAssembler {
    type V = AssemblerState;

    closed spec fn view(&self) -> AssemblerState {
        AssemblerState {
            buffer: self.buffer@,
            needed: self.bytes_needed as nat,
            frame_len: self.frame_len as nat,
            dropped: self.dropped as nat,
        }
    }
}

impl FrameAssembler {
    /// An assembler with an empty buffer that asks for no bytes yet.
    pub fn new() -> (r: Self)
        ensures
            r@ == AssemblerState::empty(),
    {
        FrameAssembler { buffer: Vec::new(), bytes_needed: 0, frame_len: 0, dropped: 0 }
    }

    /// Forgets everything buffered.
    pub fn clear(&mut self)
        ensures
            final(self)@ == AssemblerState::empty(),
    {
        self.frame_len = 0;
        self.buffer.clear();
        self.bytes_needed = 0;
        self.dropped = 0;
    }

    /// The number of bytes to read before the next parse can get further.
    pub fn bytes_needed(&self) -> (r: usize)
        ensures
            r == self@.needed,
    {
        self.bytes_needed
    }

    /// The length of the frame found at the head of the buffer, 0 if none.
    pub fn frame_len(&self) -> (r: usize)
        ensures
            r == self@.frame_len,
    {
        self.frame_len
    }

    /// The number of bytes dropped from the head while the last chunk was
    /// taken in.
    pub fn dropped(&self) -> (r: usize)
        ensures
            r == self@.dropped,
    {
        self.dropped
    }

    /// The bytes received and not yet consumed.
    pub fn buffered(&self) -> (r: &[u8])
        ensures
            r@ == self@.buffer,
    {
        self.buffer.as_slice()
    }
}

impl FrameAssembler {
    /// Takes in what one parse of the buffer gave. A frame is recorded by its
    /// length and reported. After an incomplete parse the bytes to read are
    /// set, from the hint or to 1, and reported. After a rejected parse one
    /// byte is dropped from the head and nothing is reported: the caller
    /// parses again.
    pub fn apply(&mut self, parsed: FrameParse) -> (r: Option<Progress>)
        requires
            parsed matches FrameParse::Frame { rest, .. } ==> rest <= old(self)@.buffer.len(),
            parsed@.is_rejected() ==> old(self)@.buffer.len() > 0,
            parsed@.is_rejected() ==> old(self)@.dropped < usize::MAX,
        ensures
            final(self)@ == old(self)@.step(parsed@),
            final(self)@.wf(),
            match r {
                Some(progress) => AssemblerState::report(parsed@) == Some(progress@),
                None => AssemblerState::report(parsed@) is None,
            },
    {
        match parsed {
            FrameParse::Frame { rest, info } => {
                self.bytes_needed = 0;
                self.frame_len = self.buffer.len() - rest;
                Some(Progress::Frame { info })
            },
            FrameParse::Incomplete { hint } => {
                let bytes: usize = match hint {
                    Some(n) => if n == 0 {
                        1
                    } else {
                        n
                    },
                    None => 1,
                };
                self.bytes_needed = bytes;
                self.frame_len = 0;
                Some(Progress::NeedMore { bytes })
            },
            _ => {
                self.buffer.remove(0);
                assert(self.buffer@ =~= old(self).buffer@.skip(1));
                self.bytes_needed = 0;
                self.frame_len = 0;
                self.dropped = self.dropped + 1;
                None
            },
        }
    }

    /// Appends `incoming` to the buffer and parses. For as long as the grammar
    /// rejects the buffer, one byte is dropped from its head and the parse is
    /// tried again. Reports the frame that then stands at the head, or how
    /// many bytes are missing.
    pub fn feed(&mut self, incoming: &[u8]) -> (r: Progress)
        ensures
            final(self)@ == old(self)@.feed(incoming@),
            final(self)@.wf(),
            r@ == old(self)@.feed_report(incoming@),
            r matches Progress::NeedMore { bytes } ==> bytes >= 1,
    {
        self.buffer.extend_from_slice(incoming);
        self.dropped = 0;
        let total: usize = self.buffer.len();
        let ghost start = self.buffer@;
        loop
            invariant
                start == old(self)@.buffer + incoming@,
                start.len() == total,
                self.dropped + self.buffer@.len() == start.len(),
                settle(start).buffer == settle(self.buffer@).buffer,
                settle(start).outcome == settle(self.buffer@).outcome,
                settle(start).dropped == settle(self.buffer@).dropped + self.dropped,
            decreases self.buffer@.len(),
        {
            let parsed = parse_frame(self.buffer.as_slice());
            match self.apply(parsed) {
                Some(progress) => {
                    return progress;
                },
                None => {},
            }
        }
    }

    /// Runs the assembler over a finite stream: reads nothing at first, then
    /// as many bytes as each incomplete parse asks for, until a frame stands
    /// at the head of the buffer or the stream cannot supply a request. Every
    /// round but the first takes at least one byte from the stream, so the
    /// run ends.
    pub fn next_frame(&mut self, stream: &[u8]) -> (r: Assembled)
        ensures
            (final(self)@, r@) == assemble(old(self)@, stream@, 0, 0),
            final(self)@.wf(),
            r matches Assembled::Frame { read, .. } ==> read <= stream@.len(),
            r matches Assembled::EndOfStream { read } ==> read <= stream@.len(),
    {
        let mut pos: usize = 0;
        let mut request: usize = 0;
        self.frame_len = 0;
        proof {
            assert(stream@.skip(0) =~= stream@);
            assert(self@.feed(stream@.take(0)) == old(self)@.feed(stream@.take(0)));
        }
        loop
            invariant
                pos <= stream@.len(),
                self@.wf(),
                assemble(old(self)@, stream@, 0, 0) == assemble(
                    self@,
                    stream@.skip(pos as int),
                    request as nat,
                    pos as nat,
                ),
            decreases stream@.len() - pos, (if request == 0 { 1int } else { 0int }),
        {
            if request > stream.len() - pos {
                return Assembled::EndOfStream { read: pos };
            }
            let chunk = slice_subrange(stream, pos, pos + request);
            proof {
                assert(chunk@ =~= stream@.skip(pos as int).take(request as int));
                assert(stream@.skip(pos as int).skip(request as int) =~= stream@.skip(
                    pos + request,
                ));
            }
            pos = pos + request;
            match self.feed(chunk) {
                Progress::Frame { info } => {
                    return Assembled::Frame { info, read: pos };
                },
                Progress::NeedMore { bytes } => {
                    request = bytes;
                },
            }
        }
    }

    /// Drops the frame at the head of the buffer, once its information field
    /// has been used.
    pub fn drain_frame(&mut self)
        ensures
            final(self)@ == old(self)@.drain_frame(),
            final(self)@.wf(),
    {
        let n: usize = if self.frame_len <= self.buffer.len() {
            self.frame_len
        } else {
            self.buffer.len()
        };
        let rest = self.buffer.split_off(n);
        self.buffer = rest;
        self.frame_len = 0;
    }
}

} // verus!
