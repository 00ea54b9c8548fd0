//! One poll of the meter as a state machine: the caller performs each action
//! on the serial line and the wake pin and reports back what happened.

use vstd::prelude::*;
use crate::apdu::{DecodeError, DecodeFailure};
use crate::assembler::{AssemblerState, FrameAssembler, Progress, ProgressView};
use crate::decoder::{decode, decoded};
use crate::error::Error;
use crate::reading::{available_power, reading_of};

verus! {

/// How a poll ended.
#[derive(Debug, Clone, Copy, PartialEq, Eq, Structural)]
pub enum Outcome {
    /// The available power, in watts.
    Sample(i64),
    /// The frame that was read gave no reading.
    Failed(Error),
    /// The serial line failed, or the caller reported what the session did
    /// not ask for. The caller holds the cause.
    Transport,
}

/// Where a poll stands.
#[derive(Debug, Clone, Copy, PartialEq, Eq, Structural)]
pub enum Phase {
    /// No poll is under way.
    Idle,
    /// The serial input is being discarded.
    Clearing,
    /// The wake pin is being driven high.
    Raising,
    /// The wake pin is high and bytes are being read.
    Reading,
    /// The wake pin is being driven low; the poll ends with the outcome.
    Lowering(Outcome),
}

/// What the caller is to do next.
#[derive(Debug, Clone, Copy, PartialEq, Eq, Structural)]
pub enum Action {
    /// Discard the bytes queued in the serial input.
    ClearInput,
    /// Drive the wake pin high.
    RaiseWake,
    /// Read this many bytes from the serial line.
    Read { bytes: usize },
    /// Drive the wake pin low.
    LowerWake,
    /// The poll is over.
    Finish(Outcome),
}

/// What the caller reports.
#[derive(Debug)]
pub enum Event<'a> {
    /// A poll is asked for.
    Start,
    /// The last action was performed.
    Done,
    /// The last action failed.
    Failed,
    /// The bytes that the last read gave.
    Bytes(&'a [u8]),
}

/// The mathematical value of an [`Event`].
pub enum EventView {
    Start,
    Done,
    Failed,
    Bytes(Seq<u8>),
}

impl<'a> View for Event<'a> {
    type V = EventView;

    open spec fn view(&self) -> EventView {
        match *self {
            Event::Start => EventView::Start,
            Event::Done => EventView::Done,
            Event::Failed => EventView::Failed,
            Event::Bytes(bytes) => EventView::Bytes(bytes@),
        }
    }
}

/// The wake pin is high, or about to be driven high, in this phase.
pub open spec fn wake_raised(phase: Phase) -> bool {
    phase is Raising || phase is Reading
}

/// The error that stands for a decoding failure.
pub open spec fn error_of(failure: DecodeFailure) -> DecodeError {
    match failure {
        DecodeFailure::Incomplete { missing } => DecodeError::Incomplete {
            missing: missing as usize,
        },
        DecodeFailure::InvalidFormat => DecodeError::InvalidFormat,
        DecodeFailure::DecryptionFailed => DecodeError::DecryptionFailed,
    }
}

/// The sample that the information field `info` of a frame gives under `key`:
/// the field is deciphered and decoded, and the reading taken from the record.
pub open spec fn sample_of(info: Seq<u8>, key: Seq<u8>) -> Result<int, Error> {
    match decoded(info, key) {
        Ok(record) => reading_of(record),
        Err(failure) => Err(Error::Decode(error_of(failure))),
    }
}

/// The outcome of a poll that read a frame with the information field `info`.
pub open spec fn outcome_of(info: Seq<u8>, key: Seq<u8>) -> Outcome {
    match sample_of(info, key) {
        Ok(power) => Outcome::Sample(power as i64),
        Err(error) => Outcome::Failed(error),
    }
}

/// The mathematical state of a session.
pub struct SessionState {
    pub phase: Phase,
    pub assembler: AssemblerState,
    pub key: Seq<u8>,
}

impl SessionState {
    /// The state after `event`, and the action that answers it.
    ///
    /// A poll discards stale input, raises the wake pin, reads until a frame
    /// is whole, lowers the pin and ends. The frame is decoded once, and
    /// drained from the buffer after that. Once the pin is raised, every
    /// failure and every unexpected report leads to the pin being lowered
    /// before the poll ends.
    pub open spec fn step(self, event: EventView) -> (SessionState, Action) {
        match (self.phase, event) {
            (Phase::Idle, EventView::Start) => (
                SessionState {
                    phase: Phase::Clearing,
                    assembler: AssemblerState::empty(),
                    ..self
                },
                Action::ClearInput,
            ),
            (Phase::Clearing, EventView::Done) => (
                SessionState { phase: Phase::Raising, ..self },
                Action::RaiseWake,
            ),
            (Phase::Raising, EventView::Done) => self.take_in(Seq::empty()),
            (Phase::Reading, EventView::Bytes(bytes)) => self.take_in(bytes),
            (Phase::Lowering(outcome), _) => (
                SessionState { phase: Phase::Idle, ..self },
                Action::Finish(outcome),
            ),
            (Phase::Raising, _) | (Phase::Reading, _) => (
                SessionState { phase: Phase::Lowering(Outcome::Transport), ..self },
                Action::LowerWake,
            ),
            _ => (SessionState { phase: Phase::Idle, ..self }, Action::Finish(Outcome::Transport)),
        }
    }

    /// The state after `bytes` came in while the wake pin is high, and the
    /// action that follows.
    pub open spec fn take_in(self, bytes: Seq<u8>) -> (SessionState, Action) {
        let fed = self.assembler.feed(bytes);
        match self.assembler.feed_report(bytes) {
            ProgressView::NeedMore { bytes: missing } => (
                SessionState { phase: Phase::Reading, assembler: fed, ..self },
                Action::Read { bytes: missing as usize },
            ),
            ProgressView::Frame { info } => (
                SessionState {
                    phase: Phase::Lowering(outcome_of(info, self.key)),
                    assembler: fed.drain_frame(),
                    ..self
                },
                Action::LowerWake,
            ),
        }
    }
}

/// Deciphers and decodes the information field of one frame and takes the
/// available power from it.
pub fn read_sample(info: &[u8], key: &[u8; 16]) -> (r: Result<i64, Error>)
    ensures
        match r {
            Ok(power) => sample_of(info@, key@) == Ok::<int, Error>(power as int),
            Err(error) => sample_of(info@, key@) == Err::<int, Error>(error),
        },
{
    match decode(info, key) {
        Ok(record) => available_power(&record),
        Err(error) => Err(Error::Decode(error)),
    }
}

/// A session with one meter: the bytes buffered from its serial line and the
/// key that its messages are ciphered with.
pub struct MeterSession {
    phase: Phase,
    assembler: FrameAssembler,
    key: [u8; 16],
}

impl View for MeterSession {
    type V = SessionState;

    closed spec fn view(&self) -> SessionState {
        SessionState { phase: self.phase, assembler: self.assembler@, key: self.key@ }
    }
}

impl MeterSession {
    /// A session that holds `key` and has no poll under way.
    pub fn new(key: [u8; 16]) -> (r: Self)
        ensures
            r@.phase == Phase::Idle,
            r@.assembler == AssemblerState::empty(),
            r@.key == key@,
    {
        MeterSession { phase: Phase::Idle, assembler: FrameAssembler::new(), key }
    }

    /// Where the poll stands.
    pub fn phase(&self) -> (r: Phase)
        ensures
            r == self@.phase,
    {
        self.phase
    }

    fn take_in(&mut self, bytes: &[u8]) -> (r: Action)
        ensures
            (final(self)@, r) == old(self)@.take_in(bytes@),
    {
        match self.assembler.feed(bytes) {
            Progress::NeedMore { bytes: missing } => {
                self.phase = Phase::Reading;
                Action::Read { bytes: missing }
            },
            Progress::Frame { info } => {
                let outcome = match read_sample(info.as_slice(), &self.key) {
                    Ok(power) => Outcome::Sample(power),
                    Err(error) => Outcome::Failed(error),
                };
                self.assembler.drain_frame();
                self.phase = Phase::Lowering(outcome);
                Action::LowerWake
            },
        }
    }

    /// Takes in what the caller reports and says what to do next.
    pub fn step(&mut self, event: Event) -> (r: Action)
        ensures
            (final(self)@, r) == old(self)@.step(event@),
            r is Finish ==> !wake_raised(old(self)@.phase),
            wake_raised(old(self)@.phase) ==> r is Read || r is LowerWake,
            r is Finish <==> final(self)@.phase is Idle,
            r is RaiseWake <==> final(self)@.phase is Raising,
            r is LowerWake <==> final(self)@.phase is Lowering,
            r is Read <==> final(self)@.phase is Reading,
    {
        match (self.phase, event) {
            (Phase::Idle, Event::Start) => {
                self.assembler.clear();
                self.phase = Phase::Clearing;
                Action::ClearInput
            },
            (Phase::Clearing, Event::Done) => {
                self.phase = Phase::Raising;
                Action::RaiseWake
            },
            (Phase::Raising, Event::Done) => {
                let nothing: Vec<u8> = Vec::new();
                self.take_in(nothing.as_slice())
            },
            (Phase::Reading, Event::Bytes(bytes)) => self.take_in(bytes),
            (Phase::Lowering(outcome), _) => {
                self.phase = Phase::Idle;
                Action::Finish(outcome)
            },
            (Phase::Raising, _) | (Phase::Reading, _) => {
                self.phase = Phase::Lowering(Outcome::Transport);
                Action::LowerWake
            },
            _ => {
                self.phase = Phase::Idle;
                Action::Finish(Outcome::Transport)
            },
        }
    }
}

} // verus!
