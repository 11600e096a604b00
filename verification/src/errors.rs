use vstd::prelude::*;

verus! {

/// Every failure the framing, codec and transport layers can report.
///
/// Single-frame decode errors are non-fatal to a session: the receive loop
/// logs them and retries, so a corrupted frame becomes a gap for the
/// acknowledgement algorithm to detect rather than a crash.
#[derive(PartialEq, Eq, Structural, Debug, Clone, Copy)]
pub enum FrameError {
    EmptyFrameError,
    InvalidErrorCode,
    LengthValueOutOfRange,
    NotEnoughBytes,
    RSSIValueOutOfRange,
    InvalidChecksum,
    InvalidCommandCode,
    InvalidCommandSequence,
    FailedToTransmitFrame,
    TransmissionTimedOut,
    ValueOutOfRange,
    InvalidUTF8,
    InvalidJson,
}

} // verus!
