//! Audio-output engine for a desktop music player.
//!
//! Decoded PCM frames enter through an output facade, are interleaved (and
//! resampled by an external collaborator when the device rate differs), pass
//! through a fixed-capacity single-producer/single-consumer ring buffer, and
//! are consumed by a hardware-driven callback that applies the current volume
//! gain, fills underruns with silence, and keeps the playback clock that
//! drives whole-second timestamp notifications.

use vstd::prelude::*;

pub mod clock;
pub mod engine;
pub mod files;
pub mod outside;
pub mod output;
pub mod ring;
pub mod sample;
pub mod signal;
pub mod sim;

verus! {

/// The single interface the decode pipeline writes through, whichever
/// backend is behind it.  Each implementation says through
/// [`AudioOutput::write_ready`] when it can accept a block; a zero-frame
/// block is always a successful no-op.
pub trait AudioOutput {
    /// Whether the backend can accept this block now: its shape matches
    /// the negotiated stream and the backend has room for it.
    spec fn write_ready(&self, decoded: &signal::DecodedBuffer<i16>) -> bool;

    /// Writes one decoded block to the output.
    fn write(&mut self, decoded: &signal::DecodedBuffer<i16>) -> (r: Result<(), AudioOutputError>)
        requires
            decoded.wf(),
            old(self).write_ready(decoded),
        ensures
            decoded.frames_spec() == 0 ==> r is Ok,
    ;

    /// Stops accepting new audio, best-effort: drains what the stream
    /// still buffers and ignores device failures.
    fn flush(&mut self);
}

/// Failure of the audio-output subsystem.  A closed set of tags: context is
/// logged by the caller at the point of failure, never carried in the value.
#[derive(Clone, Copy, Debug, PartialEq, Eq, Structural)]
pub enum AudioOutputError {
    /// No output device was available, or the negotiated configuration
    /// (rate, channel map) was rejected at open time.
    OpenStreamError,
    /// The stream opened but playback could not be started.
    PlayStreamError,
    /// A previously healthy stream stopped accepting writes; the caller must
    /// treat the stream as dead and reopen.
    StreamClosedError,
}

} // verus!
