//! The platform device backends.
//!
//! The callback-driven backend ([`CpalAudioOutputImpl`]) owns the producer
//! side of the real shared ring buffer and blocks on it for backpressure;
//! its hardware callback is [`run_callback`], driven by the device thread
//! the harness installs.  The blocking-write backend ([`PulseAudioOutput`])
//! negotiates a channel map at open time — a source role with no target
//! position makes the whole map unrepresentable and the open fails — and
//! prepares the exact interleaved block the device connection writes.

use vstd::prelude::*;

use crate::clock::samples_per_sec;
use crate::clock::samples_per_sec_spec;
use crate::engine::process_output;
use crate::engine::step_notify;
use crate::engine::step_state;
use crate::engine::CallbackState;
use crate::engine::SampleOffsetEvent;
use crate::engine::VolumeControlEvent;
use crate::outside::rb_consumer;
use crate::outside::rb_new;
use crate::outside::rb_producer;
use crate::outside::rb_read;
use crate::outside::rb_write_blocking;
use crate::outside::try_recv_pending;
use crate::sample::OutputSample;
use crate::signal::interleave;
use crate::signal::interleaved_spec;
use crate::signal::layout_mappable;
use crate::signal::map_channels_to_pa_channelmap;
use crate::signal::pa_position_of;
use crate::signal::DecodedBuffer;
use crate::signal::PaPosition;
use crate::signal::SignalSpec;
use crate::sim::ring_capacity_spec;
use crate::AudioOutputError;
use vstd::slice::slice_subrange;

verus! {

/// The sample format a device exposes; formats the engine has no routine
/// for are driven through the float routine.
#[derive(Clone, Copy, Debug, PartialEq, Eq, Structural)]
pub enum SampleFormat {
    F32,
    I16,
    U16,
    Other,
}

/// Dispatcher for the callback-driven backend.
pub struct CpalAudioOutput;

impl CpalAudioOutput {
    /// The playback routine chosen for a device's native sample format:
    /// the format itself when a routine exists, the float routine
    /// otherwise.
    pub fn select_output_format(device_format: SampleFormat) -> (r: SampleFormat)
        ensures
            r == (match device_format {
                SampleFormat::F32 => SampleFormat::F32,
                SampleFormat::I16 => SampleFormat::I16,
                SampleFormat::U16 => SampleFormat::U16,
                SampleFormat::Other => SampleFormat::F32,
            }),
    {
        match device_format {
            SampleFormat::F32 => SampleFormat::F32,
            SampleFormat::I16 => SampleFormat::I16,
            SampleFormat::U16 => SampleFormat::U16,
            SampleFormat::Other => SampleFormat::F32,
        }
    }
}

/// A device's default output configuration, as the platform reports it.
#[derive(Clone, Copy, Debug, PartialEq, Eq, Structural)]
pub struct DeviceConfig {
    pub rate: u32,
    pub channels: usize,
}

impl DeviceConfig {
    pub open spec fn wf(self) -> bool {
        &&& self.rate >= 1
        &&& 1 <= self.channels <= 64
    }
}

/// The stream configuration the callback-driven backend negotiates: the
/// source spec's own rate and channel count, unless the platform requires
/// the device's default configuration.
pub open spec fn negotiated_config_spec(spec: SignalSpec, device_default: Option<
    DeviceConfig,
>) -> DeviceConfig {
    match device_default {
        Some(c) => c,
        None => DeviceConfig { rate: spec.rate, channels: spec.channels.count_spec() as usize },
    }
}

/// The callback-driven backend as the decode pipeline holds it: the
/// producer side of the shared ring plus the negotiated facts its writes
/// depend on.  The consumer side and the callback state live with the
/// device callback.
pub struct CpalAudioOutputImpl {
    pub ring_buf_producer: rb::Producer<i16>,
    pub channels: usize,
    pub max_frames: u64,
    pub needs_resampler: bool,
}

impl CpalAudioOutputImpl {
    /// Opens the callback-driven backend: negotiates the configuration,
    /// sizes the shared ring for 200 ms of audio at the negotiated rate and
    /// channel count, and hands back the producer-side backend, the
    /// consumer for the device callback, and the initial callback state.
    /// A stream whose source rate differs from the negotiated rate needs
    /// the external resampler; its backend says so and takes resampled
    /// samples through [`Self::write_interleaved`].
    ///
    /// Only a ring size the platform cannot represent is refused here; the
    /// device's own open and start failures are the harness's to report as
    /// [`AudioOutputError::OpenStreamError`] and
    /// [`AudioOutputError::PlayStreamError`].
    pub fn try_open(spec: &SignalSpec, duration: u64, device_default: Option<DeviceConfig>) -> (r:
        Result<(CpalAudioOutputImpl, rb::Consumer<i16>, CallbackState), AudioOutputError>)
        requires
            spec.wf(),
            device_default matches Some(c) ==> c.wf(),
        ensures
            r matches Ok(t) ==> {
                let config = negotiated_config_spec(*spec, device_default);
                &&& t.0.channels == config.channels
                &&& t.0.max_frames == duration
                &&& t.0.needs_resampler == (spec.rate != config.rate)
                &&& t.2.wf()
                &&& t.2.gain == crate::sample::DEFAULT_GAIN
                &&& t.2.offset == 0
                &&& t.2.elapsed == 0
                &&& t.2.samples_per_sec == samples_per_sec_spec(config.rate, config.channels)
            },
            ring_capacity_spec(
                negotiated_config_spec(*spec, device_default).rate,
                negotiated_config_spec(*spec, device_default).channels as int,
            ) < usize::MAX ==> r is Ok,
            r is Err ==> r == Err::<(CpalAudioOutputImpl, rb::Consumer<i16>, CallbackState),
                AudioOutputError,
            >(AudioOutputError::OpenStreamError),
    {
        let (rate, channels): (u32, usize) = match device_default {
            Some(c) => (c.rate, c.channels),
            None => (spec.rate, spec.channels.count()),
        };
        proof {
            assert((200 * rate as int / 1000) * channels as int <= (200 * 0xffff_ffff / 1000) * 64)
                by (nonlinear_arith)
                requires
                    rate <= 0xffff_ffff,
                    1 <= channels <= 64,
            ;
        }
        let ring_len64: u64 = 200u64 * (rate as u64) / 1000 * (channels as u64);
        if ring_len64 >= (usize::MAX as u64) {
            return Err(AudioOutputError::OpenStreamError);
        }
        let ring_len: usize = ring_len64 as usize;
        let ring = rb_new(ring_len);
        let producer = rb_producer(&ring);
        let consumer = rb_consumer(&ring);
        let state = CallbackState::new(samples_per_sec(rate, channels));
        let out = CpalAudioOutputImpl {
            ring_buf_producer: producer,
            channels,
            max_frames: duration,
            needs_resampler: spec.rate != rate,
        };
        Ok((out, consumer, state))
    }

    /// Writes one decoded block at the negotiated rate: a zero-frame block
    /// is a successful no-op; otherwise the block is interleaved and every
    /// sample is pushed into the shared ring in order, blocking on
    /// backpressure until the callback has drained enough space.  The ring
    /// write path itself cannot fail, so the write always succeeds; the
    /// conservation and ordering of the queued samples are proved on the
    /// sequential session model.
    pub fn write(&mut self, decoded: &DecodedBuffer<i16>) -> (r: Result<(), AudioOutputError>)
        requires
            decoded.wf(),
            decoded.planes@.len() == old(self).channels,
            1 <= old(self).channels,
            decoded.frames_spec() <= old(self).max_frames,
            decoded.frames_spec() * old(self).channels <= usize::MAX,
            !old(self).needs_resampler,
        ensures
            r is Ok || r == Err::<(), AudioOutputError>(AudioOutputError::StreamClosedError),
            decoded.frames_spec() == 0 ==> r is Ok,
            *final(self) == *old(self),
    {
        if decoded.frames() == 0 {
            return Ok(());
        }
        let samples = interleave(decoded);
        self.write_interleaved(&samples)
    }

    /// Writes a block of already-interleaved samples — the external
    /// resampler's output, or an interleaved block of [`Self::write`] —
    /// into the shared ring, whole and in order, blocking on backpressure.
    ///
    /// Each blocking push may store only part of the block; the loop
    /// offers the rest until everything is queued.  A push that stored
    /// nothing is a fruitless wakeup; after `u64::MAX` consecutive
    /// fruitless rounds the stream is reported closed instead of being
    /// waited on forever.
    pub fn write_interleaved(&mut self, samples: &Vec<i16>) -> (r: Result<(), AudioOutputError>)
        ensures
            r is Ok || r == Err::<(), AudioOutputError>(AudioOutputError::StreamClosedError),
            *final(self) == *old(self),
    {
        let total = samples.len();
        let mut start: usize = 0;
        let mut patience: u64 = u64::MAX;
        while start < total
            invariant
                start <= total,
                total == samples@.len(),
                self == old(self),
            decreases total - start, patience,
        {
            let remaining = slice_subrange(samples.as_slice(), start, total);
            match rb_write_blocking(&self.ring_buf_producer, remaining) {
                Some(written) => {
                    if written == 0 {
                        if patience == 0 {
                            return Err(AudioOutputError::StreamClosedError);
                        }
                        patience -= 1;
                    } else {
                        start += written;
                        patience = u64::MAX;
                    }
                },
                None => {
                    break ;
                },
            }
        }
        Ok(())
    }

    /// Drains what the external resampler still held (handed in by the
    /// caller, empty when the stream needed none) into the ring; the
    /// device pause that completes a flush is best-effort and the
    /// harness's.
    pub fn flush(&mut self, remaining: &Vec<i16>) -> (r: Result<(), AudioOutputError>)
        ensures
            r is Ok || r == Err::<(), AudioOutputError>(AudioOutputError::StreamClosedError),
            *final(self) == *old(self),
    {
        self.write_interleaved(remaining)
    }
}

/// What one callback invocation did, given which messages were drained and
/// how many samples the ring supplied: the state advanced by the engine's
/// step, the notification is the engine's edge-triggered one, and the
/// underrun tail of the slice is silence.
pub open spec fn callback_transition(
    s0: CallbackState,
    s1: CallbackState,
    len: int,
    d1: Seq<i16>,
    notify: Option<u64>,
    vmsg: Option<u32>,
    omsg: Option<u64>,
    written: int,
) -> bool {
    &&& 0 <= written <= len
    &&& (omsg matches Some(x) ==> x + len <= u64::MAX)
    &&& s1 == step_state(s0, vmsg, omsg, len)
    &&& notify == step_notify(s0, vmsg, omsg, len)
    &&& (forall|i: int| written <= i < len ==> d1[i] == <i16 as OutputSample>::mid_spec())
}

impl crate::AudioOutput for CpalAudioOutputImpl {
    open spec fn write_ready(&self, decoded: &DecodedBuffer<i16>) -> bool {
        &&& decoded.planes@.len() == self.channels
        &&& 1 <= self.channels
        &&& decoded.frames_spec() <= self.max_frames
        &&& decoded.frames_spec() * self.channels <= usize::MAX
        &&& !self.needs_resampler
    }

    fn write(&mut self, decoded: &DecodedBuffer<i16>) -> (r: Result<(), AudioOutputError>) {
        self.write(decoded)
    }

    /// Nothing buffers outside the ring on a stream that needed no
    /// resampler; the device pause that completes a flush is the
    /// harness's.
    fn flush(&mut self) {
        let remaining: Vec<i16> = Vec::new();
        let _ = self.flush(&remaining);
    }
}

/// One invocation of the hardware callback over the shared handles: drains
/// at most one pending message from each control channel, reads what the
/// ring buffer has into the output slice, and runs the engine step on it.
/// What was drained and how much the ring supplied depend on the
/// concurrent producer and control threads; whatever they were, the state
/// advances by exactly the engine's step for those messages, the
/// notification is the engine's edge-triggered one, and the underrun tail
/// of the slice is silence.  An offset override that could not be advanced
/// without exceeding the counter's range is ignored.
pub fn run_callback(
    state: &mut CallbackState,
    consumer: &rb::Consumer<i16>,
    volume_control_receiver: &tokio::sync::Mutex<std::sync::mpsc::Receiver<VolumeControlEvent>>,
    sample_offset_receiver: &tokio::sync::Mutex<std::sync::mpsc::Receiver<SampleOffsetEvent>>,
    data: &mut Vec<i16>,
) -> (notify: Option<u64>)
    requires
        old(state).wf(),
        old(state).offset + old(data)@.len() <= u64::MAX,
    ensures
        final(state).wf(),
        final(data)@.len() == old(data)@.len(),
        exists|vmsg: Option<u32>, omsg: Option<u64>, written: int|
            #[trigger] callback_transition(
                *old(state),
                *final(state),
                old(data)@.len() as int,
                final(data)@,
                notify,
                vmsg,
                omsg,
                written,
            ),
{
    let volume_event = try_recv_pending(volume_control_receiver);
    let vmsg: Option<u32> = match volume_event {
        Some(ev) => ev.volume,
        None => None,
    };
    let written = rb_read(consumer, data);
    let offset_event = try_recv_pending(sample_offset_receiver);
    let requested: Option<u64> = match offset_event {
        Some(ev) => ev.sample_offset,
        None => None,
    };
    let omsg: Option<u64> = match requested {
        Some(x) => if x <= u64::MAX - (data.len() as u64) {
            Some(x)
        } else {
            None
        },
        None => None,
    };
    let notify = process_output(data, written, vmsg, omsg, state);
    proof {
        assert(callback_transition(
            *old(state),
            *state,
            old(data)@.len() as int,
            data@,
            notify,
            vmsg,
            omsg,
            written as int,
        ));
    }
    notify
}

/// Opens the audio output for this platform family: the blocking-write
/// backend, negotiated for the given stream description.
pub fn try_open(spec: &SignalSpec, duration: u64) -> (r: Result<PulseAudioOutput, AudioOutputError>)
    ensures
        r is Ok <==> pulse_spec_valid(*spec),
        r matches Ok(o) ==> o.rate == spec.rate && o.max_frames == duration,
        r is Err ==> r == Err::<PulseAudioOutput, AudioOutputError>(
            AudioOutputError::OpenStreamError,
        ),
{
    PulseAudioOutput::try_open(spec, duration)
}

/// Whether the blocking-write backend can represent a stream description:
/// a positive rate, a channel count its sample spec accepts, and a channel
/// map in which every source role has a target position.
pub open spec fn pulse_spec_valid(spec: SignalSpec) -> bool {
    &&& spec.rate >= 1
    &&& 1 <= spec.channels.count_spec() <= 32
    &&& layout_mappable(spec.channels)
}

/// The blocking-write backend: a negotiated connection plan for platforms
/// whose API is a synchronous write of interleaved samples.
pub struct PulseAudioOutput {
    pub rate: u32,
    pub positions: Vec<PaPosition>,
    pub max_frames: u64,
}

impl PulseAudioOutput {
    /// Negotiates the connection: validates the sample spec and maps every
    /// channel role to a target position.  A role with no equivalent, a
    /// zero rate or a channel count outside the device's range fails the
    /// whole open with [`AudioOutputError::OpenStreamError`] and opens
    /// nothing — no partial stream is left behind.  `duration` is the
    /// largest decoded block one write may carry.
    pub fn try_open(spec: &SignalSpec, duration: u64) -> (r: Result<
        PulseAudioOutput,
        AudioOutputError,
    >)
        ensures
            r is Ok <==> pulse_spec_valid(*spec),
            r matches Ok(o) ==> {
                &&& o.rate == spec.rate
                &&& o.max_frames == duration
                &&& o.positions@.len() == spec.channels.count_spec()
                &&& forall|i: int|
                    0 <= i < o.positions@.len() ==> Some(#[trigger] o.positions@[i])
                        == pa_position_of(
                        spec.channels.roles@[i],
                        spec.channels.count_spec() == 1,
                    )
            },
            r is Err ==> r == Err::<PulseAudioOutput, AudioOutputError>(
                AudioOutputError::OpenStreamError,
            ),
    {
        let count = spec.channels.count();
        if spec.rate < 1 || count < 1 || count > 32 {
            return Err(AudioOutputError::OpenStreamError);
        }
        match map_channels_to_pa_channelmap(&spec.channels) {
            Some(positions) => Ok(
                PulseAudioOutput { rate: spec.rate, positions, max_frames: duration },
            ),
            None => Err(AudioOutputError::OpenStreamError),
        }
    }

    /// One blocking write: a zero-frame block is a successful no-op
    /// yielding nothing to send; otherwise the whole block, interleaved in
    /// channel order, is what the device connection writes synchronously.
    /// The connection's own write failure is the harness's to report as
    /// [`AudioOutputError::StreamClosedError`].
    pub fn write(&mut self, decoded: &DecodedBuffer<i16>) -> (r: Result<Vec<i16>, AudioOutputError>)
        requires
            decoded.wf(),
            decoded.planes@.len() == old(self).positions@.len(),
            1 <= old(self).positions@.len(),
            decoded.frames_spec() <= old(self).max_frames,
            decoded.frames_spec() * old(self).positions@.len() <= usize::MAX,
        ensures
            *final(self) == *old(self),
            r matches Ok(v) && v@ == interleaved_spec(
                decoded.planes@.map_values(|p: Vec<i16>| p@),
                decoded.frames_spec() as int,
                old(self).positions@.len() as int,
            ),
    {
        if decoded.frames() == 0 {
            let empty: Vec<i16> = Vec::new();
            proof {
                assert(empty@ =~= interleaved_spec(
                    decoded.planes@.map_values(|p: Vec<i16>| p@),
                    decoded.frames_spec() as int,
                    old(self).positions@.len() as int,
                ));
            }
            return Ok(empty);
        }
        Ok(interleave(decoded))
    }

    /// Flush is best-effort: the connection drain is issued by the
    /// harness and its result ignored; the plan itself has nothing to
    /// drain.
    pub fn flush(&mut self)
        ensures
            *final(self) == *old(self),
    {
    }
}

} // verus!
