//! A complete playback session over a simulated hardware sink.
//!
//! The session owns the sequential ring-buffer model, the callback state and
//! the two pending control slots (each "at most one pending message, last
//! writer wins").  The decode side calls [`SimulatedStream::write`]; the
//! simulated hardware drives [`SimulatedStream::callback`], which behaves
//! exactly like the real-time callback: it consumes at most one pending
//! message of each kind, scales by the gain in force, advances the playback
//! clock by the whole requested slice, mutes underruns, and reports
//! edge-triggered timestamps.
//!
//! Two ghost logs record every sample accepted from the decode pipeline and
//! every sample handed to the sink; well-formedness pins their relation:
//! accepted = delivered + pending, in order.  That is the conservation law —
//! the sink receives exactly the samples written, none dropped, none
//! duplicated, none reordered.

use vstd::prelude::*;

use crate::clock::samples_per_sec;
use crate::clock::samples_per_sec_spec;
use crate::engine::base_offset;
use crate::engine::process_output;
use crate::engine::step_notify;
use crate::engine::step_state;
use crate::engine::CallbackState;
use crate::engine::SampleOffsetEvent;
use crate::engine::VolumeControlEvent;
use crate::ring::RingBuffer;
use crate::sample::OutputSample;
use crate::signal::interleave;
use crate::signal::interleaved_spec;
use crate::signal::DecodedBuffer;
use crate::signal::SignalSpec;
use crate::AudioOutputError;

verus! {

/// The ring buffer is sized for a bounded latency window of 200 ms of audio
/// at the negotiated rate and channel count.
pub open spec fn ring_capacity_spec(rate: u32, channel_count: int) -> int {
    200 * rate / 1000 * channel_count
}

/// One open playback session against a simulated sink.
pub struct SimulatedStream {
    pub ring: RingBuffer<i16>,
    pub state: CallbackState,
    pub pending_volume: Option<u32>,
    pub pending_offset: Option<u64>,
    pub channels: usize,
    pub max_frames: u64,
    pub written_log: Ghost<Seq<i16>>,
    pub delivered_log: Ghost<Seq<i16>>,
}

impl SimulatedStream {
    pub open spec fn wf(self) -> bool {
        &&& self.ring.wf()
        &&& self.state.wf()
        &&& 1 <= self.channels <= 64
        &&& self.written_log@ == self.delivered_log@ + self.ring.view()
    }

    /// Opens a session for the given stream description.  `duration` is the
    /// largest decoded block (in frames) one write may carry, as negotiated
    /// with the decode pipeline at open time.
    ///
    /// The only way an open can fail is a buffer sizing the platform cannot
    /// represent; the simulated device accepts every well-formed spec.
    pub fn try_open(spec: &SignalSpec, duration: u64) -> (r: Result<
        SimulatedStream,
        AudioOutputError,
    >)
        requires
            spec.wf(),
        ensures
            r matches Ok(s) ==> {
                &&& s.wf()
                &&& s.ring.view() == Seq::<i16>::empty()
                &&& s.ring.capacity_spec() == ring_capacity_spec(
                    spec.rate,
                    spec.channels.count_spec() as int,
                )
                &&& s.state.gain == crate::sample::DEFAULT_GAIN
                &&& s.state.offset == 0
                &&& s.state.elapsed == 0
                &&& s.state.samples_per_sec == samples_per_sec_spec(
                    spec.rate,
                    spec.channels.count_spec() as usize,
                )
                &&& s.pending_volume is None
                &&& s.pending_offset is None
                &&& s.channels == spec.channels.count_spec()
                &&& s.max_frames == duration
                &&& s.written_log@ == Seq::<i16>::empty()
                &&& s.delivered_log@ == Seq::<i16>::empty()
            },
            ring_capacity_spec(spec.rate, spec.channels.count_spec() as int) <= usize::MAX
                ==> r is Ok,
            r is Err ==> r == Err::<SimulatedStream, AudioOutputError>(
                AudioOutputError::OpenStreamError,
            ),
    {
        let ch = spec.channels.count();
        proof {
            assert((200 * spec.rate as int / 1000) * ch as int <= (200 * 0xffff_ffff / 1000) * 64)
                by (nonlinear_arith)
                requires
                    spec.rate <= 0xffff_ffff,
                    1 <= ch <= 64,
            ;
        }
        let ring_len64: u64 = 200u64 * (spec.rate as u64) / 1000 * (ch as u64);
        if ring_len64 > (usize::MAX as u64) {
            return Err(AudioOutputError::OpenStreamError);
        }
        let ring_len: usize = ring_len64 as usize;
        let sps = samples_per_sec(spec.rate, ch);
        let s = SimulatedStream {
            ring: RingBuffer::new(ring_len),
            state: CallbackState::new(sps),
            pending_volume: None,
            pending_offset: None,
            channels: ch,
            max_frames: duration,
            written_log: Ghost(Seq::empty()),
            delivered_log: Ghost(Seq::empty()),
        };
        proof {
            assert(s.written_log@ =~= s.delivered_log@ + s.ring.view());
        }
        Ok(s)
    }

    /// The interleaving of a decoded block, as the session's contracts speak
    /// of it.
    pub open spec fn interleaved_of(self, decoded: DecodedBuffer<i16>) -> Seq<i16> {
        interleaved_spec(
            decoded.planes@.map_values(|p: Vec<i16>| p@),
            decoded.frames_spec() as int,
            self.channels as int,
        )
    }

    /// Writes one decoded block: a zero-frame block is a successful no-op
    /// that changes nothing; otherwise the block is interleaved and queued
    /// whole behind the samples already pending, in order.  The simulated
    /// sink never closes, so a write never fails.
    ///
    /// The capacity precondition is the backpressure seam: the producer may
    /// only hand over what the latency window can hold, and blocks (loops,
    /// in the simulation) on [`Self::write_chunk`] otherwise.
    pub fn write(&mut self, decoded: &DecodedBuffer<i16>) -> (r: Result<(), AudioOutputError>)
        requires
            old(self).wf(),
            decoded.wf(),
            decoded.planes@.len() == old(self).channels,
            decoded.frames_spec() <= old(self).max_frames,
            decoded.frames_spec() * old(self).channels <= old(self).ring.capacity_spec() - old(
                self,
            ).ring.view().len(),
        ensures
            r is Ok,
            final(self).wf(),
            decoded.frames_spec() == 0 ==> *final(self) == *old(self),
            final(self).ring.view() == old(self).ring.view() + old(self).interleaved_of(*decoded),
            final(self).written_log@ == old(self).written_log@ + old(self).interleaved_of(
                *decoded,
            ),
            final(self).delivered_log == old(self).delivered_log,
            final(self).state == old(self).state,
            final(self).pending_volume == old(self).pending_volume,
            final(self).pending_offset == old(self).pending_offset,
            final(self).channels == old(self).channels,
            final(self).max_frames == old(self).max_frames,
            final(self).ring.capacity_spec() == old(self).ring.capacity_spec(),
    {
        if decoded.frames() == 0 {
            proof {
                assert(old(self).interleaved_of(*decoded) =~= Seq::<i16>::empty());
                assert(self.ring.view() =~= self.ring.view() + old(self).interleaved_of(*decoded));
                assert(self.written_log@ =~= self.written_log@ + old(self).interleaved_of(
                    *decoded,
                ));
            }
            return Ok(());
        }
        let samples = interleave(decoded);
        let n = self.ring.push_slice(&samples, 0);
        proof {
            assert(samples@.subrange(0, n as int) =~= samples@);
        }
        self.written_log = Ghost(self.written_log@ + samples@);
        proof {
            assert(self.written_log@ =~= self.delivered_log@ + self.ring.view());
        }
        Ok(())
    }

    /// Queues as much of `samples[start..]` as the latency window can hold
    /// and reports how many samples were accepted.  This is the producer's
    /// blocking loop made explicit: a writer larger than the free space
    /// repeats the call as the consumer drains, and loses nothing.
    pub fn write_chunk(&mut self, samples: &Vec<i16>, start: usize) -> (n: usize)
        requires
            old(self).wf(),
            start <= samples@.len(),
        ensures
            final(self).wf(),
            n == vstd::math::min(
                samples@.len() - start,
                old(self).ring.capacity_spec() - old(self).ring.view().len(),
            ),
            final(self).ring.view() == old(self).ring.view() + samples@.subrange(
                start as int,
                start + n,
            ),
            final(self).written_log@ == old(self).written_log@ + samples@.subrange(
                start as int,
                start + n,
            ),
            final(self).delivered_log == old(self).delivered_log,
            final(self).state == old(self).state,
            final(self).pending_volume == old(self).pending_volume,
            final(self).pending_offset == old(self).pending_offset,
            final(self).channels == old(self).channels,
            final(self).max_frames == old(self).max_frames,
            final(self).ring.capacity_spec() == old(self).ring.capacity_spec(),
    {
        let n = self.ring.push_slice(samples, start);
        self.written_log = Ghost(self.written_log@ + samples@.subrange(start as int, start + n));
        proof {
            assert(self.written_log@ =~= self.delivered_log@ + self.ring.view());
        }
        n
    }

    /// A producer write larger than the free space — even larger than the
    /// whole latency window — completes by blocking on the consumer: each
    /// round offers the remainder, and when the window is full the
    /// consumer drains one period of `drain` samples before the producer
    /// is offered space again.  No sample is lost on the way: afterwards
    /// the accepted history has grown by exactly this block, and
    /// well-formedness places every one of those samples, in order, either
    /// with the sink or still pending.  The returned vector is what the
    /// consumer drained meanwhile: those delivered samples, in order,
    /// scaled by the gain in force.
    pub fn write_blocking(&mut self, samples: &Vec<i16>, drain: usize) -> (drained: Vec<i16>)
        requires
            old(self).wf(),
            1 <= drain <= old(self).ring.capacity_spec(),
            old(self).pending_volume is None,
            old(self).pending_offset is None,
            old(self).state.offset + samples@.len() * drain <= u64::MAX,
        ensures
            final(self).wf(),
            final(self).written_log@ == old(self).written_log@ + samples@,
            final(self).pending_volume is None,
            final(self).pending_offset is None,
            final(self).state.gain == old(self).state.gain,
            final(self).state.samples_per_sec == old(self).state.samples_per_sec,
            final(self).channels == old(self).channels,
            final(self).max_frames == old(self).max_frames,
            final(self).ring.capacity_spec() == old(self).ring.capacity_spec(),
            final(self).delivered_log@.len() == old(self).delivered_log@.len() + drained@.len(),
            forall|i: int|
                0 <= i < drained@.len() ==> drained@[i] == final(self).delivered_log@[old(
                    self,
                ).delivered_log@.len() + i].scaled_spec(old(self).state.gain),
    {
        let total = samples.len();
        let mut start: usize = 0;
        let mut drained: Vec<i16> = Vec::new();
        while start < total
            invariant
                start <= total,
                total == samples@.len(),
                1 <= drain,
                self.wf(),
                self.pending_volume is None,
                self.pending_offset is None,
                self.state.gain == old(self).state.gain,
                self.state.samples_per_sec == old(self).state.samples_per_sec,
                self.channels == old(self).channels,
                self.max_frames == old(self).max_frames,
                self.ring.capacity_spec() == old(self).ring.capacity_spec(),
                drain <= self.ring.capacity_spec(),
                self.written_log@ == old(self).written_log@ + samples@.subrange(0, start as int),
                self.state.offset + (total - start) * drain <= u64::MAX,
                self.delivered_log@.len() == old(self).delivered_log@.len() + drained@.len(),
                forall|i: int|
                    0 <= i < drained@.len() ==> drained@[i] == self.delivered_log@[old(
                        self,
                    ).delivered_log@.len() + i].scaled_spec(old(self).state.gain),
            decreases total - start,
        {
            proof {
                assert(drain <= (total - start) * drain) by (nonlinear_arith)
                    requires
                        1 <= drain,
                        1 <= total - start,
                ;
            }
            if self.ring.free() == 0 {
                let ghost ring_before = self.ring.view();
                let ghost log_before = self.delivered_log@;
                let (mut out, _) = self.callback(drain);
                proof {
                    assert(out@.len() == drain);
                    assert forall|i: int| 0 <= i < out@.len() implies out@[i] == self.delivered_log@[
                        log_before.len() + i
                    ].scaled_spec(old(self).state.gain) by {
                        assert(out@[i] == ring_before[i].scaled_spec(self.state.gain));
                        assert(self.delivered_log@[log_before.len() + i] == ring_before.take(
                            drain as int,
                        )[i]);
                    }
                }
                drained.append(&mut out);
            }
            proof {
                assert(self.ring.view().len() < self.ring.capacity_spec());
            }
            let accepted = self.write_chunk(samples, start);
            proof {
                assert(self.written_log@ =~= old(self).written_log@ + samples@.subrange(
                    0,
                    start + accepted,
                ));
                assert((total - (start + accepted)) * drain <= ((total - start) - 1) * drain)
                    by (nonlinear_arith)
                    requires
                        1 <= accepted,
                        0 <= drain,
                        accepted <= total - start,
                ;
                assert(((total - start) - 1) * drain + drain == (total - start) * drain)
                    by (nonlinear_arith);
            }
            start += accepted;
        }
        proof {
            assert(samples@.subrange(0, total as int) =~= samples@);
        }
        drained
    }

    /// Posts a volume-change request.  The slot keeps at most one pending
    /// request: a new value supersedes an unconsumed one (last writer wins);
    /// a request without a value is ignored.
    pub fn send_volume(&mut self, event: VolumeControlEvent)
        ensures
            final(self).pending_volume == (match event.volume {
                Some(g) => Some(g),
                None => old(self).pending_volume,
            }),
            final(self).ring == old(self).ring,
            final(self).state == old(self).state,
            final(self).pending_offset == old(self).pending_offset,
            final(self).channels == old(self).channels,
            final(self).max_frames == old(self).max_frames,
            final(self).written_log == old(self).written_log,
            final(self).delivered_log == old(self).delivered_log,
    {
        if let Some(g) = event.volume {
            self.pending_volume = Some(g);
        }
    }

    /// Posts a playback-offset override (seek); the slot behaves as for
    /// [`Self::send_volume`].
    pub fn send_offset(&mut self, event: SampleOffsetEvent)
        ensures
            final(self).pending_offset == (match event.sample_offset {
                Some(x) => Some(x),
                None => old(self).pending_offset,
            }),
            final(self).ring == old(self).ring,
            final(self).state == old(self).state,
            final(self).pending_volume == old(self).pending_volume,
            final(self).channels == old(self).channels,
            final(self).max_frames == old(self).max_frames,
            final(self).written_log == old(self).written_log,
            final(self).delivered_log == old(self).delivered_log,
    {
        if let Some(x) = event.sample_offset {
            self.pending_offset = Some(x);
        }
    }

    /// One hardware callback asking for `n` samples: consumes the pending
    /// control messages, takes what the ring buffer has (up to `n`, in
    /// order), scales it by the gain now in force, fills the underrun tail
    /// with silence, advances the playback clock by all `n` samples, and
    /// returns the output slice with the timestamp notification to emit, if
    /// any.
    pub fn callback(&mut self, n: usize) -> (r: (Vec<i16>, Option<u64>))
        requires
            old(self).wf(),
            base_offset(old(self).state.offset, old(self).pending_offset) + n <= u64::MAX,
        ensures
            final(self).wf(),
            final(self).state == step_state(
                old(self).state,
                old(self).pending_volume,
                old(self).pending_offset,
                n as int,
            ),
            r.1 == step_notify(
                old(self).state,
                old(self).pending_volume,
                old(self).pending_offset,
                n as int,
            ),
            final(self).pending_volume is None,
            final(self).pending_offset is None,
            r.0@.len() == n,
            ({
                let avail = vstd::math::min(n as int, old(self).ring.view().len() as int);
                &&& forall|i: int|
                    0 <= i < avail ==> r.0@[i] == old(self).ring.view()[i].scaled_spec(
                        final(self).state.gain,
                    )
                &&& forall|i: int|
                    avail <= i < n ==> r.0@[i] == <i16 as OutputSample>::mid_spec()
                &&& final(self).ring.view() == old(self).ring.view().skip(avail)
                &&& final(self).delivered_log@ == old(self).delivered_log@ + old(
                    self,
                ).ring.view().take(avail)
            }),
            final(self).written_log == old(self).written_log,
            final(self).channels == old(self).channels,
            final(self).max_frames == old(self).max_frames,
            final(self).ring.capacity_spec() == old(self).ring.capacity_spec(),
    {
        let vmsg = self.pending_volume;
        self.pending_volume = None;
        let omsg = self.pending_offset;
        self.pending_offset = None;
        let ghost old_ring = self.ring.view();
        let mut data = self.ring.read_front(n);
        let written = data.len();
        let ghost prefix = data@;
        while data.len() < n
            invariant
                written <= n,
                written == prefix.len(),
                written <= data@.len() <= n,
                data@.subrange(0, written as int) == prefix,
            decreases n - data@.len(),
        {
            data.push(0i16);
            proof {
                assert(data@.subrange(0, written as int) =~= prefix);
            }
        }
        let notify = process_output(&mut data, written, vmsg, omsg, &mut self.state);
        self.delivered_log = Ghost(self.delivered_log@ + old_ring.take(written as int));
        proof {
            assert(self.written_log@ =~= self.delivered_log@ + self.ring.view());
            assert forall|i: int| 0 <= i < written implies data@[i] == old_ring[i].scaled_spec(
                self.state.gain,
            ) by {
                assert(prefix[i] == old_ring[i]);
            }
        }
        (data, notify)
    }
}

impl crate::AudioOutput for SimulatedStream {
    open spec fn write_ready(&self, decoded: &DecodedBuffer<i16>) -> bool {
        &&& self.wf()
        &&& decoded.planes@.len() == self.channels
        &&& decoded.frames_spec() <= self.max_frames
        &&& decoded.frames_spec() * self.channels <= self.ring.capacity_spec()
            - self.ring.view().len()
    }

    fn write(&mut self, decoded: &DecodedBuffer<i16>) -> (r: Result<(), AudioOutputError>) {
        self.write(decoded)
    }

    /// The session buffers nothing outside the ring, which the simulated
    /// device drains; there is nothing to flush.
    fn flush(&mut self) {
    }
}

/// Conservation of samples: in every well-formed session, the samples
/// accepted from the decode pipeline are exactly the samples already handed
/// to the sink followed by the samples still pending, in order — none
/// dropped, none duplicated, none reordered.  Writes extend the accepted
/// log and callbacks move a prefix of the pending samples to the delivered
/// log, so the relation is invariant over any interleaving of the two.
pub proof fn lemma_sample_conservation(s: SimulatedStream)
    requires
        s.wf(),
    ensures
        s.written_log@ == s.delivered_log@ + s.ring.view(),
        s.written_log@.len() == s.delivered_log@.len() + s.ring.view().len(),
{
}

} // verus!
