//! The real-time callback engine.
//!
//! On every callback invocation the hardware hands the engine an output
//! slice whose prefix was filled from the ring buffer.  The engine applies
//! at most one pending volume message, applies the current gain to the
//! slice, applies at most one pending offset (seek) message, advances the
//! playback position by the whole slice length (underrun included), fills
//! the underrun tail with silence, and emits a timestamp notification
//! exactly when the whole-second value of the playback clock changes.
//!
//! [`process_output`] is that step; its effect on the state is the pure
//! function [`step_state`] and its notification is [`step_notify`], so the
//! laws about repeated volume messages, edge-triggered timestamps and seeks
//! are stated and proved over those functions.

use vstd::prelude::*;

use crate::clock::elapsed_seconds_spec;
use crate::clock::lemma_elapsed_monotonic;
use crate::sample::clamp_gain;
use crate::sample::clamp_gain_spec;
use crate::sample::OutputSample;
use crate::sample::GAIN_UNIT;

verus! {

/// A volume-change request from the control layer: the requested gain in
/// thousandths of unity, or nothing (a request without a value is ignored).
#[derive(Clone, Copy, Debug, PartialEq, Eq, Structural)]
pub struct VolumeControlEvent {
    pub volume: Option<u32>,
}

/// A playback-offset override (seek) from the control layer: the new
/// sample-frame offset, or nothing (an override without a value is ignored).
#[derive(Clone, Copy, Debug, PartialEq, Eq, Structural)]
pub struct SampleOffsetEvent {
    pub sample_offset: Option<u64>,
}

/// The state the callback context keeps across invocations: the gain in
/// force, the running interleaved-sample offset, the whole seconds already
/// reported, and the stream's time base.
#[derive(Clone, Copy, Debug, PartialEq, Eq, Structural)]
pub struct CallbackState {
    pub gain: u32,
    pub offset: u64,
    pub elapsed: u64,
    pub samples_per_sec: u64,
}

impl CallbackState {
    pub open spec fn wf(self) -> bool {
        &&& self.gain <= GAIN_UNIT
        &&& self.samples_per_sec >= 1
        &&& self.elapsed == elapsed_seconds_spec(self.offset, self.samples_per_sec)
    }

    /// The state a stream starts in: default gain, position zero.
    pub fn new(samples_per_sec: u64) -> (r: CallbackState)
        requires
            samples_per_sec >= 1,
        ensures
            r.wf(),
            r.gain == crate::sample::DEFAULT_GAIN,
            r.offset == 0,
            r.elapsed == 0,
            r.samples_per_sec == samples_per_sec,
    {
        CallbackState { gain: crate::sample::DEFAULT_GAIN, offset: 0, elapsed: 0, samples_per_sec }
    }
}

/// The gain in force after draining at most one volume message.
pub open spec fn gain_after(gain: u32, vmsg: Option<u32>) -> u32 {
    match vmsg {
        Some(req) => clamp_gain_spec(req),
        None => gain,
    }
}

/// The offset counting resumes from after draining at most one seek
/// message: the override if one is pending, the running offset otherwise.
pub open spec fn base_offset(offset: u64, omsg: Option<u64>) -> u64 {
    match omsg {
        Some(x) => x,
        None => offset,
    }
}

/// The callback state after one invocation that processed `n` samples.
pub open spec fn step_state(s: CallbackState, vmsg: Option<u32>, omsg: Option<u64>, n: int) -> CallbackState
    recommends
        s.samples_per_sec >= 1,
        base_offset(s.offset, omsg) + n <= u64::MAX,
{
    let offset = (base_offset(s.offset, omsg) + n) as u64;
    CallbackState {
        gain: gain_after(s.gain, vmsg),
        offset,
        elapsed: elapsed_seconds_spec(offset, s.samples_per_sec),
        samples_per_sec: s.samples_per_sec,
    }
}

/// The timestamp notification of one invocation: the new whole-second value
/// exactly when it differs from the one already reported, nothing otherwise.
pub open spec fn step_notify(s: CallbackState, vmsg: Option<u32>, omsg: Option<u64>, n: int) -> Option<u64> {
    let e = step_state(s, vmsg, omsg, n).elapsed;
    if e != s.elapsed {
        Some(e)
    } else {
        None
    }
}

/// The output slice after one invocation: the `written` samples supplied by
/// the ring buffer scaled by the gain in force, and the underrun tail filled
/// with silence.
pub open spec fn processed_seq<S: OutputSample>(data: Seq<S>, written: int, gain: u32) -> Seq<S> {
    Seq::new(data.len(), |i: int| if i < written { data[i].scaled_spec(gain) } else { S::mid_spec() })
}

/// One callback invocation over an output slice whose first `written`
/// samples came from the ring buffer: drains the two control messages,
/// scales, advances the clock, mutes the underrun tail, and returns the
/// timestamp notification to emit, if any.
///
/// Gain is applied to the whole slice before the tail is muted, so muted
/// samples are silence regardless of prior gain.
pub fn process_output<S: OutputSample>(
    data: &mut Vec<S>,
    written: usize,
    vmsg: Option<u32>,
    omsg: Option<u64>,
    state: &mut CallbackState,
) -> (notify: Option<u64>)
    requires
        written <= old(data)@.len(),
        old(state).wf(),
        base_offset(old(state).offset, omsg) + old(data)@.len() <= u64::MAX,
    ensures
        final(state).wf(),
        *final(state) == step_state(*old(state), vmsg, omsg, old(data)@.len() as int),
        notify == step_notify(*old(state), vmsg, omsg, old(data)@.len() as int),
        final(data)@ == processed_seq(old(data)@, written as int, final(state).gain),
{
    if let Some(req) = vmsg {
        state.gain = clamp_gain(req);
    }
    let gain = state.gain;

    let mut i: usize = 0;
    while i < data.len()
        invariant
            i <= data@.len(),
            data@.len() == old(data)@.len(),
            gain <= GAIN_UNIT,
            forall|k: int| 0 <= k < i ==> data@[k] == old(data)@[k].scaled_spec(gain),
            forall|k: int| i <= k < data@.len() ==> data@[k] == old(data)@[k],
        decreases data@.len() - i,
    {
        let s = data[i];
        data[i] = s.scaled(gain);
        i += 1;
    }

    if let Some(x) = omsg {
        state.offset = x;
    }
    state.offset = state.offset + (data.len() as u64);

    let next = state.offset / state.samples_per_sec;
    let notify = if next != state.elapsed {
        state.elapsed = next;
        Some(next)
    } else {
        None
    };

    let ghost scaled_view = data@;
    let mut j: usize = written;
    while j < data.len()
        invariant
            written <= j <= data@.len(),
            data@.len() == scaled_view.len(),
            forall|k: int| 0 <= k < written ==> data@[k] == scaled_view[k],
            forall|k: int| written <= k < j ==> data@[k] == S::mid_spec(),
            forall|k: int| j <= k < data@.len() ==> data@[k] == scaled_view[k],
        decreases data@.len() - j,
    {
        data[j] = S::mid();
        j += 1;
    }

    proof {
        let g = state.gain;
        let ps = processed_seq(old(data)@, written as int, g);
        assert forall|k: int| 0 <= k < data@.len() implies data@[k] == ps[k] by {
            if k < written as int {
                assert(data@[k] == scaled_view[k]);
                assert(scaled_view[k] == old(data)@[k].scaled_spec(g));
            } else {
                assert(data@[k] == S::mid_spec());
            }
        }
        assert(data@ =~= ps);
    }
    notify
}

/// Volume idempotence: once a requested gain is in force, sending the same
/// request again changes nothing — neither the state step, nor the
/// notification, nor a single bit of the processed output.
pub proof fn lemma_volume_idempotent<S: OutputSample>(
    s: CallbackState,
    req: u32,
    omsg: Option<u64>,
    n: int,
    data: Seq<S>,
    written: int,
)
    requires
        s.gain == clamp_gain_spec(req),
    ensures
        step_state(s, Some(req), omsg, n) == step_state(s, None, omsg, n),
        step_notify(s, Some(req), omsg, n) == step_notify(s, None, omsg, n),
        processed_seq(data, written, gain_after(s.gain, Some(req))) == processed_seq(
            data,
            written,
            s.gain,
        ),
{
    assert(gain_after(s.gain, Some(req)) == gain_after(s.gain, None));
}

/// Timestamp edge-triggering: while no seek is pending the clock never runs
/// backwards, a notification fires exactly when the whole-second value
/// changes, and the value it carries is strictly larger than the last one
/// reported.
pub proof fn lemma_timestamp_edge_trigger(s: CallbackState, vmsg: Option<u32>, n: int)
    requires
        s.wf(),
        0 <= n,
        s.offset + n <= u64::MAX,
    ensures
        step_state(s, vmsg, None, n).elapsed >= s.elapsed,
        step_notify(s, vmsg, None, n) is Some <==> step_state(s, vmsg, None, n).elapsed
            != s.elapsed,
        step_notify(s, vmsg, None, n) matches Some(e) ==> e == step_state(
            s,
            vmsg,
            None,
            n,
        ).elapsed && e > s.elapsed,
{
    lemma_elapsed_monotonic(s.offset, (s.offset + n) as u64, s.samples_per_sec);
}

/// A full second of samples always notifies: advancing by exactly the time
/// base moves the clock to the next whole second.
pub proof fn lemma_full_second_notifies(s: CallbackState, vmsg: Option<u32>)
    requires
        s.wf(),
        s.offset + s.samples_per_sec <= u64::MAX,
    ensures
        step_notify(s, vmsg, None, s.samples_per_sec as int) == Some((s.elapsed + 1) as u64),
{
    vstd::arithmetic::div_mod::lemma_div_plus_one(s.offset as int, s.samples_per_sec as int);
}

/// Seek: after an offset override to `x`, the position and the clock are
/// functions of `x` and the slice length alone — the pre-seek trajectory is
/// forgotten.
pub proof fn lemma_seek_overrides(
    s1: CallbackState,
    s2: CallbackState,
    vmsg: Option<u32>,
    x: u64,
    n: int,
)
    requires
        s1.samples_per_sec == s2.samples_per_sec,
        s1.samples_per_sec >= 1,
        0 <= n,
        x + n <= u64::MAX,
    ensures
        step_state(s1, vmsg, Some(x), n).offset == x + n,
        step_state(s1, vmsg, Some(x), n).offset == step_state(s2, vmsg, Some(x), n).offset,
        step_state(s1, vmsg, Some(x), n).elapsed == step_state(s2, vmsg, Some(x), n).elapsed,
        step_state(s1, vmsg, Some(x), n).elapsed == elapsed_seconds_spec(
            (x + n) as u64,
            s1.samples_per_sec,
        ),
{
}

} // verus!
