//! The playback clock: whole seconds elapsed, derived from the running
//! sample-frame counter through the stream's time base.
//!
//! The time base of a stream is `sample_rate * channel_count` interleaved
//! samples per second; elapsed time is the floor of `offset / time base`.
//! Notification of the UI is edge-triggered on the whole-second value, never
//! level-triggered: the engine emits at most one event per unique value.

use vstd::prelude::*;

verus! {

/// Whole seconds corresponding to `offset` interleaved samples.
pub open spec fn elapsed_seconds_spec(offset: u64, samples_per_sec: u64) -> u64
    recommends
        samples_per_sec >= 1,
{
    (offset as int / samples_per_sec as int) as u64
}

/// Computes the elapsed whole seconds for a sample offset.
pub fn elapsed_seconds(offset: u64, samples_per_sec: u64) -> (r: u64)
    requires
        samples_per_sec >= 1,
    ensures
        r == elapsed_seconds_spec(offset, samples_per_sec),
{
    offset / samples_per_sec
}

/// The time base of a stream: interleaved samples per second of wall-clock
/// time.
pub open spec fn samples_per_sec_spec(rate: u32, channel_count: usize) -> int {
    rate as int * channel_count as int
}

/// Computes the stream's time base from its negotiated rate and channel
/// count.
pub fn samples_per_sec(rate: u32, channel_count: usize) -> (r: u64)
    requires
        1 <= rate,
        1 <= channel_count <= 64,
    ensures
        r == samples_per_sec_spec(rate, channel_count),
        r >= 1,
{
    proof {
        assert(rate as int * channel_count as int <= 0xffff_ffff * 64) by (nonlinear_arith)
            requires
                rate <= 0xffff_ffff,
                channel_count <= 64,
        ;
        assert(rate as int * channel_count as int >= 1) by (nonlinear_arith)
            requires
                rate >= 1,
                channel_count >= 1,
        ;
    }
    (rate as u64) * (channel_count as u64)
}

/// The elapsed clock never runs backwards while the offset advances: more
/// samples can only mean the same or a later whole second.
pub proof fn lemma_elapsed_monotonic(a: u64, b: u64, samples_per_sec: u64)
    requires
        samples_per_sec >= 1,
        a <= b,
    ensures
        elapsed_seconds_spec(a, samples_per_sec) <= elapsed_seconds_spec(b, samples_per_sec),
{
    vstd::arithmetic::div_mod::lemma_div_is_ordered(a as int, b as int, samples_per_sec as int);
}

} // verus!
