//! Output sample formats and the volume gain applied to them.
//!
//! The gain is a fixed-point fraction of unity in thousandths (per-mille), so
//! that `GAIN_UNIT` leaves a sample unchanged up to rounding and `0` silences
//! it.  The default gain is half of unity.

use vstd::prelude::*;

verus! {

/// A gain of exactly 1.0: samples are scaled by `gain / GAIN_UNIT`.
pub const GAIN_UNIT: u32 = 1000;

/// The gain a stream starts with: 0.5.
pub const DEFAULT_GAIN: u32 = 500;

/// A sample format the output engine can drive: it has a defined silence
/// (midpoint) value and a multiplicative gain, both pinned by spec functions.
pub trait OutputSample: Sized + Copy {
    /// The format's silence value, used to fill underruns.
    spec fn mid_spec() -> Self;

    /// The sample scaled by `gain / GAIN_UNIT`, rounding toward zero
    /// magnitude.
    spec fn scaled_spec(self, gain: u32) -> Self;

    /// Silence for this format.
    fn mid() -> (r: Self)
        ensures
            r == Self::mid_spec(),
    ;

    /// Applies a multiplicative gain to this sample.
    fn scaled(self, gain: u32) -> (r: Self)
        requires
            gain <= GAIN_UNIT,
        ensures
            r == self.scaled_spec(gain),
    ;
}

impl OutputSample for i16 {
    open spec fn mid_spec() -> i16 {
        0
    }

    open spec fn scaled_spec(self, gain: u32) -> i16 {
        if self >= 0 {
            ((self as int) * (gain as int) / (GAIN_UNIT as int)) as i16
        } else {
            (0 - ((0 - self as int) * (gain as int) / (GAIN_UNIT as int))) as i16
        }
    }

    fn mid() -> (r: i16) {
        0
    }

    fn scaled(self, gain: u32) -> (r: i16) {
        let mag: u32 = if self >= 0 {
            self as u32
        } else {
            (-(self as i32)) as u32
        };
        assert(mag * gain <= 32768 * 1000) by (nonlinear_arith)
            requires
                mag <= 32768,
                gain <= 1000,
        ;
        let q: u32 = (mag * gain) / GAIN_UNIT;
        assert(q <= mag) by (nonlinear_arith)
            requires
                q == mag * gain / 1000,
                gain <= 1000,
        ;
        if self >= 0 {
            q as i16
        } else {
            (-(q as i32)) as i16
        }
    }
}

impl OutputSample for u16 {
    open spec fn mid_spec() -> u16 {
        32768
    }

    open spec fn scaled_spec(self, gain: u32) -> u16 {
        ((self as int) * (gain as int) / (GAIN_UNIT as int)) as u16
    }

    fn mid() -> (r: u16) {
        32768
    }

    fn scaled(self, gain: u32) -> (r: u16) {
        assert((self as u32) * gain <= 65535 * 1000) by (nonlinear_arith)
            requires
                self <= 65535,
                gain <= 1000,
        ;
        let q: u32 = ((self as u32) * gain) / GAIN_UNIT;
        assert(q <= self) by (nonlinear_arith)
            requires
                q == (self as u32) * gain / 1000,
                gain <= 1000,
        ;
        q as u16
    }
}

/// Caps a requested per-mille gain at unity, the upper bound of the volume
/// range.
pub fn clamp_gain(requested: u32) -> (r: u32)
    ensures
        r == clamp_gain_spec(requested),
        r <= GAIN_UNIT,
{
    if requested > GAIN_UNIT {
        GAIN_UNIT
    } else {
        requested
    }
}

/// The gain actually stored for a request: requests above unity are treated
/// as unity, since the volume state is a fraction of full scale.
pub open spec fn clamp_gain_spec(requested: u32) -> u32 {
    if requested > GAIN_UNIT {
        GAIN_UNIT
    } else {
        requested
    }
}

} // verus!
