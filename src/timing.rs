//! Conversions between durations and frame counts.

use vstd::prelude::*;

verus! {

/// Nanoseconds in one second.
pub const NANOS_PER_SECOND: u64 = 1_000_000_000;

/// The number of frames that `nanos` nanoseconds span at `rate` frames per
/// second, rounded to the nearest integer (halves round up).
pub open spec fn frames_in(rate: nat, nanos: nat) -> nat {
    ((rate * nanos + NANOS_PER_SECOND / 2) as int / (NANOS_PER_SECOND as int)) as nat
}

/// Computes `round(sample_rate * duration)` for a duration of `nanos`
/// nanoseconds.
pub fn frame_count(sample_rate: u32, nanos: u64) -> (r: u128)
    ensures
        r == frames_in(sample_rate as nat, nanos as nat),
{
    let rate = sample_rate as u128;
    let t = nanos as u128;
    assert(rate * t <= 0xffff_ffffu128 * 0xffff_ffff_ffff_ffffu128) by (nonlinear_arith)
        requires
            rate <= 0xffff_ffffu128,
            t <= 0xffff_ffff_ffff_ffffu128,
    ;
    let half: u128 = (NANOS_PER_SECOND / 2) as u128;
    (rate * t + half) / (NANOS_PER_SECOND as u128)
}

/// Rendering `nanos` nanoseconds at `rate` frames per second yields a number
/// of frames whose duration differs from the requested one by at most half a
/// frame: `|count / rate - nanos / 1e9| <= 1 / (2 * rate)`.
pub proof fn lemma_frame_count_within_half_frame(rate: nat, nanos: nat)
    ensures
        ({
            let count = frames_in(rate, nanos);
            let exact = rate * nanos;
            let scaled = count * NANOS_PER_SECOND;
            &&& 2 * scaled <= 2 * exact + NANOS_PER_SECOND
            &&& 2 * exact <= 2 * scaled + NANOS_PER_SECOND
        }),
{
    let d = NANOS_PER_SECOND as int;
    let x = rate * nanos + d / 2;
    let q = x / d;
    let r = x % d;
    assert(x == q * d + r && 0 <= r < d) by {
        vstd::arithmetic::div_mod::lemma_fundamental_div_mod(x, d);
    }
    assert(frames_in(rate, nanos) == q);
}

} // verus!
