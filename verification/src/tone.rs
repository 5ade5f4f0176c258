//! Gamma correction: the square-root tone curve applied to each channel
//! of an averaged pixel color before it is handed to the image encoder.
//!
//! A channel `c` (an 8-bit value standing for the linear radiance
//! `c / 255`) maps to the largest 8-bit value `k` with
//! `k <= 255.99 * sqrt(c / 255)`. With `255.99 = 25599 / 100`, squaring
//! both sides gives the equivalent integer condition
//! `k * k * 2550000 <= c * 655308801`, where `2550000 = 255 * 100 * 100`
//! and `655308801 = 25599 * 25599`.

use vstd::prelude::*;
use crate::color::Color;

verus! {

/// `k` is the gamma-corrected value of the channel `c`: the largest
/// integer at most `255.99 * sqrt(c / 255)`.
pub open spec fn is_gamma_level(c: u8, k: nat) -> bool {
    k * k * 2550000 <= c * 655308801 && (k + 1) * (k + 1) * 2550000 > c * 655308801
}

/// Gamma-corrects one channel: the largest `k` with
/// `k <= 255.99 * sqrt(component / 255)`.
pub fn simple_gamma_on_component(component: u8) -> (k: u8)
    ensures
        is_gamma_level(component, k as nat),
{
    let target: u64 = component as u64 * 655308801;
    let mut k: u8 = 0;
    while k < 255
        invariant_except_break
            k <= 255,
            target == component as int * 655308801,
            (k as int) * (k as int) * 2550000 <= target,
        ensures
            k <= 255,
            target == component as int * 655308801,
            (k as int) * (k as int) * 2550000 <= target,
            k == 255 || (k + 1) * (k + 1) * 2550000 > target,
        decreases 255 - k,
    {
        let next: u64 = k as u64 + 1;
        proof {
            assert(next * next <= 65025) by (nonlinear_arith)
                requires
                    next <= 255,
            ;
        }
        let lhs: u64 = next * next * 2550000;
        if lhs <= target {
            k = k + 1;
        } else {
            break;
        }
    }
    proof {
        if k == 255 {
            assert(target <= 255 * 655308801);
            assert((k + 1) * (k + 1) * 2550000 > target);
        }
    }
    k
}

/// Gamma-corrects all three channels of a color.
pub fn simple_gamma_correction(color: Color) -> (c: Color)
    ensures
        is_gamma_level(color.r, c.r as nat),
        is_gamma_level(color.g, c.g as nat),
        is_gamma_level(color.b, c.b as nat),
{
    Color {
        r: simple_gamma_on_component(color.r),
        g: simple_gamma_on_component(color.g),
        b: simple_gamma_on_component(color.b),
    }
}

} // verus!
