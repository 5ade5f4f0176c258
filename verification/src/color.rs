//! Quantized 8-bit-per-channel pixel colors.

use vstd::prelude::*;
use crate::decimal::dec_of;
use crate::decimal::u32_to_decimal;
use vstd::string::StringExecFns;

verus! {

/// An 8-bit-per-channel color, the quantized form in which pixels are
/// emitted to an image encoder.
#[derive(Debug, Clone, Copy, PartialEq, Eq, Structural)]
pub struct Color {
    pub r: u8,
    pub g: u8,
    pub b: u8,
}

/// One channel of a linear interpolation between `a` and `b` at the
/// fraction `num / den`, rounded down.
pub open spec fn lerp_channel(a: u8, b: u8, num: int, den: int) -> int {
    (a * (den - num) + b * num) / den
}

/// The PPM text form of a color: the three channel values in decimal,
/// separated by single spaces.
pub open spec fn color_text(c: Color) -> Seq<char> {
    dec_of(c.r as nat) + seq![' '] + dec_of(c.g as nat) + seq![' '] + dec_of(c.b as nat)
}

impl Color {
    /// Builds a color from its three channels.
    pub fn new(r: u8, g: u8, b: u8) -> (c: Color)
        ensures
            c == (Color { r, g, b }),
    {
        Color { r, g, b }
    }

    /// The three channels as a tuple, red first.
    pub fn rgb(self) -> (t: (u8, u8, u8))
        ensures
            t == (self.r, self.g, self.b),
    {
        (self.r, self.g, self.b)
    }

    /// Linear interpolation from `self` (at `num == 0`) to `other`
    /// (at `num == den`), each channel rounded down.
    pub fn lerp(self, other: Color, num: u32, den: u32) -> (c: Color)
        requires
            0 < den,
            num <= den,
        ensures
            c.r == lerp_channel(self.r, other.r, num as int, den as int),
            c.g == lerp_channel(self.g, other.g, num as int, den as int),
            c.b == lerp_channel(self.b, other.b, num as int, den as int),
    {
        Color {
            r: lerp_channel_exec(self.r, other.r, num, den),
            g: lerp_channel_exec(self.g, other.g, num, den),
            b: lerp_channel_exec(self.b, other.b, num, den),
        }
    }

    /// The color's text form (`"r g b"`), as the image encoder prints it.
    pub fn to_string(self) -> (s: String)
        ensures
            s@ == color_text(self),
    {
        let mut s = u32_to_decimal(self.r as u32);
        s.append(" ");
        let g = u32_to_decimal(self.g as u32);
        s.append(g.as_str());
        s.append(" ");
        let b = u32_to_decimal(self.b as u32);
        s.append(b.as_str());
        proof {
            reveal_strlit(" ");
            assert(" "@ =~= seq![' ']);
            assert(s@ =~= color_text(self));
        }
        s
    }
}

impl Default for Color {
    /// Black, the color of an absorbed or depth-exhausted ray.
    fn default() -> (c: Color)
        ensures
            c == (Color { r: 0, g: 0, b: 0 }),
    {
        Color { r: 0, g: 0, b: 0 }
    }
}

/// Endpoints and midpoint of the interpolation: at fraction zero a
/// channel keeps the first color's value, at fraction one it takes the
/// second color's value, and at one half it is the rounded-down midpoint
/// of the two — so a gradient reproduces its two anchor colors exactly
/// and blends to their midpoint halfway between them.
pub proof fn lemma_lerp_endpoints(a: u8, b: u8, den: int)
    requires
        0 < den,
    ensures
        lerp_channel(a, b, 0, den) == a,
        lerp_channel(a, b, den, den) == b,
        lerp_channel(a, b, 1, 2) == (a + b) / 2,
{
    vstd::arithmetic::div_mod::lemma_div_multiples_vanish(a as int, den);
    vstd::arithmetic::div_mod::lemma_div_multiples_vanish(b as int, den);
    assert(a * (den - 0) + b * 0 == den * a) by (nonlinear_arith);
    assert(a * (den - den) + b * den == den * b) by (nonlinear_arith);
    assert(a * (2 - 1) + b * 1 == a + b) by (nonlinear_arith);
}

/// One channel of `Color::lerp`.
fn lerp_channel_exec(a: u8, b: u8, num: u32, den: u32) -> (c: u8)
    requires
        0 < den,
        num <= den,
    ensures
        c == lerp_channel(a, b, num as int, den as int),
{
    proof {
        assert(a as int * (den - num) as int <= 255 * 0xffff_ffff) by (nonlinear_arith)
            requires
                a <= 255,
                0 <= den - num <= 0xffff_ffff,
        ;
        assert(b as int * num as int <= 255 * 0xffff_ffff) by (nonlinear_arith)
            requires
                b <= 255,
                0 <= num <= 0xffff_ffff,
        ;
    }
    let wide: u64 = a as u64 * (den - num) as u64 + b as u64 * num as u64;
    let q: u64 = wide / den as u64;
    proof {
        lemma_lerp_channel_bounded(a as int, b as int, num as int, den as int);
    }
    q as u8
}

/// A lerped channel never leaves the 8-bit range: the weighted sum is at
/// most `255 * den`, so the quotient is at most `255`.
proof fn lemma_lerp_channel_bounded(a: int, b: int, num: int, den: int)
    requires
        0 <= a <= 255,
        0 <= b <= 255,
        0 < den,
        0 <= num <= den,
    ensures
        0 <= a * (den - num) + b * num <= 255 * den,
        0 <= (a * (den - num) + b * num) / den <= 255,
{
    assert(a * (den - num) + b * num <= 255 * den) by (nonlinear_arith)
        requires
            0 <= a <= 255,
            0 <= b <= 255,
            0 < den,
            0 <= num <= den,
    ;
    assert(a * (den - num) >= 0) by (nonlinear_arith)
        requires
            0 <= a,
            num <= den,
    ;
    assert(b * num >= 0) by (nonlinear_arith)
        requires
            0 <= b,
            0 <= num,
    ;
    assert((a * (den - num) + b * num) / den <= (255 * den) / den) by (nonlinear_arith)
        requires
            0 < den,
            0 <= a * (den - num) + b * num <= 255 * den,
    ;
    assert((255 * den) / den == 255) by (nonlinear_arith)
        requires
            0 < den,
    ;
}

} // verus!
