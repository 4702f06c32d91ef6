//! RGB colors with 8-bit channels: linear blending by a fixed-point
//! factor, intensity scaling, and packing for the framebuffer.

use vstd::prelude::*;
use crate::fixed::{
    fp_ok, tdiv, iabs, lerp_spec, fp_lerp, tdiv_i64, lemma_abs_mul_le, FP_ONE, FP_HALF, FP_LIM,
};

verus! {

#[derive(Clone, Copy, PartialEq, Eq, Structural, Debug)]
pub struct Color {
    pub r: u8,
    pub g: u8,
    pub b: u8,
}

/// A blend factor clamped into `[0, 1]`.
pub open spec fn clamp01_spec(t: int) -> int {
    if t < 0 {
        0
    } else if t > FP_ONE as int {
        FP_ONE as int
    } else {
        t
    }
}

/// One blended channel: `a + (b - a) * t` with the factor clamped
/// into `[0, 1]`.
pub open spec fn lerp_channel_spec(a: int, b: int, t: int) -> int {
    lerp_spec(a, b, clamp01_spec(t))
}

/// One intensity-scaled channel: `c * f`, clamped into `[0, 255]`.
pub open spec fn scale_channel_spec(c: int, f: int) -> int {
    let v = tdiv(c * f, FP_ONE as int);
    if v < 0 {
        0
    } else if v > 255 {
        255
    } else {
        v
    }
}

fn clamp01(t: i64) -> (r: i64)
    ensures
        r == clamp01_spec(t as int),
        0 <= r <= FP_ONE,
{
    if t < 0 {
        0
    } else if t > FP_ONE {
        FP_ONE
    } else {
        t
    }
}

fn lerp_channel(a: u8, b: u8, t: i64) -> (r: u8)
    ensures
        r == lerp_channel_spec(a as int, b as int, t as int),
{
    let tc: i64 = clamp01(t);
    let v: i64 = fp_lerp(a as i64, b as i64, tc);
    v as u8
}

fn scale_channel(c: u8, f: i64) -> (r: u8)
    requires
        fp_ok(f as int),
    ensures
        r == scale_channel_spec(c as int, f as int),
{
    proof {
        lemma_abs_mul_le(c as int, f as int, 255, FP_LIM as int);
    }
    let p: i64 = (c as i64) * f;
    let v: i64 = tdiv_i64(p, FP_ONE);
    if v < 0 {
        0
    } else if v > 255 {
        255
    } else {
        v as u8
    }
}

impl Color {
    pub fn new(r: u8, g: u8, b: u8) -> (c: Color)
        ensures
            c == (Color { r, g, b }),
    {
        Color { r, g, b }
    }

    /// Blend this color toward `other` by a fixed-point factor: each
    /// channel moves linearly from `self`'s value at factor 0 to
    /// `other`'s value at factor 1.
    pub fn lerp(&self, other: &Color, t: i64) -> (c: Color)
        ensures
            c.r == lerp_channel_spec(self.r as int, other.r as int, t as int),
            c.g == lerp_channel_spec(self.g as int, other.g as int, t as int),
            c.b == lerp_channel_spec(self.b as int, other.b as int, t as int),
    {
        Color {
            r: lerp_channel(self.r, other.r, t),
            g: lerp_channel(self.g, other.g, t),
            b: lerp_channel(self.b, other.b, t),
        }
    }

    /// Scale each channel by a fixed-point intensity, clamped to the
    /// channel range.
    pub fn scale(&self, f: i64) -> (c: Color)
        requires
            fp_ok(f as int),
        ensures
            c.r == scale_channel_spec(self.r as int, f as int),
            c.g == scale_channel_spec(self.g as int, f as int),
            c.b == scale_channel_spec(self.b as int, f as int),
    {
        Color {
            r: scale_channel(self.r, f),
            g: scale_channel(self.g, f),
            b: scale_channel(self.b, f),
        }
    }

    /// Pack into `0xRRGGBB`.
    pub fn to_hex(&self) -> (h: u32)
        ensures
            h == hex_spec(*self),
            h == self.r as int * 65536 + self.g as int * 256 + self.b as int,
    {
        (self.r as u32) * 65536 + (self.g as u32) * 256 + (self.b as u32)
    }

    pub fn is_black(&self) -> (z: bool)
        ensures
            z == (self.r == 0 && self.g == 0 && self.b == 0),
    {
        self.r == 0 && self.g == 0 && self.b == 0
    }
}

/// The packed `0xRRGGBB` value of a color.
pub open spec fn hex_spec(c: Color) -> u32 {
    (c.r as int * 65536 + c.g as int * 256 + c.b as int) as u32
}

/// Blending by factor 0 returns the first color exactly.
pub proof fn lemma_lerp_factor_zero(a: Color, b: Color)
    ensures
        lerp_channel_spec(a.r as int, b.r as int, 0) == a.r as int,
        lerp_channel_spec(a.g as int, b.g as int, 0) == a.g as int,
        lerp_channel_spec(a.b as int, b.b as int, 0) == a.b as int,
{
    lemma_lerp_channel_zero(a.r as int, b.r as int);
    lemma_lerp_channel_zero(a.g as int, b.g as int);
    lemma_lerp_channel_zero(a.b as int, b.b as int);
}

/// Blending by factor 1 returns the second color exactly.
pub proof fn lemma_lerp_factor_one(a: Color, b: Color)
    ensures
        lerp_channel_spec(a.r as int, b.r as int, FP_ONE as int) == b.r as int,
        lerp_channel_spec(a.g as int, b.g as int, FP_ONE as int) == b.g as int,
        lerp_channel_spec(a.b as int, b.b as int, FP_ONE as int) == b.b as int,
{
    lemma_lerp_channel_one(a.r as int, b.r as int);
    lemma_lerp_channel_one(a.g as int, b.g as int);
    lemma_lerp_channel_one(a.b as int, b.b as int);
}

/// Blending by factor 1/2 lands within one unit of the channel-wise
/// midpoint (integer truncation).
pub proof fn lemma_lerp_factor_half(a: Color, b: Color)
    ensures
        iabs(2 * lerp_channel_spec(a.r as int, b.r as int, FP_HALF as int) - (a.r as int + b.r as int)) <= 1,
        iabs(2 * lerp_channel_spec(a.g as int, b.g as int, FP_HALF as int) - (a.g as int + b.g as int)) <= 1,
        iabs(2 * lerp_channel_spec(a.b as int, b.b as int, FP_HALF as int) - (a.b as int + b.b as int)) <= 1,
{
    lemma_lerp_channel_half(a.r as int, b.r as int);
    lemma_lerp_channel_half(a.g as int, b.g as int);
    lemma_lerp_channel_half(a.b as int, b.b as int);
}

proof fn lemma_lerp_channel_zero(a: int, b: int)
    ensures
        lerp_channel_spec(a, b, 0) == a,
{
    assert(tdiv((b - a) * 0, FP_ONE as int) == 0) by {
        assert((b - a) * 0 == 0) by (nonlinear_arith);
    }
}

proof fn lemma_lerp_channel_one(a: int, b: int)
    ensures
        lerp_channel_spec(a, b, FP_ONE as int) == b,
{
    let d = b - a;
    let f = FP_ONE as int;
    if d >= 0 {
        assert(tdiv(d * f, f) == d * f / f);
        vstd::arithmetic::div_mod::lemma_div_by_multiple(d, f);
    } else {
        assert(d * f == -((-d) * f)) by (nonlinear_arith);
        assert(tdiv(d * f, f) == -((-d) * f / f));
        vstd::arithmetic::div_mod::lemma_div_by_multiple(-d, f);
    }
}

proof fn lemma_lerp_channel_half(a: int, b: int)
    ensures
        iabs(2 * lerp_channel_spec(a, b, FP_HALF as int) - (a + b)) <= 1,
{
    let d = b - a;
    let h = FP_HALF as int;
    assert(tdiv(d * h, FP_ONE as int) == tdiv(d, 2)) by {
        if d >= 0 {
            assert(d * h >= 0) by (nonlinear_arith)
                requires
                    d >= 0,
                    h > 0,
            ;
            assert(d * h / (FP_ONE as int) == d / 2) by {
                vstd::arithmetic::div_mod::lemma_div_denominator(d * h, h, 2);
                assert(d * h / h == d) by {
                    vstd::arithmetic::div_mod::lemma_div_by_multiple(d, h);
                }
                assert(h * 2 == FP_ONE as int);
            }
        } else {
            let e = -d;
            assert(d * h == -(e * h)) by (nonlinear_arith)
                requires
                    e == -d,
            ;
            assert(e * h >= 0) by (nonlinear_arith)
                requires
                    e >= 0,
                    h > 0,
            ;
            assert(e * h / (FP_ONE as int) == e / 2) by {
                vstd::arithmetic::div_mod::lemma_div_denominator(e * h, h, 2);
                assert(e * h / h == e) by {
                    vstd::arithmetic::div_mod::lemma_div_by_multiple(e, h);
                }
                assert(h * 2 == FP_ONE as int);
            }
        }
    }
    assert(iabs(2 * tdiv(d, 2) - d) <= 1) by {
        if d >= 0 {
            vstd::arithmetic::div_mod::lemma_fundamental_div_mod(d, 2);
            vstd::arithmetic::div_mod::lemma_mod_bound(d, 2);
        } else {
            vstd::arithmetic::div_mod::lemma_fundamental_div_mod(-d, 2);
            vstd::arithmetic::div_mod::lemma_mod_bound(-d, 2);
        }
    }
}

} // verus!
