use vstd::prelude::*;

use crate::remap::Fraction;

verus! {

/// A scene-linear color in the working space: each channel is the exact value
/// `channel / den`. Values are not bounded above.
#[derive(Debug, Clone, Copy, PartialEq, Eq)]
pub struct LinearColor {
    pub r: i128,
    pub g: i128,
    pub b: i128,
    pub den: i128,
}

impl LinearColor {
    /// The shared denominator is positive.
    pub open spec fn wf(self) -> bool {
        self.den > 0
    }

    /// A color with whole-number channels.
    pub fn new(r: i128, g: i128, b: i128) -> (c: LinearColor)
        ensures
            c == (LinearColor { r, g, b, den: 1 }),
            c.wf(),
    {
        LinearColor { r, g, b, den: 1 }
    }
}

pub open spec fn in_i128(v: int) -> bool {
    i128::MIN <= v <= i128::MAX
}

/// One channel of `a + t * (b - a)`, with `a = a_num / a_den`, `b = b_num / b_den`,
/// written over the denominator `a_den * b_den * t.den`.
pub open spec fn lerp_channel(a_num: int, a_den: int, b_num: int, b_den: int, t: Fraction) -> int {
    a_num * b_den * t.den + t.num * (b_num * a_den - a_num * b_den)
}

/// Every intermediate of `lerp_channel` fits in an `i128`.
pub open spec fn lerp_channel_fits(a_num: int, a_den: int, b_num: int, b_den: int, t: Fraction) -> bool {
    &&& in_i128(a_num * b_den)
    &&& in_i128(b_num * a_den)
    &&& in_i128(b_num * a_den - a_num * b_den)
    &&& in_i128(a_num * b_den * t.den)
    &&& in_i128(t.num * (b_num * a_den - a_num * b_den))
    &&& in_i128(lerp_channel(a_num, a_den, b_num, b_den, t))
}

/// The blend of `a` and `b` by `t` can be computed in `i128`.
pub open spec fn blend_fits(a: LinearColor, b: LinearColor, t: Fraction) -> bool {
    &&& in_i128(a.den * b.den)
    &&& in_i128(a.den * b.den * t.den)
    &&& lerp_channel_fits(a.r as int, a.den as int, b.r as int, b.den as int, t)
    &&& lerp_channel_fits(a.g as int, a.den as int, b.g as int, b.den as int, t)
    &&& lerp_channel_fits(a.b as int, a.den as int, b.b as int, b.den as int, t)
}

fn lerp_i128(a_num: i128, a_den: i128, b_num: i128, b_den: i128, t: Fraction) -> (r: i128)
    requires
        lerp_channel_fits(a_num as int, a_den as int, b_num as int, b_den as int, t),
    ensures
        r == lerp_channel(a_num as int, a_den as int, b_num as int, b_den as int, t),
{
    let a_scaled: i128 = a_num * b_den;
    let b_scaled: i128 = b_num * a_den;
    let diff: i128 = b_scaled - a_scaled;
    a_scaled * t.den + t.num * diff
}

/// Componentwise linear interpolation `a + t * (b - a)` in the working space.
/// The result is exact: its denominator is the product of the three
/// denominators, and no channel is reduced or clamped.
pub fn blend(a: LinearColor, b: LinearColor, t: Fraction) -> (c: LinearColor)
    requires
        a.wf(),
        b.wf(),
        t.wf(),
        blend_fits(a, b, t),
    ensures
        c.wf(),
        c.den == a.den * b.den * t.den,
        c.r == lerp_channel(a.r as int, a.den as int, b.r as int, b.den as int, t),
        c.g == lerp_channel(a.g as int, a.den as int, b.g as int, b.den as int, t),
        c.b == lerp_channel(a.b as int, a.den as int, b.b as int, b.den as int, t),
{
    assert(a.den * b.den > 0) by (nonlinear_arith)
        requires
            a.den > 0,
            b.den > 0,
    ;
    assert(a.den * b.den * t.den > 0) by (nonlinear_arith)
        requires
            a.den * b.den > 0,
            t.den > 0,
    ;
    let ab: i128 = a.den * b.den;
    LinearColor {
        r: lerp_i128(a.r, a.den, b.r, b.den, t),
        g: lerp_i128(a.g, a.den, b.g, b.den, t),
        b: lerp_i128(a.b, a.den, b.b, b.den, t),
        den: ab * t.den,
    }
}

} // verus!
