use vstd::prelude::*;

verus! {

/// An exact rational number `num / den`.
#[derive(Debug, Clone, Copy, PartialEq, Eq)]
pub struct Fraction {
    pub num: i128,
    pub den: i128,
}

impl Fraction {
    /// The denominator is positive, so the sign lives in the numerator.
    pub open spec fn wf(self) -> bool {
        self.den > 0
    }
}

/// Numerator of the affine remap when written over the denominator
/// `in_max - in_min`.
pub open spec fn fit_range_numerator(x: int, in_min: int, in_max: int, out_min: int, out_max: int) -> int {
    (out_max - out_min) * (x - in_min) + out_min * (in_max - in_min)
}

/// The remap of `x` from `[in_min, in_max]` to `[out_min, out_max]`,
/// `(out_max - out_min) * (x - in_min) / (in_max - in_min) + out_min`,
/// as a fraction with a positive denominator; `None` where the input range is
/// empty, which would divide by zero.
pub open spec fn fit_range_spec(x: int, in_min: int, in_max: int, out_min: int, out_max: int) -> Option<Fraction> {
    let n = fit_range_numerator(x, in_min, in_max, out_min, out_max);
    if in_min == in_max {
        None
    } else if in_min < in_max {
        Some(Fraction { num: n as i128, den: (in_max - in_min) as i128 })
    } else {
        Some(Fraction { num: (-n) as i128, den: (in_min - in_max) as i128 })
    }
}

proof fn lemma_numerator_bounds(x: int, in_min: int, in_max: int, out_min: int, out_max: int)
    requires
        i32::MIN <= x <= i32::MAX,
        i32::MIN <= in_min <= i32::MAX,
        i32::MIN <= in_max <= i32::MAX,
        i32::MIN <= out_min <= i32::MAX,
        i32::MIN <= out_max <= i32::MAX,
    ensures
        -0x10_0000_0000_0000_0000 <= (out_max - out_min) * (x - in_min) <= 0x10_0000_0000_0000_0000,
        -0x10_0000_0000_0000_0000 <= out_min * (in_max - in_min) <= 0x10_0000_0000_0000_0000,
{
    let a = out_max - out_min;
    let b = x - in_min;
    let c = in_max - in_min;
    assert(-0x1_0000_0000 <= a <= 0x1_0000_0000);
    assert(-0x1_0000_0000 <= b <= 0x1_0000_0000);
    assert(-0x1_0000_0000 <= c <= 0x1_0000_0000);
    assert(-0x10_0000_0000_0000_0000 <= a * b <= 0x10_0000_0000_0000_0000) by (nonlinear_arith)
        requires
            -0x1_0000_0000 <= a <= 0x1_0000_0000,
            -0x1_0000_0000 <= b <= 0x1_0000_0000,
    ;
    assert(-0x10_0000_0000_0000_0000 <= out_min * c <= 0x10_0000_0000_0000_0000) by (nonlinear_arith)
        requires
            -0x1_0000_0000 <= out_min <= 0x1_0000_0000,
            -0x1_0000_0000 <= c <= 0x1_0000_0000,
    ;
}

/// Linear remap of `x` from the range `[in_min, in_max]` into the range
/// `[out_min, out_max]`, without clamping: values outside the input range
/// extrapolate. The result is exact. An empty input range (`in_min == in_max`)
/// is a defined failure and gives `None`.
pub fn fit_range(x: i32, in_min: i32, in_max: i32, out_min: i32, out_max: i32) -> (r: Option<Fraction>)
    ensures
        r == fit_range_spec(x as int, in_min as int, in_max as int, out_min as int, out_max as int),
        r is None <==> in_min == in_max,
        r matches Some(f) ==> f.wf(),
{
    if in_min == in_max {
        return None;
    }
    proof {
        lemma_numerator_bounds(x as int, in_min as int, in_max as int, out_min as int, out_max as int);
    }
    let span: i128 = in_max as i128 - in_min as i128;
    let n: i128 = (out_max as i128 - out_min as i128) * (x as i128 - in_min as i128) + out_min as i128 * span;
    if span > 0 {
        Some(Fraction { num: n, den: span })
    } else {
        Some(Fraction { num: -n, den: -span })
    }
}

/// Remapping a pixel coordinate `x` of a row (or column) of `n` pixels from
/// `[0, n)` to `[0, 1]` gives a value in `[0, 1)`, and the first pixel maps to 0.
pub proof fn lemma_pixel_coordinate_in_unit_range(x: i32, n: i32)
    requires
        0 <= x < n,
    ensures
        fit_range_spec(x as int, 0, n as int, 0, 1) matches Some(f) && f.wf() && 0 <= f.num < f.den
            && (x == 0 ==> f.num == 0),
{
    assert(fit_range_numerator(x as int, 0, n as int, 0, 1) == x as int);
}

} // verus!
