use vstd::prelude::*;

use vstd::arithmetic::div_mod::lemma_fundamental_div_mod_converse;

use crate::color::{blend, blend_fits, LinearColor, lerp_channel};
use crate::remap::{fit_range, Fraction};

verus! {

/// Channel `c` (0 red, 1 green, 2 blue, 3 alpha) of the gradient pixel at
/// column `x` and height `y` of a `w` by `h` image, over the denominator
/// `2 * w * h`.
///
/// With `u = x / w` and `v = y / h`, blending red to green by `u`, red to blue
/// by `v`, and the two results by one half gives
/// `(1 - (u + v) / 2, u / 2, v / 2)`; alpha is 1.
pub open spec fn gradient_channel(w: int, h: int, x: int, y: int, c: int) -> int {
    if c == 0 {
        2 * w * h - x * h - y * w
    } else if c == 1 {
        x * h
    } else if c == 2 {
        y * w
    } else {
        2 * w * h
    }
}

/// Sample `j` of the flat, row-major RGBA gradient buffer. Row 0 is the top
/// of the image, where `y = h - 1`; the last row has `y = 0`.
pub open spec fn gradient_sample(w: int, h: int, j: int) -> int {
    let p = j / 4;
    gradient_channel(w, h, p % w, h - 1 - p / w, j % 4)
}

/// A scene-linear RGBA frame buffer in fixed point: sample `j` stands for
/// `samples[j] / denominator`.
#[derive(Debug, Clone)]
pub struct SceneBuffer {
    pub width: usize,
    pub height: usize,
    pub denominator: i64,
    pub samples: Vec<i64>,
}

impl SceneBuffer {
    pub open spec fn wf(self) -> bool {
        &&& self.denominator > 0
        &&& self.samples@.len() == 4 * self.width * self.height
    }
}

/// The size limits under which the gradient can be computed: each side is a
/// non-empty coordinate range that the remap accepts, and the flat buffer's
/// length fits in memory.
pub open spec fn gradient_size_ok(w: int, h: int) -> bool {
    &&& 1 <= w <= i32::MAX
    &&& 1 <= h <= i32::MAX
    &&& 4 * w * h <= usize::MAX
}

proof fn lemma_products(w: int, h: int, x: int, y: int)
    requires
        1 <= w <= i32::MAX,
        1 <= h <= i32::MAX,
        0 <= x < w,
        0 <= y < h,
    ensures
        0 < w * h <= 0x3fff_ffff_0000_0001,
        2 * w * h == 2 * (w * h),
        4 * w * h == 4 * (w * h),
        0 <= x * h < w * h,
        0 <= y * w < w * h,
        (w - x) * h == w * h - x * h,
        (h - y) * w == w * h - y * w,
        h * w == w * h,
{
    assert(0 < w * h <= 0x3fff_ffff_0000_0001) by (nonlinear_arith)
        requires
            1 <= w <= 0x7fff_ffff,
            1 <= h <= 0x7fff_ffff,
    ;
    assert(2 * w * h == 2 * (w * h)) by (nonlinear_arith);
    assert(4 * w * h == 4 * (w * h)) by (nonlinear_arith);
    assert(0 <= x * h < w * h) by (nonlinear_arith)
        requires
            0 <= x < w,
            1 <= h,
    ;
    assert(0 <= y * w < h * w) by (nonlinear_arith)
        requires
            0 <= y < h,
            1 <= w,
    ;
    assert((w - x) * h == w * h - x * h) by (nonlinear_arith);
    assert((h - y) * w == h * w - y * w) by (nonlinear_arith);
    assert(h * w == w * h) by (nonlinear_arith);
}

/// The gradient pixel at column `x` and height `y`, computed by remapping the
/// coordinates to `[0, 1]` and blending the primaries.
pub fn gradient_pixel(x: usize, y: usize, width: usize, height: usize) -> (c: LinearColor)
    requires
        gradient_size_ok(width as int, height as int),
        x < width,
        y < height,
    ensures
        c.wf(),
        c.den == 2 * width * height,
        c.r == gradient_channel(width as int, height as int, x as int, y as int, 0),
        c.g == gradient_channel(width as int, height as int, x as int, y as int, 1),
        c.b == gradient_channel(width as int, height as int, x as int, y as int, 2),
{
    let ghost w = width as int;
    let ghost h = height as int;
    proof {
        lemma_products(w, h, x as int, y as int);
    }
    let u = fit_range(x as i32, 0, width as i32, 0, 1).unwrap();
    let v = fit_range(y as i32, 0, height as i32, 0, 1).unwrap();
    assert(u == Fraction { num: x as i128, den: width as i128 });
    assert(v == Fraction { num: y as i128, den: height as i128 });

    let red = LinearColor::new(1, 0, 0);
    let green = LinearColor::new(0, 1, 0);
    let blue = LinearColor::new(0, 0, 1);
    assert(lerp_channel(1, 1, 0, 1, u) == w - x) by (nonlinear_arith)
        requires
            u.num == x,
            u.den == w,
    ;
    assert(lerp_channel(0, 1, 1, 1, u) == x) by (nonlinear_arith)
        requires
            u.num == x,
            u.den == w,
    ;
    assert(lerp_channel(1, 1, 0, 1, v) == h - y) by (nonlinear_arith)
        requires
            v.num == y,
            v.den == h,
    ;
    assert(lerp_channel(0, 1, 1, 1, v) == y) by (nonlinear_arith)
        requires
            v.num == y,
            v.den == h,
    ;
    let h_blended = blend(red, green, u);
    let v_blended = blend(red, blue, v);
    assert(h_blended == LinearColor { r: (w - x) as i128, g: x as i128, b: 0, den: width as i128 });
    assert(v_blended == LinearColor { r: (h - y) as i128, g: 0, b: y as i128, den: height as i128 });

    let half = Fraction { num: 1, den: 2 };
    assert(lerp_channel(w - x, w, h - y, h, half) == 2 * w * h - x * h - y * w) by (nonlinear_arith)
        requires
            half.num == 1,
            half.den == 2,
    ;
    assert(lerp_channel(x as int, w, 0, h, half) == x * h) by (nonlinear_arith)
        requires
            half.num == 1,
            half.den == 2,
    ;
    assert(lerp_channel(0, w, y as int, h, half) == y * w) by (nonlinear_arith)
        requires
            half.num == 1,
            half.den == 2,
    ;
    assert(w * h * 2 == 2 * w * h) by (nonlinear_arith);
    assert(x * h * 2 == 2 * (x * h)) by (nonlinear_arith);
    assert((w - x) * h * 2 == 2 * ((w - x) * h)) by (nonlinear_arith);
    assert(blend_fits(h_blended, v_blended, half));
    blend(h_blended, v_blended, half)
}

proof fn lemma_sample_index(w: int, h: int, row: int, x: int, c: int)
    requires
        1 <= w,
        0 <= row,
        0 <= x < w,
        0 <= c < 4,
    ensures
        gradient_sample(w, h, 4 * (row * w + x) + c) == gradient_channel(w, h, x, h - 1 - row, c),
{
    let p = row * w + x;
    lemma_fundamental_div_mod_converse(4 * p + c, 4, p, c);
    lemma_fundamental_div_mod_converse(p, w, row, x);
}

/// Synthesizes the scene-linear gradient of `width` by `height` pixels: a flat,
/// row-major RGBA buffer whose top row has `v` near 1 and whose bottom row has
/// `v = 0`. Every alpha sample equals the denominator, that is, 1 exactly.
pub fn render_scene(width: usize, height: usize) -> (s: SceneBuffer)
    requires
        gradient_size_ok(width as int, height as int),
    ensures
        s.wf(),
        s.width == width,
        s.height == height,
        s.denominator == 2 * width * height,
        forall|j: int|
            0 <= j < s.samples@.len() ==> s.samples@[j] == gradient_sample(width as int, height as int, j),
{
    let ghost w = width as int;
    let ghost h = height as int;
    proof {
        lemma_products(w, h, 0, 0);
    }
    let denominator: i64 = 2 * (width as i64) * (height as i64);
    let mut samples: Vec<i64> = Vec::new();
    let mut row: usize = 0;
    while row < height
        invariant
            gradient_size_ok(w, h),
            w == width,
            h == height,
            row <= height,
            denominator == 2 * w * h,
            samples@.len() == 4 * (row * w),
            forall|j: int| 0 <= j < samples@.len() ==> samples@[j] == gradient_sample(w, h, j),
        decreases height - row,
    {
        let y: usize = height - 1 - row;
        let mut x: usize = 0;
        while x < width
            invariant
                gradient_size_ok(w, h),
                w == width,
                h == height,
                row < height,
                y == h - 1 - row,
                x <= width,
                denominator == 2 * w * h,
                samples@.len() == 4 * (row * w + x),
                forall|j: int| 0 <= j < samples@.len() ==> samples@[j] == gradient_sample(w, h, j),
            decreases width - x,
        {
            let c = gradient_pixel(x, y, width, height);
            proof {
                lemma_products(w, h, x as int, y as int);
                lemma_sample_index(w, h, row as int, x as int, 0);
                lemma_sample_index(w, h, row as int, x as int, 1);
                lemma_sample_index(w, h, row as int, x as int, 2);
                lemma_sample_index(w, h, row as int, x as int, 3);
            }
            samples.push(c.r as i64);
            samples.push(c.g as i64);
            samples.push(c.b as i64);
            samples.push(denominator);
            x = x + 1;
        }
        assert(row * w + w == (row + 1) * w) by (nonlinear_arith);
        row = row + 1;
    }
    assert(4 * (h * w) == 4 * w * h) by (nonlinear_arith);
    SceneBuffer { width, height, denominator, samples }
}

/// Every alpha sample of the gradient equals the denominator: alpha is 1.
pub proof fn lemma_gradient_alpha_is_one(w: int, h: int, j: int)
    requires
        j % 4 == 3,
    ensures
        gradient_sample(w, h, j) == 2 * w * h,
{
}

/// The two bottom corners of the gradient (`v = 0`). At column 0 (`u = 0`)
/// the color is pure red; at the last column (`u = (w - 1) / w`) it is red
/// blended halfway towards green: `(1 - u / 2, u / 2, 0)`.
pub proof fn lemma_bottom_corners(w: int, h: int)
    requires
        gradient_size_ok(w, h),
    ensures
        gradient_sample(w, h, 4 * ((h - 1) * w)) == 2 * w * h,
        gradient_sample(w, h, 4 * ((h - 1) * w) + 1) == 0,
        gradient_sample(w, h, 4 * ((h - 1) * w) + 2) == 0,
        gradient_sample(w, h, 4 * ((h - 1) * w) + 3) == 2 * w * h,
        gradient_sample(w, h, 4 * ((h - 1) * w + w - 1)) == 2 * w * h - (w - 1) * h,
        gradient_sample(w, h, 4 * ((h - 1) * w + w - 1) + 1) == (w - 1) * h,
        gradient_sample(w, h, 4 * ((h - 1) * w + w - 1) + 2) == 0,
        gradient_sample(w, h, 4 * ((h - 1) * w + w - 1) + 3) == 2 * w * h,
{
    let row = h - 1;
    assert(4 * ((h - 1) * w) == 4 * (row * w + 0));
    lemma_sample_index(w, h, row, 0, 0);
    lemma_sample_index(w, h, row, 0, 1);
    lemma_sample_index(w, h, row, 0, 2);
    lemma_sample_index(w, h, row, 0, 3);
    lemma_sample_index(w, h, row, w - 1, 0);
    lemma_sample_index(w, h, row, w - 1, 1);
    lemma_sample_index(w, h, row, w - 1, 2);
    lemma_sample_index(w, h, row, w - 1, 3);
    assert(0 * h == 0);
}

} // verus!
