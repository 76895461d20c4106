use vstd::prelude::*;

use vstd::arithmetic::div_mod::{lemma_fundamental_div_mod, lemma_fundamental_div_mod_converse};

use crate::scene::{gradient_sample, lemma_gradient_alpha_is_one, SceneBuffer};

verus! {

/// The 8-bit alpha of the linear alpha `num / den`: `255 * alpha`, truncated
/// towards zero and saturated to `[0, 255]`. Color channels are quantized by
/// rounding instead; alpha keeps truncation.
pub open spec fn alpha_byte(num: int, den: int) -> int {
    if num <= 0 {
        0
    } else if num >= den {
        255
    } else {
        (255 * num) / den
    }
}

/// Quantizes the linear alpha `num / den` to 8 bits by truncation.
pub fn quantize_alpha(num: i64, den: i64) -> (r: u8)
    requires
        den > 0,
    ensures
        r == alpha_byte(num as int, den as int),
{
    if num <= 0 {
        0
    } else if num >= den {
        255
    } else {
        let scaled: i128 = 255 * (num as i128);
        let q: i128 = scaled / (den as i128);
        proof {
            let n = num as int;
            let d = den as int;
            lemma_fundamental_div_mod(255 * n, d);
            let qq = (255 * n) / d;
            let rr = (255 * n) % d;
            assert(0 <= qq < 255) by (nonlinear_arith)
                requires
                    255 * n == d * qq + rr,
                    0 <= rr < d,
                    0 < n < d,
            ;
        }
        q as u8
    }
}

/// An 8-bit RGBA image, flat and row-major.
#[derive(Debug, Clone)]
pub struct DisplayImage {
    pub width: usize,
    pub height: usize,
    pub pixels: Vec<u8>,
}

/// Byte `j` of the display buffer assembled from a scene buffer and the
/// encoded color bytes of its pixels (three per pixel): the color bytes come
/// from `rgb`, the alpha byte from the scene's own alpha sample.
pub open spec fn display_byte(scene: SceneBuffer, rgb: Seq<u8>, j: int) -> int {
    let p = j / 4;
    let c = j % 4;
    if c == 3 {
        alpha_byte(scene.samples@[j] as int, scene.denominator as int)
    } else {
        rgb[3 * p + c] as int
    }
}

/// The display buffer assembled from `scene` and `rgb`.
pub open spec fn display_pixels(scene: SceneBuffer, rgb: Seq<u8>) -> Seq<u8> {
    Seq::new(scene.samples@.len(), |j: int| display_byte(scene, rgb, j) as u8)
}

/// Assembles the display image of `scene`: each pixel takes its three color
/// bytes from `rgb`, the tonemapped and gamma-encoded color of the scene pixel
/// at the same position, and its alpha byte from the scene's alpha, quantized
/// by truncation. Each output pixel depends on its own input pixel alone.
pub fn encode_display(scene: &SceneBuffer, rgb: &Vec<u8>) -> (d: DisplayImage)
    requires
        scene.wf(),
        rgb@.len() == 3 * (scene.width * scene.height),
    ensures
        d.width == scene.width,
        d.height == scene.height,
        d.pixels@ == display_pixels(*scene, rgb@),
        d.pixels@.len() == 4 * (scene.width * scene.height),
{
    let n: usize = scene.samples.len() / 4;
    assert(4 * scene.width * scene.height == 4 * (scene.width * scene.height)) by (nonlinear_arith);
    let mut pixels: Vec<u8> = Vec::new();
    let mut p: usize = 0;
    while p < n
        invariant
            scene.wf(),
            n == scene.width * scene.height,
            rgb@.len() == 3 * n,
            scene.samples@.len() == 4 * n,
            p <= n,
            pixels@.len() == 4 * p,
            4 * n <= usize::MAX,
            forall|j: int| 0 <= j < pixels@.len() ==> pixels@[j] as int == display_byte(*scene, rgb@, j),
        decreases n - p,
    {
        let alpha = quantize_alpha(scene.samples[4 * p + 3], scene.denominator);
        proof {
            lemma_fundamental_div_mod_converse(4 * p + 0, 4, p as int, 0);
            lemma_fundamental_div_mod_converse(4 * p + 1, 4, p as int, 1);
            lemma_fundamental_div_mod_converse(4 * p + 2, 4, p as int, 2);
            lemma_fundamental_div_mod_converse(4 * p + 3, 4, p as int, 3);
        }
        pixels.push(rgb[3 * p]);
        pixels.push(rgb[3 * p + 1]);
        pixels.push(rgb[3 * p + 2]);
        pixels.push(alpha);
        p = p + 1;
    }
    assert(pixels@ =~= display_pixels(*scene, rgb@));
    DisplayImage { width: scene.width, height: scene.height, pixels }
}

/// Once the gradient is encoded, every pixel's alpha byte is 255.
pub proof fn lemma_gradient_encodes_opaque(scene: SceneBuffer, rgb: Seq<u8>, j: int)
    requires
        scene.wf(),
        scene.denominator == 2 * scene.width * scene.height,
        forall|k: int|
            0 <= k < scene.samples@.len() ==> scene.samples@[k] == gradient_sample(
                scene.width as int,
                scene.height as int,
                k,
            ),
        0 <= j < scene.samples@.len(),
        j % 4 == 3,
    ensures
        display_pixels(scene, rgb)[j] == 255,
{
    lemma_gradient_alpha_is_one(scene.width as int, scene.height as int, j);
}

} // verus!
