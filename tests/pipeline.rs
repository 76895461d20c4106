use scene_render::color::{blend, LinearColor};
use scene_render::display::{encode_display, quantize_alpha};
use scene_render::remap::Fraction;
use scene_render::scene::{gradient_pixel, render_scene, SceneBuffer};
use scene_render::fit_range;

#[test]
fn fit_range_maps_first_pixel_to_zero() {
    assert_eq!(fit_range(0, 0, 1024, 0, 1), Some(Fraction { num: 0, den: 1024 }));
}

#[test]
fn fit_range_midpoint() {
    assert_eq!(fit_range(512, 0, 1024, 0, 1), Some(Fraction { num: 512, den: 1024 }));
}

#[test]
fn fit_range_general_affine() {
    // (10 - 2) * (5 - 1) / (3 - 1) + 2 = 18
    assert_eq!(fit_range(5, 1, 3, 2, 10), Some(Fraction { num: 36, den: 2 }));
}

#[test]
fn fit_range_extrapolates_without_clamping() {
    // 2048 / 1024 = 2, outside [0, 1]
    assert_eq!(fit_range(2048, 0, 1024, 0, 1), Some(Fraction { num: 2048, den: 1024 }));
    assert_eq!(fit_range(-5, 0, 10, 0, 1), Some(Fraction { num: -5, den: 10 }));
}

#[test]
fn fit_range_reversed_input_range_keeps_denominator_positive() {
    // (1 - 0) * (2 - 10) / (0 - 10) + 0 = 0.8
    assert_eq!(fit_range(2, 10, 0, 0, 1), Some(Fraction { num: 8, den: 10 }));
}

#[test]
fn fit_range_empty_input_range_is_rejected() {
    assert_eq!(fit_range(3, 7, 7, 0, 1), None);
    assert_eq!(fit_range(0, 0, 0, 0, 1), None);
}

#[test]
fn fit_range_pixel_coordinates_stay_in_unit_range() {
    for n in [1, 2, 3, 7, 1024] {
        for x in 0..n {
            let f = fit_range(x, 0, n, 0, 1).unwrap();
            assert!(f.den > 0);
            assert!(0 <= f.num && f.num < f.den);
            if x == 0 {
                assert_eq!(f.num, 0);
            }
        }
    }
}

#[test]
fn fit_range_extreme_inputs() {
    let f = fit_range(i32::MAX, i32::MIN, i32::MAX, i32::MIN, i32::MAX).unwrap();
    assert_eq!(f.den, (i32::MAX as i128) - (i32::MIN as i128));
    assert_eq!(f.num, (i32::MAX as i128) * f.den);
}

#[test]
fn blend_interpolates_exactly() {
    let red = LinearColor::new(1, 0, 0);
    let green = LinearColor::new(0, 1, 0);
    let quarter = Fraction { num: 1, den: 4 };
    let c = blend(red, green, quarter);
    assert_eq!(c, LinearColor { r: 3, g: 1, b: 0, den: 4 });
}

#[test]
fn blend_with_different_denominators() {
    let a = LinearColor { r: 1, g: 2, b: 3, den: 2 };
    let b = LinearColor { r: 5, g: 2, b: -1, den: 3 };
    let c = blend(a, b, Fraction { num: 1, den: 2 });
    // a + (b - a) / 2 over 2 * 3 * 2
    assert_eq!(c.den, 12);
    assert_eq!(c.r, 1 * 3 * 2 + 1 * (5 * 2 - 1 * 3));
    assert_eq!(c.g, 2 * 3 * 2 + 1 * (2 * 2 - 2 * 3));
    assert_eq!(c.b, 3 * 3 * 2 + 1 * (-1 * 2 - 3 * 3));
}

#[test]
fn gradient_pixel_origin_is_pure_red() {
    let c = gradient_pixel(0, 0, 1024, 1024);
    assert_eq!(c.den, 2 * 1024 * 1024);
    assert_eq!((c.r, c.g, c.b), (c.den, 0, 0));
}

#[test]
fn gradient_pixel_matches_blend_formula() {
    // u = 3/4, v = 1/2: (1 - 5/8, 3/8, 1/4)
    let c = gradient_pixel(3, 1, 4, 2);
    assert_eq!(c.den, 16);
    assert_eq!((c.r, c.g, c.b), (6, 6, 4));
}

#[test]
fn render_scene_layout_and_corners() {
    let w = 4usize;
    let h = 3usize;
    let s = render_scene(w, h);
    assert_eq!(s.width, w);
    assert_eq!(s.height, h);
    assert_eq!(s.denominator, 24);
    assert_eq!(s.samples.len(), 4 * w * h);
    // bottom-left, u = 0, v = 0: pure red
    let bl = 4 * ((h - 1) * w);
    assert_eq!(&s.samples[bl..bl + 4], &[24, 0, 0, 24]);
    // bottom-right, u = 3/4, v = 0: (1 - 3/8, 3/8, 0)
    let br = 4 * ((h - 1) * w + w - 1);
    assert_eq!(&s.samples[br..br + 4], &[15, 9, 0, 24]);
    // top-left, u = 0, v = 2/3: (2/3, 0, 1/3)
    assert_eq!(&s.samples[0..4], &[16, 0, 8, 24]);
}

#[test]
fn render_scene_full_size_corners() {
    let s = render_scene(1024, 1024);
    let d = s.denominator;
    assert_eq!(d, 2 * 1024 * 1024);
    assert_eq!(s.samples.len(), 1024 * 1024 * 4);
    let bl = 4 * (1023 * 1024);
    assert_eq!(&s.samples[bl..bl + 4], &[d, 0, 0, d]);
    let br = 4 * (1023 * 1024 + 1023);
    let u_half = 1023 * 1024; // u / 2 over the denominator, u = 1023 / 1024
    assert_eq!(&s.samples[br..br + 4], &[d - u_half, u_half, 0, d]);
}

#[test]
fn render_scene_alpha_is_one_everywhere() {
    let s = render_scene(17, 5);
    for p in 0..17 * 5 {
        assert_eq!(s.samples[4 * p + 3], s.denominator);
    }
}

#[test]
fn render_scene_single_pixel() {
    let s = render_scene(1, 1);
    assert_eq!(s.denominator, 2);
    assert_eq!(s.samples, vec![2, 0, 0, 2]);
}

#[test]
fn quantize_alpha_truncates() {
    assert_eq!(quantize_alpha(1, 1), 255);
    assert_eq!(quantize_alpha(0, 7), 0);
    assert_eq!(quantize_alpha(1, 2), 127);
    assert_eq!(quantize_alpha(999, 1000), 254);
    assert_eq!(quantize_alpha(3, 2), 255);
    assert_eq!(quantize_alpha(-4, 2), 0);
}

#[test]
fn encode_display_interleaves_color_and_alpha() {
    let scene = SceneBuffer { width: 2, height: 1, denominator: 4, samples: vec![1, 2, 3, 4, 0, 0, 0, 2] };
    let rgb = vec![10, 20, 30, 40, 50, 60];
    let d = encode_display(&scene, &rgb);
    assert_eq!(d.width, 2);
    assert_eq!(d.height, 1);
    assert_eq!(d.pixels, vec![10, 20, 30, 255, 40, 50, 60, 127]);
}

#[test]
fn encoded_gradient_is_opaque() {
    let s = render_scene(9, 6);
    let rgb: Vec<u8> = (0..9 * 6 * 3).map(|i| (i % 251) as u8).collect();
    let d = encode_display(&s, &rgb);
    assert_eq!(d.pixels.len(), 9 * 6 * 4);
    for p in 0..9 * 6 {
        assert_eq!(d.pixels[4 * p + 3], 255);
        assert_eq!(&d.pixels[4 * p..4 * p + 3], &rgb[3 * p..3 * p + 3]);
    }
}

#[test]
fn encoding_twice_gives_identical_bytes() {
    let s = render_scene(8, 8);
    let rgb: Vec<u8> = (0..8 * 8 * 3).map(|i| (i * 7 % 256) as u8).collect();
    let first = encode_display(&s, &rgb);
    let second = encode_display(&s, &rgb);
    assert_eq!(first.pixels, second.pixels);
}

#[test]
fn black_pixel_encodes_to_opaque_black() {
    let scene = SceneBuffer { width: 1, height: 1, denominator: 1, samples: vec![0, 0, 0, 1] };
    let d = encode_display(&scene, &vec![0, 0, 0]);
    assert_eq!(d.pixels, vec![0, 0, 0, 255]);
}
