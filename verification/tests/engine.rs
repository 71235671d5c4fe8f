use random_fractals::FractalType;
use random_fractals::evaluator::{iterate, julia, mandelbrot};
use random_fractals::palette::{Rgb, palette};
use random_fractals::render::{PixelBuffer, RenderConfig, pixel_im, pixel_re, synthesize};

const ONE: i64 = 0x1_0000_0000;

#[test]
fn label_names() {
    assert_eq!(FractalType::Mandelbrot.label(), "Mandelbrot");
    assert_eq!(FractalType::Julia.label(), "Julia");
}

#[test]
fn mandelbrot_origin_never_escapes() {
    assert_eq!(mandelbrot(0, 0, 1), 1);
    assert_eq!(mandelbrot(0, 0, 77), 77);
    assert_eq!(iterate(FractalType::Mandelbrot, 0, 0, 0, 0, 512), 512);
}

#[test]
fn mandelbrot_far_parameter_escapes_after_one_step() {
    // the orbit starts at the origin, so the first check cannot escape; the
    // parameter (2, 2) is reached after one completed step
    assert_eq!(mandelbrot(2 * ONE, 2 * ONE, 100), 1);
    assert_eq!(mandelbrot(2 * ONE, 2 * ONE, 1), 1);
}

#[test]
fn julia_outside_radius_escapes_immediately() {
    assert_eq!(julia(3 * ONE, 0, 0, 0, 50), 0);
    assert_eq!(julia(2 * ONE, 2 * ONE, -ONE, 0, 50), 0);
}

#[test]
fn iterate_never_exceeds_cap() {
    for m in [0u32, 1, 2, 17, 64] {
        assert!(iterate(FractalType::Mandelbrot, 0, 0, 0, 0, m) <= m);
        assert!(iterate(FractalType::Julia, ONE / 2, ONE / 2, -ONE / 2, 0, m) <= m);
    }
}

#[test]
fn palette_interior_is_black() {
    for m in [1u32, 2, 512, 4096] {
        assert_eq!(palette(m, m), Rgb { r: 0, g: 0, b: 0 });
        assert_eq!(palette(m + 1, m), Rgb { r: 0, g: 0, b: 0 });
    }
}

#[test]
fn palette_zero_is_black() {
    assert_eq!(palette(0, 512), Rgb { r: 0, g: 0, b: 0 });
    assert_eq!(palette(0, 1), Rgb { r: 0, g: 0, b: 0 });
}

#[test]
fn palette_exact_values() {
    // t = 1/2: truncations of 143.4375, 239.0625 and 135.46875
    assert_eq!(palette(1, 2), Rgb { r: 143, g: 239, b: 135 });
    // t = 1/4: truncations of 26.89.., 134.47.. and 228.55..
    assert_eq!(palette(64, 256), Rgb { r: 26, g: 134, b: 228 });
}

#[test]
fn palette_channels_in_range_across_sweep() {
    let m = 257u32;
    for i in 0..m {
        // the u8 result type already bounds each channel; the call must not
        // panic anywhere in the sweep
        let _ = palette(i, m);
    }
}

fn small_config() -> RenderConfig {
    RenderConfig {
        kind: FractalType::Mandelbrot,
        max_iter: 64,
        params: random_fractals::params::FractalParams {
            center_re: -ONE / 2,
            center_im: 0,
            scale: 3 * ONE,
            julia_re: random_fractals::params::JULIA_DEFAULT_RE,
            julia_im: random_fractals::params::JULIA_DEFAULT_IM,
        },
        width: 16,
        height: 12,
    }
}

#[test]
fn synthesize_is_deterministic() {
    let c = small_config();
    let b1: PixelBuffer = synthesize(&c);
    let b2: PixelBuffer = synthesize(&c);
    assert_eq!(b1.width, 16);
    assert_eq!(b1.height, 12);
    assert_eq!(b1.pixels, b2.pixels);
}

#[test]
fn synthesize_buffer_has_row_major_size() {
    let c = small_config();
    let b = synthesize(&c);
    assert_eq!(b.pixels.len(), 16 * 12);
    let one = RenderConfig { width: 1, height: 1, ..c };
    assert_eq!(synthesize(&one).pixels.len(), 1);
}

#[test]
fn aspect_ratio_imaginary_span_is_half() {
    let p = random_fractals::params::FractalParams {
        center_re: 0,
        center_im: 0,
        scale: 2 * ONE,
        julia_re: 0,
        julia_im: 0,
    };
    let re_span = pixel_re(&p, 99, 100) - pixel_re(&p, 0, 100);
    let im_span = pixel_im(&p, 49, 50, 100) - pixel_im(&p, 0, 50, 100);
    assert_eq!(re_span, 2 * ONE);
    assert_eq!(im_span, ONE);
    assert_eq!(re_span, 2 * im_span);
}
