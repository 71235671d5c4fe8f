use vstd::prelude::*;
use vstd::arithmetic::div_mod::{lemma_mod_bound, lemma_multiply_divide_lt};
use crate::FractalType;
use crate::evaluator::{in_coord_range, iterate, spec_iterate};
use crate::fixed::{FIXED_ONE, lemma_tdiv_bound, tdiv, tdiv_i128};
use crate::palette::{MAX_ITER_LIMIT, Rgb, palette, spec_palette};
use crate::params::{FractalParams, valid_params};

verus! {

/// Largest accepted edge of a render target, in pixels.
pub const DIM_LIMIT: usize = 32768;

/// Everything that determines one render; two identical configs give
/// bit-identical buffers.
#[derive(Clone, Copy, PartialEq, Eq, Structural, Debug)]
pub struct RenderConfig {
    pub kind: FractalType,
    pub max_iter: u32,
    pub params: FractalParams,
    pub width: usize,
    pub height: usize,
}

/// A config the synthesizer accepts: valid parameters, positive bounded
/// dimensions and a bounded iteration cap.
pub open spec fn valid_config(c: RenderConfig) -> bool {
    &&& valid_params(c.params)
    &&& 1 <= c.width <= DIM_LIMIT
    &&& 1 <= c.height <= DIM_LIMIT
    &&& c.max_iter <= MAX_ITER_LIMIT
}

/// The divisor of the pixel-to-unit mapping on an axis of `n` pixels: the
/// last pixel index, or 1 for a single-pixel axis.
pub open spec fn axis_denom(n: int) -> int {
    if n >= 2 {
        n - 1
    } else {
        1
    }
}

/// Numerator of the real-axis offset of pixel column `x`, over the
/// denominator `2 * axis_denom(w)`: the exact value `(x/(w-1) - 1/2) * scale`.
pub open spec fn re_offset_num(x: int, w: int, scale: int) -> int {
    (2 * x - axis_denom(w)) * scale
}

/// Numerator of the imaginary-axis offset of pixel row `y`, over the
/// denominator `2 * axis_denom(h) * w`: the exact value
/// `(y/(h-1) - 1/2) * scale * h / w`, aspect-corrected by `h / w`.
pub open spec fn im_offset_num(y: int, h: int, w: int, scale: int) -> int {
    (2 * y - axis_denom(h)) * scale * h
}

/// Real coordinate of pixel column `x`, after truncating the exact offset.
pub open spec fn spec_pixel_re(p: FractalParams, x: int, w: int) -> int {
    p.center_re + tdiv(re_offset_num(x, w, p.scale as int), 2 * axis_denom(w))
}

/// Imaginary coordinate of pixel row `y`, after truncating the exact offset.
pub open spec fn spec_pixel_im(p: FractalParams, y: int, h: int, w: int) -> int {
    p.center_im + tdiv(im_offset_num(y, h, w, p.scale as int), 2 * axis_denom(h) * w)
}

/// The color of pixel `(x, y)` of a render: evaluator composed with palette.
pub open spec fn spec_pixel_color(c: RenderConfig, x: int, y: int) -> Rgb {
    spec_palette(
        spec_iterate(
            c.kind,
            spec_pixel_re(c.params, x, c.width as int),
            spec_pixel_im(c.params, y, c.height as int, c.width as int),
            c.params.julia_re as int,
            c.params.julia_im as int,
            c.max_iter as nat,
        ) as int,
        c.max_iter as int,
    )
}

/// The whole buffer of a render, row-major.
pub open spec fn spec_render(c: RenderConfig) -> Seq<Rgb> {
    Seq::new(
        (c.width * c.height) as nat,
        |k: int| spec_pixel_color(c, k % (c.width as int), k / (c.width as int)),
    )
}

/// A row-major pixel buffer of fixed dimensions.
pub struct PixelBuffer {
    pub width: usize,
    pub height: usize,
    pub pixels: Vec<Rgb>,
}

/// Real coordinate of pixel column `x`, in fixed point.
pub fn pixel_re(p: &FractalParams, x: usize, w: usize) -> (r: i64)
    requires
        valid_params(*p),
        x < w <= DIM_LIMIT,
    ensures
        r == spec_pixel_re(*p, x as int, w as int),
        in_coord_range(r as int),
{
    let d: i128 = if w >= 2 { (w - 1) as i128 } else { 1 };
    let t: i128 = 2 * (x as i128) - d;
    proof {
        assert(-(0x10_0000_0000_0000 * (2 * (d as int))) <= (t as int) * (p.scale as int)
            <= 0x10_0000_0000_0000 * (2 * (d as int))) by (nonlinear_arith)
            requires
                1 <= d as int <= 0x8000,
                -(d as int) <= t as int <= d as int,
                0 < p.scale as int <= 0x8_0000_0000,
        ;
    }
    let num: i128 = t * (p.scale as i128);
    proof {
        lemma_tdiv_bound(num as int, 2 * (d as int), 0x10_0000_0000_0000);
    }
    let off: i128 = tdiv_i128(num, 2 * d);
    (p.center_re as i128 + off) as i64
}

/// Imaginary coordinate of pixel row `y`, in fixed point, aspect-corrected.
pub fn pixel_im(p: &FractalParams, y: usize, h: usize, w: usize) -> (r: i64)
    requires
        valid_params(*p),
        y < h <= DIM_LIMIT,
        1 <= w <= DIM_LIMIT,
    ensures
        r == spec_pixel_im(*p, y as int, h as int, w as int),
        in_coord_range(r as int),
{
    let e: i128 = if h >= 2 { (h - 1) as i128 } else { 1 };
    let t: i128 = 2 * (y as i128) - e;
    proof {
        assert(-(0x8_0000_0000_0000_0000) <= (t as int) * (p.scale as int)
            <= 0x8_0000_0000_0000_0000) by (nonlinear_arith)
            requires
                1 <= e as int <= 0x8000,
                -(e as int) <= t as int <= e as int,
                0 < p.scale as int <= 0x8_0000_0000,
        ;
        assert(0 < 2 * (e as int) * (w as int) <= 0x8000_0000) by (nonlinear_arith)
            requires
                1 <= e as int <= 0x8000,
                1 <= w as int <= 0x8000,
        ;
        assert({
            &&& -(0x4_0000_0000_0000 * (2 * (e as int) * (w as int))) <= (t as int) * (
            p.scale as int) * (h as int) <= 0x4_0000_0000_0000 * (2 * (e as int) * (w as int))
            &&& -(0x8_0000_0000_0000_0000_0) <= (t as int) * (p.scale as int) * (h as int) <= 0x8_0000_0000_0000_0000_0
        }) by (nonlinear_arith)
            requires
                1 <= e as int <= 0x8000,
                1 <= w as int <= 0x8000,
                1 <= h as int <= 0x8000,
                -(e as int) <= t as int <= e as int,
                0 < p.scale as int <= 0x8_0000_0000,
        ;
    }
    let num: i128 = t * (p.scale as i128) * (h as i128);
    proof {
        lemma_tdiv_bound(num as int, 2 * (e as int) * (w as int), 0x4_0000_0000_0000);
    }
    let off: i128 = tdiv_i128(num, 2 * e * (w as i128));
    (p.center_im as i128 + off) as i64
}

/// Renders the whole buffer: every pixel of the `width x height` target is
/// mapped to its complex coordinate, run through the escape-time evaluator
/// and colored by the palette. The buffer is a pure function of the config,
/// so repeated renders of one config are identical.
pub fn synthesize(config: &RenderConfig) -> (buf: PixelBuffer)
    requires
        valid_config(*config),
    ensures
        buf.width == config.width,
        buf.height == config.height,
        buf.pixels@ == spec_render(*config),
{
    let w = config.width;
    let h = config.height;
    proof {
        assert(0 < (w as int) * (h as int) <= 0x4000_0000) by (nonlinear_arith)
            requires
                1 <= w as int <= 0x8000,
                1 <= h as int <= 0x8000,
        ;
    }
    let total = w * h;
    let mut pixels: Vec<Rgb> = Vec::new();
    let mut idx: usize = 0;
    while idx < total
        invariant
            idx <= total,
            total == w * h,
            valid_config(*config),
            w == config.width,
            h == config.height,
            total <= 0x4000_0000,
            pixels@.len() == idx,
            forall|k: int|
                0 <= k < idx ==> pixels@[k] == spec_pixel_color(
                    *config,
                    k % (w as int),
                    k / (w as int),
                ),
        decreases total - idx,
    {
        let x = idx % w;
        let y = idx / w;
        proof {
            lemma_mod_bound(idx as int, w as int);
            lemma_multiply_divide_lt(idx as int, w as int, h as int);
        }
        let re = pixel_re(&config.params, x, w);
        let im = pixel_im(&config.params, y, h, w);
        let count = iterate(config.kind, re, im, config.params.julia_re, config.params.julia_im, config.max_iter);
        let color = palette(count, config.max_iter);
        pixels.push(color);
        idx = idx + 1;
    }
    proof {
        assert(pixels@ =~= spec_render(*config));
    }
    PixelBuffer { width: w, height: h, pixels }
}

/// The synthesizer is deterministic: any two buffers rendered from one
/// config are equal, pixel for pixel.
pub proof fn lemma_synthesize_deterministic(c: RenderConfig, b1: Seq<Rgb>, b2: Seq<Rgb>)
    requires
        b1 == spec_render(c),
        b2 == spec_render(c),
    ensures
        b1 == b2,
{
}

/// For a 100 x 50 target the imaginary-axis span of the view is exactly half
/// its real-axis span: the spans of the exact offsets, cross-multiplied onto
/// the common denominators `2 * axis_denom(100)` and `2 * axis_denom(50) * 100`.
pub proof fn lemma_aspect_ratio_half(scale: int)
    ensures
        (re_offset_num(99, 100, scale) - re_offset_num(0, 100, scale)) * (2 * axis_denom(50) * 100)
            == 2 * (im_offset_num(49, 50, 100, scale) - im_offset_num(0, 50, 100, scale)) * (2
            * axis_denom(100)),
{
    let d100 = axis_denom(100);
    let d50 = axis_denom(50);
    assert(d100 == 99 && d50 == 49);
    assert((2 * 99 - d100) * scale - (2 * 0 - d100) * scale == 198 * scale) by (nonlinear_arith)
        requires
            d100 == 99,
    ;
    assert((2 * 49 - d50) * scale * 50 - (2 * 0 - d50) * scale * 50 == 4900 * scale)
        by (nonlinear_arith)
        requires
            d50 == 49,
    ;
    assert((198 * scale) * (2 * d50 * 100) == 2 * (4900 * scale) * (2 * d100))
        by (nonlinear_arith)
        requires
            d100 == 99,
            d50 == 49,
    ;
}

} // verus!
