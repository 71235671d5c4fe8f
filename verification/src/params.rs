use vstd::prelude::*;
use rand::Rng;
use crate::FractalType;
use crate::evaluator::in_coord_range;

verus! {

/// Raw fixed-point bounds of the parameter generator, each constant holding
/// the decimal bound named in its comment times `FIXED_ONE`.
pub const MANDEL_RE_MIN: i64 = -3865470566;  // -0.9
pub const MANDEL_RE_MAX: i64 = 858993459;  // 0.2
pub const MANDEL_IM_MIN: i64 = -3006477107;  // -0.7
pub const MANDEL_IM_MAX: i64 = 3006477107;  // 0.7
pub const MANDEL_SCALE_MIN: i64 = 1073741824;  // 0.25
pub const MANDEL_SCALE_MAX: i64 = 12884901888;  // 3.0
pub const JULIA_CENTER_MIN: i64 = -2147483648;  // -0.5
pub const JULIA_CENTER_MAX: i64 = 2147483648;  // 0.5
pub const JULIA_SCALE_MIN: i64 = 6442450944;  // 1.5
pub const JULIA_SCALE_MAX: i64 = 15032385536;  // 3.5
pub const JULIA_CONST_MIN: i64 = -4294967296;  // -1.0
pub const JULIA_CONST_MAX: i64 = 4294967296;  // 1.0
pub const JULIA_DEFAULT_RE: i64 = -3435973837;  // -0.8
pub const JULIA_DEFAULT_IM: i64 = 670014898;  // 0.156
pub const DEFAULT_SCALE: i64 = 12884901888;  // 3.0

/// The view region and Julia constant of one render, in fixed point.
#[derive(Clone, Copy, PartialEq, Eq, Structural, Debug)]
pub struct FractalParams {
    pub center_re: i64,
    pub center_im: i64,
    pub scale: i64,
    pub julia_re: i64,
    pub julia_im: i64,
}

/// A parameter set the synthesizer accepts: a positive view width of at most
/// 8.0 and a centre and Julia constant of magnitude at most 8.0.
pub open spec fn valid_params(p: FractalParams) -> bool {
    &&& 0 < p.scale <= 0x8_0000_0000
    &&& -0x8_0000_0000 <= p.center_re <= 0x8_0000_0000
    &&& -0x8_0000_0000 <= p.center_im <= 0x8_0000_0000
    &&& in_coord_range(p.julia_re as int)
    &&& in_coord_range(p.julia_im as int)
}

/// The documented sampling box of the generator for each fractal family.
pub open spec fn params_in_generator_range(kind: FractalType, p: FractalParams) -> bool {
    match kind {
        FractalType::Mandelbrot => {
            &&& MANDEL_RE_MIN <= p.center_re <= MANDEL_RE_MAX
            &&& MANDEL_IM_MIN <= p.center_im <= MANDEL_IM_MAX
            &&& MANDEL_SCALE_MIN <= p.scale <= MANDEL_SCALE_MAX
            &&& p.julia_re == JULIA_DEFAULT_RE
            &&& p.julia_im == JULIA_DEFAULT_IM
        },
        FractalType::Julia => {
            &&& JULIA_CENTER_MIN <= p.center_re <= JULIA_CENTER_MAX
            &&& JULIA_CENTER_MIN <= p.center_im <= JULIA_CENTER_MAX
            &&& JULIA_SCALE_MIN <= p.scale <= JULIA_SCALE_MAX
            &&& JULIA_CONST_MIN <= p.julia_re <= JULIA_CONST_MAX
            &&& JULIA_CONST_MIN <= p.julia_im <= JULIA_CONST_MAX
        },
    }
}

impl Default for FractalParams {
    /// The fallback view: the whole set centred at the origin, with the
    /// classic Julia constant.
    fn default() -> (p: Self)
        ensures
            p.center_re == 0 && p.center_im == 0,
            p.scale == DEFAULT_SCALE,
            p.julia_re == JULIA_DEFAULT_RE && p.julia_im == JULIA_DEFAULT_IM,
            valid_params(p),
    {
        FractalParams {
            center_re: 0,
            center_im: 0,
            scale: DEFAULT_SCALE,
            julia_re: JULIA_DEFAULT_RE,
            julia_im: JULIA_DEFAULT_IM,
        }
    }
}

/// Relies on rand::thread_rng: hands out the thread-local generator.
#[verifier::external_body]
fn fresh_rng() -> rand::rngs::ThreadRng {
    rand::thread_rng()
}

/// The thread-local random number generator of the rand crate, opaque here.
#[verifier::external_type_specification]
#[verifier::external_body]
pub struct ExThreadRng(rand::rngs::ThreadRng);

/// Relies on rand::Rng::gen_range over an inclusive i64 range: every sample
/// lies within the bounds; an empty range would panic, so it is excluded.
#[verifier::external_body]
fn gen_range_i64(rng: &mut rand::rngs::ThreadRng, lo: i64, hi: i64) -> (r: i64)
    requires
        lo <= hi,
    ensures
        lo <= r <= hi,
{
    rng.gen_range(lo..=hi)
}

/// Assembles a parameter set from already-drawn values; for a Mandelbrot
/// render the Julia constant is pinned to its classic default.
pub fn params_from_values(kind: FractalType, cx: i64, cy: i64, scale: i64, cr: i64, ci: i64) -> (p:
    FractalParams)
    ensures
        p.center_re == cx && p.center_im == cy && p.scale == scale,
        kind is Mandelbrot ==> p.julia_re == JULIA_DEFAULT_RE && p.julia_im == JULIA_DEFAULT_IM,
        kind is Julia ==> p.julia_re == cr && p.julia_im == ci,
{
    match kind {
        FractalType::Mandelbrot => FractalParams {
            center_re: cx,
            center_im: cy,
            scale,
            julia_re: JULIA_DEFAULT_RE,
            julia_im: JULIA_DEFAULT_IM,
        },
        FractalType::Julia => FractalParams { center_re: cx, center_im: cy, scale, julia_re: cr, julia_im: ci },
    }
}

/// Draws a fresh parameter set for the chosen family, each dimension sampled
/// independently within its documented inclusive bounds.
pub fn random_parameters(kind: FractalType) -> (p: FractalParams)
    ensures
        valid_params(p),
        params_in_generator_range(kind, p),
{
    let mut rng = fresh_rng();
    match kind {
        FractalType::Mandelbrot => {
            let cx = gen_range_i64(&mut rng, MANDEL_RE_MIN, MANDEL_RE_MAX);
            let cy = gen_range_i64(&mut rng, MANDEL_IM_MIN, MANDEL_IM_MAX);
            let scale = gen_range_i64(&mut rng, MANDEL_SCALE_MIN, MANDEL_SCALE_MAX);
            params_from_values(kind, cx, cy, scale, JULIA_DEFAULT_RE, JULIA_DEFAULT_IM)
        },
        FractalType::Julia => {
            let cx = gen_range_i64(&mut rng, JULIA_CENTER_MIN, JULIA_CENTER_MAX);
            let cy = gen_range_i64(&mut rng, JULIA_CENTER_MIN, JULIA_CENTER_MAX);
            let scale = gen_range_i64(&mut rng, JULIA_SCALE_MIN, JULIA_SCALE_MAX);
            let cr = gen_range_i64(&mut rng, JULIA_CONST_MIN, JULIA_CONST_MAX);
            let ci = gen_range_i64(&mut rng, JULIA_CONST_MIN, JULIA_CONST_MAX);
            params_from_values(kind, cx, cy, scale, cr, ci)
        },
    }
}

/// User-facing render settings: the chosen family, iteration cap, refresh
/// period and the parameter set of the next render.
pub struct Settings {
    pub fractal_type: FractalType,
    pub max_iter: u32,
    pub refresh_ms: u64,
    pub params: FractalParams,
}

impl Default for Settings {
    /// Mandelbrot at 512 iterations, refreshed every ten seconds, with a
    /// freshly drawn parameter set.
    fn default() -> (s: Self)
        ensures
            s.fractal_type is Mandelbrot,
            s.max_iter == 512,
            s.refresh_ms == 10_000,
            valid_params(s.params),
            params_in_generator_range(s.fractal_type, s.params),
    {
        Settings {
            fractal_type: FractalType::Mandelbrot,
            max_iter: 512,
            refresh_ms: 10_000,
            params: random_parameters(FractalType::Mandelbrot),
        }
    }
}

impl Settings {
    /// Draws a fresh parameter set for the currently selected family.
    pub fn randomize_params(&mut self)
        ensures
            final(self).fractal_type == old(self).fractal_type,
            final(self).max_iter == old(self).max_iter,
            final(self).refresh_ms == old(self).refresh_ms,
            valid_params(final(self).params),
            params_in_generator_range(final(self).fractal_type, final(self).params),
    {
        self.params = random_parameters(self.fractal_type);
    }
}

} // verus!
