use vstd::prelude::*;
use crate::FractalType;
use crate::fixed::{FIXED_ONE, lemma_tdiv_bound, tdiv, tdiv_i128};

verus! {

/// Largest raw magnitude accepted for a coordinate or Julia constant handed
/// to the evaluator; generous headroom for every coordinate the synthesizer
/// can produce while keeping all intermediates inside `i64`/`i128`.
pub const COORD_LIMIT: i64 = 0x1000_0000_0000_0000;

/// Magnitude bound maintained for the orbit state: once the orbit is inside
/// the escape radius, one recurrence step moves it at most `4.0` (raw
/// `4 * FIXED_ONE`) away from the added constant.
pub const ORBIT_LIMIT: i64 = 0x1000_0005_0000_0000;

/// Squared-magnitude escape threshold: the real value 4.0 at the doubled
/// scale (`FIXED_ONE` squared) that a product of two raw coordinates carries.
pub const ESCAPE_SQ: i128 = 0x4_0000_0000_0000_0000;

/// Is a coordinate small enough for the evaluator?
pub open spec fn in_coord_range(x: int) -> bool {
    -COORD_LIMIT <= x <= COORD_LIMIT
}

/// Has the orbit point `(re, im)` left the escape radius of magnitude 2?
pub open spec fn escaped(re: int, im: int) -> bool {
    re * re + im * im > ESCAPE_SQ as int
}

/// Real part of one application of the recurrence `z := z^2 + c`.
pub open spec fn step_re(re: int, im: int, cr: int) -> int {
    tdiv(re * re - im * im, FIXED_ONE as int) + cr
}

/// Imaginary part of one application of the recurrence `z := z^2 + c`.
pub open spec fn step_im(re: int, im: int, ci: int) -> int {
    tdiv(2 * (re * im), FIXED_ONE as int) + ci
}

/// Number of completed recurrence steps before the orbit starting at
/// `(re, im)` leaves the escape radius, capped at `fuel`. The escape test
/// happens before each step, so a start outside the radius counts zero.
pub open spec fn escape_count(re: int, im: int, cr: int, ci: int, fuel: nat) -> nat
    decreases fuel,
{
    if fuel == 0 {
        0
    } else if escaped(re, im) {
        0
    } else {
        (1 + escape_count(step_re(re, im, cr), step_im(re, im, ci), cr, ci, (fuel - 1) as nat)) as nat
    }
}

/// What `iterate` returns: the Mandelbrot orbit starts at the origin and adds
/// the point itself, the Julia orbit starts at the point and adds the fixed
/// Julia constant.
pub open spec fn spec_iterate(
    kind: FractalType,
    re0: int,
    im0: int,
    cr: int,
    ci: int,
    max_iter: nat,
) -> nat {
    match kind {
        FractalType::Mandelbrot => escape_count(0, 0, re0, im0, max_iter),
        FractalType::Julia => escape_count(re0, im0, cr, ci, max_iter),
    }
}

/// The escape count never exceeds the iteration cap.
pub proof fn lemma_escape_count_le_fuel(re: int, im: int, cr: int, ci: int, fuel: nat)
    ensures
        escape_count(re, im, cr, ci, fuel) <= fuel,
    decreases fuel,
{
    if fuel > 0 && !escaped(re, im) {
        lemma_escape_count_le_fuel(
            step_re(re, im, cr),
            step_im(re, im, ci),
            cr,
            ci,
            (fuel - 1) as nat,
        );
    }
}

proof fn lemma_square_bounds(x: int, b: int)
    by (nonlinear_arith)
    requires
        -b <= x <= b,
        0 <= b,
    ensures
        0 <= x * x <= b * b,
{
}

proof fn lemma_abs_mul_bound(x: int, y: int, b1: int, b2: int)
    by (nonlinear_arith)
    requires
        -b1 <= x <= b1,
        -b2 <= y <= b2,
        0 <= b1,
        0 <= b2,
    ensures
        -(b1 * b2) <= x * y <= b1 * b2,
{
}

proof fn lemma_two_cross_bound(x: int, y: int, s: int)
    by (nonlinear_arith)
    requires
        x * x + y * y <= s,
    ensures
        -s <= 2 * (x * y) <= s,
{
}

/// Core escape-time loop on an orbit starting at `(re_init, im_init)` with
/// additive constant `(cr, ci)`, all in fixed point.
fn escape_loop(re_init: i64, im_init: i64, cr: i64, ci: i64, max_iter: u32) -> (count: u32)
    requires
        in_coord_range(re_init as int),
        in_coord_range(im_init as int),
        in_coord_range(cr as int),
        in_coord_range(ci as int),
    ensures
        count == escape_count(re_init as int, im_init as int, cr as int, ci as int, max_iter as nat),
        count <= max_iter,
{
    let mut re: i64 = re_init;
    let mut im: i64 = im_init;
    let mut i: u32 = 0;
    while i < max_iter
        invariant_except_break
            i <= max_iter,
            -ORBIT_LIMIT <= re <= ORBIT_LIMIT,
            -ORBIT_LIMIT <= im <= ORBIT_LIMIT,
            in_coord_range(cr as int),
            in_coord_range(ci as int),
            escape_count(re_init as int, im_init as int, cr as int, ci as int, max_iter as nat)
                == i + escape_count(re as int, im as int, cr as int, ci as int, (max_iter - i) as nat),
        ensures
            i <= max_iter,
            escape_count(re_init as int, im_init as int, cr as int, ci as int, max_iter as nat) == i,
        decreases max_iter - i,
    {
        proof {
            lemma_square_bounds(re as int, ORBIT_LIMIT as int);
            lemma_square_bounds(im as int, ORBIT_LIMIT as int);
            lemma_abs_mul_bound(re as int, im as int, ORBIT_LIMIT as int, ORBIT_LIMIT as int);
        }
        let p_re: i128 = (re as i128) * (re as i128);
        let p_im: i128 = (im as i128) * (im as i128);
        if p_re + p_im > ESCAPE_SQ {
            break;
        }
        proof {
            lemma_tdiv_bound(p_re as int - p_im as int, FIXED_ONE as int, 4 * (FIXED_ONE as int));
            lemma_two_cross_bound(re as int, im as int, ESCAPE_SQ as int);
            lemma_tdiv_bound(
                2 * ((re as int) * (im as int)),
                FIXED_ONE as int,
                4 * (FIXED_ONE as int),
            );
        }
        let cross: i128 = (re as i128) * (im as i128);
        let new_re_wide: i128 = tdiv_i128(p_re - p_im, FIXED_ONE as i128) + (cr as i128);
        let new_im_wide: i128 = tdiv_i128(2 * cross, FIXED_ONE as i128) + (ci as i128);
        re = new_re_wide as i64;
        im = new_im_wide as i64;
        i = i + 1;
    }
    i
}

/// Escape count of the Mandelbrot recurrence at parameter `(re0, im0)`:
/// the orbit starts at the origin and the parameter itself is added at
/// every step.
pub fn mandelbrot(re0: i64, im0: i64, max_iter: u32) -> (count: u32)
    requires
        in_coord_range(re0 as int),
        in_coord_range(im0 as int),
    ensures
        count == escape_count(0, 0, re0 as int, im0 as int, max_iter as nat),
        count <= max_iter,
{
    escape_loop(0, 0, re0, im0, max_iter)
}

/// Escape count of the Julia recurrence at point `(re0, im0)` with the fixed
/// Julia constant `(cr, ci)` added at every step.
pub fn julia(re0: i64, im0: i64, cr: i64, ci: i64, max_iter: u32) -> (count: u32)
    requires
        in_coord_range(re0 as int),
        in_coord_range(im0 as int),
        in_coord_range(cr as int),
        in_coord_range(ci as int),
    ensures
        count == escape_count(re0 as int, im0 as int, cr as int, ci as int, max_iter as nat),
        count <= max_iter,
{
    escape_loop(re0, im0, cr, ci, max_iter)
}

/// Escape count for a point of either fractal family. The result is the
/// number of completed non-escaping recurrence steps and never exceeds the
/// iteration cap.
pub fn iterate(
    kind: FractalType,
    re0: i64,
    im0: i64,
    cr: i64,
    ci: i64,
    max_iter: u32,
) -> (count: u32)
    requires
        in_coord_range(re0 as int),
        in_coord_range(im0 as int),
        in_coord_range(cr as int),
        in_coord_range(ci as int),
    ensures
        count == spec_iterate(kind, re0 as int, im0 as int, cr as int, ci as int, max_iter as nat),
        count <= max_iter,
{
    match kind {
        FractalType::Mandelbrot => mandelbrot(re0, im0, max_iter),
        FractalType::Julia => julia(re0, im0, cr, ci, max_iter),
    }
}

/// The orbit of the Mandelbrot recurrence at the origin is a fixed point:
/// it never escapes, so the evaluator returns the iteration cap itself.
pub proof fn lemma_mandelbrot_origin_never_escapes(max_iter: nat)
    ensures
        spec_iterate(FractalType::Mandelbrot, 0, 0, 0, 0, max_iter) == max_iter,
    decreases max_iter,
{
    if max_iter > 0 {
        assert(!escaped(0, 0));
        assert(step_re(0, 0, 0) == 0);
        assert(step_im(0, 0, 0) == 0);
        lemma_mandelbrot_origin_never_escapes((max_iter - 1) as nat);
    }
}

/// A Julia point that already lies outside the escape radius is counted out
/// before any step: the evaluator returns zero.
pub proof fn lemma_julia_escapes_immediately(re0: int, im0: int, cr: int, ci: int, max_iter: nat)
    requires
        re0 * re0 + im0 * im0 > ESCAPE_SQ as int,
        max_iter >= 1,
    ensures
        spec_iterate(FractalType::Julia, re0, im0, cr, ci, max_iter) == 0,
{
}

/// A Mandelbrot parameter outside the escape radius escapes after exactly one
/// completed step: the orbit starts at the origin, which is inside the
/// radius, and the first step carries it to the parameter itself.
pub proof fn lemma_mandelbrot_far_parameter_escapes_after_one(re0: int, im0: int, max_iter: nat)
    requires
        re0 * re0 + im0 * im0 > ESCAPE_SQ as int,
        max_iter >= 1,
    ensures
        spec_iterate(FractalType::Mandelbrot, re0, im0, 0, 0, max_iter) == 1,
{
    assert(!escaped(0, 0));
    assert(step_re(0, 0, re0) == re0);
    assert(step_im(0, 0, im0) == im0);
    assert(escaped(re0, im0));
    assert(escape_count(re0, im0, re0, im0, (max_iter - 1) as nat) == 0);
}

} // verus!
