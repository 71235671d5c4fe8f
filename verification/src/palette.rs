use vstd::prelude::*;
use vstd::arithmetic::div_mod::lemma_div_pos_is_pos;

verus! {

/// An 8-bit RGB color.
#[derive(Clone, Copy, PartialEq, Eq, Structural, Debug)]
pub struct Rgb {
    pub r: u8,
    pub g: u8,
    pub b: u8,
}

/// Solid black, the color of interior points.
pub open spec fn black() -> Rgb {
    Rgb { r: 0, g: 0, b: 0 }
}

/// Largest iteration cap the color mapper accepts; keeps the exact
/// numerators of the channel polynomials inside `u128`.
pub const MAX_ITER_LIMIT: u32 = 0x1000_0000;

/// Truncation of a non-negative channel value to the 8-bit range. The
/// polynomial below is mathematically below 256 on `[0, 1)`, so the clamp is
/// a defensive identity there.
pub open spec fn clamp8(x: int) -> int {
    if x > 255 {
        255
    } else {
        x
    }
}

/// Red channel before truncation, as an exact fraction: with `t = i / m`,
/// the polynomial `9 (1-t) t^3 * 255` equals `2295 i^3 (m-i) / m^4`.
pub open spec fn red_channel(i: int, m: int) -> int {
    (2295 * (i * i * i * (m - i))) / (m * m * m * m)
}

/// Green channel: `15 (1-t)^2 t^2 * 255 == 3825 i^2 (m-i)^2 / m^4`.
pub open spec fn green_channel(i: int, m: int) -> int {
    (3825 * (i * i * (m - i) * (m - i))) / (m * m * m * m)
}

/// Blue channel: `8.5 (1-t)^3 t * 255 == 4335 (m-i)^3 i / (2 m^4)`.
pub open spec fn blue_channel(i: int, m: int) -> int {
    (4335 * ((m - i) * (m - i) * (m - i) * i)) / (2 * (m * m * m * m))
}

/// The color assigned to an iteration count: interior points (count at or
/// above the cap) are black, others get the polynomial palette evaluated
/// exactly and truncated to 8-bit channels.
pub open spec fn spec_palette(i: int, m: int) -> Rgb {
    if i >= m {
        black()
    } else {
        Rgb {
            r: clamp8(red_channel(i, m)) as u8,
            g: clamp8(green_channel(i, m)) as u8,
            b: clamp8(blue_channel(i, m)) as u8,
        }
    }
}

proof fn lemma_mul_le(a: int, b: int, c: int, d: int)
    by (nonlinear_arith)
    requires
        0 <= a <= b,
        0 <= c <= d,
    ensures
        0 <= a * c <= b * d,
{
}

/// A zero count zeroes every polynomial term, and an interior count is
/// painted black by definition.
pub proof fn lemma_palette_black_cases(i: int, m: int)
    requires
        0 <= i,
        0 <= m,
    ensures
        i >= m ==> spec_palette(i, m) == black(),
        i == 0 ==> spec_palette(i, m) == black(),
{
    if i == 0 && i < m {
        let d = m * m * m * m;
        assert(0 < m * m * m * m) by (nonlinear_arith)
            requires
                1 <= m,
        ;
        assert(i * i * i * (m - i) == 0) by (nonlinear_arith)
            requires
                i == 0,
        ;
        assert(i * i * (m - i) * (m - i) == 0) by (nonlinear_arith)
            requires
                i == 0,
        ;
        assert((m - i) * (m - i) * (m - i) * i == 0) by (nonlinear_arith)
            requires
                i == 0,
        ;
        vstd::arithmetic::div_mod::lemma_basic_div(0, d);
        vstd::arithmetic::div_mod::lemma_basic_div(0, 2 * d);
    }
}

/// Smooth polynomial color for an iteration count `iter` under the cap
/// `max_iter`; interior points come out solid black.
pub fn palette(iter: u32, max_iter: u32) -> (c: Rgb)
    requires
        max_iter <= MAX_ITER_LIMIT,
    ensures
        c == spec_palette(iter as int, max_iter as int),
        iter >= max_iter ==> c == black(),
        iter == 0 ==> c == black(),
{
    proof {
        lemma_palette_black_cases(iter as int, max_iter as int);
    }
    if iter >= max_iter {
        return Rgb { r: 0, g: 0, b: 0 };
    }
    let i: u128 = iter as u128;
    let m: u128 = max_iter as u128;
    let ghost gi: int = i as int;
    let ghost gm: int = m as int;
    let ghost cap: int = MAX_ITER_LIMIT as int;
    proof {
        lemma_mul_le(gm, cap, gm, cap);
        lemma_mul_le(gm * gm, cap * cap, gm, cap);
        lemma_mul_le(gm * gm * gm, cap * cap * cap, gm, cap);
        lemma_mul_le(gi, cap, gi, cap);
        lemma_mul_le(gi * gi, cap * cap, gi, cap);
        lemma_mul_le(gi * gi * gi, cap * cap * cap, gm - gi, cap);
        lemma_mul_le(gi * gi, cap * cap, gm - gi, cap);
        lemma_mul_le(gi * gi * (gm - gi), cap * cap * cap, gm - gi, cap);
        lemma_mul_le(gm - gi, cap, gm - gi, cap);
        lemma_mul_le((gm - gi) * (gm - gi), cap * cap, gm - gi, cap);
        lemma_mul_le((gm - gi) * (gm - gi) * (gm - gi), cap * cap * cap, gi, cap);
        assert(0 < gm * gm * gm * gm) by (nonlinear_arith)
            requires
                1 <= gm,
        ;
        lemma_div_pos_is_pos(2295 * (gi * gi * gi * (gm - gi)), gm * gm * gm * gm);
        lemma_div_pos_is_pos(3825 * (gi * gi * (gm - gi) * (gm - gi)), gm * gm * gm * gm);
        lemma_div_pos_is_pos(
            4335 * ((gm - gi) * (gm - gi) * (gm - gi) * gi),
            2 * (gm * gm * gm * gm),
        );
    }
    let d: u128 = m * m * m * m;
    let mi: u128 = m - i;
    let rn: u128 = 2295 * (i * i * i * mi);
    let gn: u128 = 3825 * (i * i * mi * mi);
    let bn: u128 = 4335 * (mi * mi * mi * i);
    let rq: u128 = rn / d;
    let gq: u128 = gn / d;
    let bq: u128 = bn / (2 * d);
    let r: u8 = if rq > 255 {
        255
    } else {
        rq as u8
    };
    let g: u8 = if gq > 255 {
        255
    } else {
        gq as u8
    };
    let b: u8 = if bq > 255 {
        255
    } else {
        bq as u8
    };
    Rgb { r, g, b }
}

} // verus!
