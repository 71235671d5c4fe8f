use vstd::prelude::*;
use vstd::arithmetic::div_mod::{
    lemma_div_by_multiple, lemma_div_is_ordered, lemma_div_nonincreasing, lemma_div_pos_is_pos,
};

verus! {

/// The fixed-point unit: coordinates on the complex plane are carried as
/// signed 64-bit integers holding the real value times `FIXED_ONE` (a Q32.32
/// representation), so `FIXED_ONE` itself stands for the real number 1.0.
pub const FIXED_ONE: i64 = 0x1_0000_0000;

/// Truncating (round-toward-zero) division by a positive divisor. This is the
/// rounding applied whenever a wide intermediate is brought back to the
/// fixed-point scale.
pub open spec fn tdiv(n: int, d: int) -> int
    recommends
        0 < d,
{
    if n >= 0 {
        n / d
    } else {
        -((-n) / d)
    }
}

/// A quotient is bounded by `b` whenever the dividend is bounded by `b * d`.
pub proof fn lemma_tdiv_bound(n: int, d: int, b: int)
    requires
        0 < d,
        0 <= b,
        -(b * d) <= n <= b * d,
    ensures
        -b <= tdiv(n, d) <= b,
{
    if n >= 0 {
        lemma_div_pos_is_pos(n, d);
        lemma_div_is_ordered(n, b * d, d);
        lemma_div_by_multiple(b, d);
    } else {
        lemma_div_pos_is_pos(-n, d);
        lemma_div_is_ordered(-n, b * d, d);
        lemma_div_by_multiple(b, d);
    }
}

/// Truncating division of a wide intermediate by a positive divisor;
/// `u128` division rounds toward zero on the separated magnitude.
pub fn tdiv_i128(n: i128, d: i128) -> (q: i128)
    requires
        0 < d,
        i128::MIN < n,
    ensures
        q == tdiv(n as int, d as int),
{
    if n >= 0 {
        proof {
            lemma_div_pos_is_pos(n as int, d as int);
            lemma_div_nonincreasing(n as int, d as int);
        }
        ((n as u128) / (d as u128)) as i128
    } else {
        let m: u128 = (-n) as u128;
        proof {
            lemma_div_pos_is_pos(m as int, d as int);
            lemma_div_nonincreasing(m as int, d as int);
        }
        -((m / (d as u128)) as i128)
    }
}

} // verus!
