use vstd::arithmetic::div_mod::{
    lemma_div_is_ordered, lemma_div_non_zero, lemma_div_nonincreasing, lemma_div_pos_is_pos,
    lemma_fundamental_div_mod, lemma_fundamental_div_mod_converse_div,
    lemma_mod_division_less_than_divisor,
};
use vstd::prelude::*;

verus! {

/// One whole unit of the fixed-point encoding. Lengths are carried in
/// millionths of a pixel and scale factors in millionths, so every
/// geometric operation is exact integer arithmetic with stated rounding.
pub const FIX_ONE: i64 = 1_000_000;

/// Largest scale factor the engine ever holds: a million-fold zoom,
/// reached only by fitting a one-pixel image into a maximal container.
pub const SCALE_LIMIT: i64 = 1_000_000_000_000;

/// Largest coordinate magnitude (container corner, container size,
/// pointer position) the engine accepts: a million pixels.
pub const COORD_LIMIT: i64 = 1_000_000_000_000;

/// Pan offsets saturate at this magnitude (a million million pixels),
/// far beyond any reachable screen position; panning is otherwise
/// unbounded on purpose.
pub const OFFSET_LIMIT: i64 = 1_000_000_000_000_000_000;

/// Largest image side the engine accepts, in pixels.
pub const MAX_IMAGE_DIM: u32 = 1_000_000;

/// Numerator magnitude up to which `floor_div_i128` is specified.
pub const FLOOR_DIV_RANGE: i128 = 1_000_000_000_000_000_000_000_000_000_000_000_000;

/// Clamping of a value into a closed interval.
pub open spec fn clamp_spec(v: int, lo: int, hi: int) -> int {
    if v < lo {
        lo
    } else if v > hi {
        hi
    } else {
        v
    }
}

/// Saturation of an ideal offset into the representable range.
pub open spec fn sat_offset_spec(v: int) -> int {
    clamp_spec(v, -(OFFSET_LIMIT as int), OFFSET_LIMIT as int)
}

pub fn clamp_i64(v: i64, lo: i64, hi: i64) -> (r: i64)
    requires
        lo <= hi,
    ensures
        r == clamp_spec(v as int, lo as int, hi as int),
        lo <= r <= hi,
{
    if v < lo {
        lo
    } else if v > hi {
        hi
    } else {
        v
    }
}

pub fn sat_offset(v: i128) -> (r: i64)
    ensures
        r == sat_offset_spec(v as int),
        -OFFSET_LIMIT <= r <= OFFSET_LIMIT,
{
    if v > OFFSET_LIMIT as i128 {
        OFFSET_LIMIT
    } else if v < -(OFFSET_LIMIT as i128) {
        -OFFSET_LIMIT
    } else {
        v as i64
    }
}

/// Euclidean quotient of two machine integers with a non-negative
/// numerator. Every divisor in this crate is positive, so the Euclidean
/// quotient and the floored quotient coincide.
pub fn div_pos(a: i64, b: i64) -> (q: i64)
    requires
        0 <= a,
        0 < b,
    ensures
        q == a as int / b as int,
        0 <= q <= a,
{
    proof {
        lemma_div_pos_is_pos(a as int, b as int);
        lemma_div_nonincreasing(a as int, b as int);
    }
    ((a as u64) / (b as u64)) as i64
}

/// Floored quotient over `i128`, for a positive divisor. Matches the
/// mathematical `/` of the specification language, which rounds toward
/// negative infinity when the divisor is positive.
pub fn floor_div_i128(n: i128, d: i128) -> (q: i128)
    requires
        0 < d <= 10_000_000_000_000_000_000,
        -FLOOR_DIV_RANGE <= n <= FLOOR_DIV_RANGE,
    ensures
        q == n as int / d as int,
        -FLOOR_DIV_RANGE <= q <= FLOOR_DIV_RANGE,
{
    if n >= 0 {
        proof {
            lemma_div_pos_is_pos(n as int, d as int);
            lemma_div_nonincreasing(n as int, d as int);
        }
        ((n as u128) / (d as u128)) as i128
    } else {
        let m: u128 = (-n) as u128;
        let du: u128 = d as u128;
        let qq: u128 = (m + du - 1) / du;
        proof {
            lemma_div_pos_is_pos(m as int + du as int - 1, du as int);
            lemma_div_nonincreasing(m as int + du as int - 1, du as int);
            lemma_neg_floor_div(n as int, d as int);
        }
        -(qq as i128)
    }
}

/// The floored quotient of a negative numerator by a positive divisor
/// is the negated ceiling quotient of its magnitude.
pub proof fn lemma_neg_floor_div(n: int, d: int)
    requires
        n < 0,
        0 < d,
    ensures
        n / d == -((-n + d - 1) / d),
        n <= n / d <= 0,
{
    let m = -n;
    let a = m / d;
    let r = m % d;
    lemma_fundamental_div_mod(m, d);
    lemma_mod_division_less_than_divisor(m, d);
    lemma_div_pos_is_pos(m, d);
    lemma_div_nonincreasing(m, d);
    assert(m == d * a + r);
    if r == 0 {
        assert(m + d - 1 == a * d + (d - 1)) by (nonlinear_arith)
            requires
                m == d * a,
        ;
        lemma_fundamental_div_mod_converse_div(m + d - 1, d, a, d - 1);
        assert(n == (-a) * d + 0) by (nonlinear_arith)
            requires
                n == -m,
                m == d * a,
        ;
        lemma_fundamental_div_mod_converse_div(n, d, -a, 0);
    } else {
        assert(m + d - 1 == (a + 1) * d + (r - 1)) by (nonlinear_arith)
            requires
                m == d * a + r,
        ;
        assert(m >= a + 1) by (nonlinear_arith)
            requires
                m == d * a + r,
                1 <= r,
                1 <= d,
                0 <= a,
        ;
        lemma_fundamental_div_mod_converse_div(m + d - 1, d, a + 1, r - 1);
        assert(n == (-(a + 1)) * d + (d - r)) by (nonlinear_arith)
            requires
                n == -m,
                m == d * a + r,
        ;
        lemma_fundamental_div_mod_converse_div(n, d, -(a + 1), d - r);
    }
}

/// Interval bound on a product, from interval bounds on its factors.
pub proof fn lemma_mul_bound(a: int, b: int, m: int, n: int)
    requires
        -m <= a <= m,
        -n <= b <= n,
        0 <= m,
        0 <= n,
    ensures
        -(m * n) <= a * b <= m * n,
{
    assert(-(m * n) <= a * b <= m * n) by (nonlinear_arith)
        requires
            -m <= a <= m,
            -n <= b <= n,
            0 <= m,
            0 <= n,
    ;
}

/// Dividing a smaller non-negative numerator by the same positive
/// divisor gives a quotient no larger.
pub proof fn lemma_div_ordered_pos(x: int, y: int, d: int)
    requires
        x <= y,
        0 < d,
    ensures
        x / d <= y / d,
{
    lemma_div_is_ordered(x, y, d);
}

/// A numerator at least the divisor gives a quotient of at least one.
pub proof fn lemma_div_at_least_one(x: int, d: int)
    requires
        0 < d <= x,
    ensures
        1 <= x / d,
{
    lemma_div_non_zero(x, d);
}

} // verus!
