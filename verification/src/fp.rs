//! Fixed-point arithmetic: values are `i64` counts of millionths.
//!
//! Multiplication of two fixed-point values divides the wide product by the
//! scale, truncating toward zero, which is the documented rounding rule for
//! the whole library. Angle values are kept in `[0, 2*pi)` by a Euclidean
//! remainder, so a reduced angle is never negative.

use vstd::prelude::*;

verus! {

/// One unit, in millionths. All fixed-point values in the crate use this scale.
pub const SCALE: i64 = 1_000_000;

/// A quarter turn in fixed-point radians (pi/2, truncated to millionths).
pub const HALF_PI_FP: i64 = 1_570_796;

/// Half a turn, exactly two quarter turns, so quadrant arithmetic is exact.
pub const PI_FP: i64 = 3_141_592;

/// A full turn, exactly four quarter turns.
pub const TWO_PI_FP: i64 = 6_283_184;

/// An eighth of a turn (pi/4), exactly half a quarter turn.
pub const QUARTER_PI_FP: i64 = 785_398;

/// Division truncating toward zero by a positive divisor (the sign of the
/// quotient follows the dividend). On a non-negative dividend this agrees
/// with Euclidean division.
pub open spec fn div_trunc(p: int, q: int) -> int {
    if p >= 0 {
        p / q
    } else {
        -((-p) / q)
    }
}

/// Division by the scale, truncating toward zero.
pub open spec fn div_scale(p: int) -> int {
    div_trunc(p, SCALE as int)
}

/// The product of two fixed-point values: the wide product scaled back down,
/// truncating toward zero.
pub open spec fn fmul(a: int, b: int) -> int {
    div_scale(a * b)
}

/// The Euclidean remainder of `x` by a full turn: always in `[0, 2*pi)`.
pub open spec fn wrap_angle(x: int) -> int {
    x % (TWO_PI_FP as int)
}

/// Magnitudes multiply: a bound on each factor bounds the product.
pub proof fn lemma_mul_le(a: int, b: int, aa: int, bb: int) by (nonlinear_arith)
    requires
        -aa <= a <= aa,
        -bb <= b <= bb,
        0 <= aa,
        0 <= bb,
    ensures
        -(aa * bb) <= a * b <= aa * bb,
{
}

/// Scaling down preserves a magnitude bound: if the wide product is within
/// `m * SCALE`, the fixed-point product is within `m`.
pub proof fn lemma_div_scale_le(p: int, m: int) by (nonlinear_arith)
    requires
        0 <= m,
        -(m * (SCALE as int)) <= p <= m * (SCALE as int),
    ensures
        -m <= div_scale(p) <= m,
{
}

/// A bound on each factor bounds the fixed-point product by the scaled-down
/// product of the bounds.
pub proof fn lemma_fmul_le(a: int, b: int, aa: int, bb: int)
    requires
        -aa <= a <= aa,
        -bb <= b <= bb,
        0 <= aa,
        0 <= bb,
    ensures
        -(aa * bb) / (SCALE as int) - 1 <= fmul(a, b) <= (aa * bb) / (SCALE as int) + 1,
{
    lemma_mul_le(a, b, aa, bb);
    assert(aa * bb <= ((aa * bb) / (SCALE as int) + 1) * (SCALE as int)) by (nonlinear_arith);
    lemma_div_scale_le(a * b, (aa * bb) / (SCALE as int) + 1);
}

/// Scaling down then back up loses less than one whole scale unit.
pub proof fn lemma_div_scale_err(p: int)
    ensures
        p - (SCALE - 1) <= div_scale(p) * (SCALE as int) <= p + (SCALE - 1),
{
    if p >= 0 {
        vstd::arithmetic::div_mod::lemma_fundamental_div_mod(p, SCALE as int);
        vstd::arithmetic::div_mod::lemma_mod_bound(p, SCALE as int);
    } else {
        vstd::arithmetic::div_mod::lemma_fundamental_div_mod(-p, SCALE as int);
        vstd::arithmetic::div_mod::lemma_mod_bound(-p, SCALE as int);
        let q = (-p) / (SCALE as int);
        assert((-q) * (SCALE as int) == -(q * (SCALE as int))) by (nonlinear_arith);
    }
}

/// Fixed-point multiplication. Truncates toward zero, as `div_scale` says.
pub fn fixed_mul(a: i64, b: i64) -> (r: i64)
    requires
        i64::MIN <= fmul(a as int, b as int) <= i64::MAX,
    ensures
        r == fmul(a as int, b as int),
{
    let p: i128 = (a as i128) * (b as i128);
    if p >= 0 {
        (((p as u128) / (SCALE as u128)) as i128) as i64
    } else {
        (-((((-p) as u128) / (SCALE as u128)) as i128)) as i64
    }
}

/// The Euclidean remainder of `x` by a positive modulus `m`: in `[0, m)`,
/// also for negative `x`.
pub fn rem_euclid_fp(x: i64, m: i64) -> (r: i64)
    requires
        0 < m,
    ensures
        r == (x as int) % (m as int),
        0 <= r < m,
{
    if x >= 0 {
        (((x as u64) % (m as u64)) as i64)
    } else {
        proof {
            lemma_rem_of_negated(x as int, m as int);
        }
        let neg_rem: u64 = ((-(x as i128)) as u64) % (m as u64);
        if neg_rem == 0 {
            0
        } else {
            m - (neg_rem as i64)
        }
    }
}

/// Relates the Euclidean remainder of a negative value to the remainder of
/// its negation.
proof fn lemma_rem_of_negated(x: int, m: int)
    requires
        x < 0,
        0 < m,
    ensures
        (-x) % m == 0 ==> x % m == 0,
        (-x) % m != 0 ==> x % m == m - (-x) % m,
{
    let q = (-x) / m;
    let r = (-x) % m;
    vstd::arithmetic::div_mod::lemma_fundamental_div_mod(-x, m);
    vstd::arithmetic::div_mod::lemma_mod_bound(-x, m);
    assert(x == (-q) * m - r) by (nonlinear_arith)
        requires
            -x == q * m + r,
    ;
    if r == 0 {
        assert(x % m == 0) by {
            vstd::arithmetic::div_mod::lemma_mod_multiples_basic(-q, m);
        }
    } else {
        assert(x == (-q - 1) * m + (m - r)) by (nonlinear_arith)
            requires
                x == (-q) * m - r,
        ;
        assert(x % m == m - r) by {
            vstd::arithmetic::div_mod::lemma_fundamental_div_mod_converse(
                x, m, -q - 1, m - r);
        }
    }
}

/// Reduces a wide angle sum into `[0, 2*pi)` with a Euclidean remainder.
pub fn wrap_angle_wide(x: i128) -> (r: i64)
    requires
        i128::MIN < x,
    ensures
        r == wrap_angle(x as int),
        0 <= r < TWO_PI_FP,
{
    let m: u128 = TWO_PI_FP as u128;
    if x >= 0 {
        (((x as u128) % m) as i64)
    } else {
        proof {
            lemma_rem_of_negated(x as int, TWO_PI_FP as int);
        }
        let neg_rem: u128 = ((-x) as u128) % m;
        if neg_rem == 0 {
            0
        } else {
            TWO_PI_FP - (neg_rem as i64)
        }
    }
}

/// Linear interpolation between two fixed-point values: at ratio 0 the start,
/// at ratio 1 the end, and the straight line in between. This is the rule a
/// host's tween player applies to the tween records of the scene manifest.
pub fn lerp_fp(start: i64, end: i64, ratio: i64) -> (r: i64)
    requires
        0 <= ratio <= SCALE,
        -1_000_000_000_000 <= start <= 1_000_000_000_000,
        -1_000_000_000_000 <= end <= 1_000_000_000_000,
    ensures
        r == start + fmul(end - start, ratio as int),
        ratio == 0 ==> r == start,
        ratio == SCALE ==> r == end,
{
    proof {
        lemma_fmul_le(end - start, ratio as int, 2_000_000_000_000, SCALE as int);
        if ratio == 0 {
            assert((end - start) * 0 == 0) by (nonlinear_arith);
            assert(fmul(end - start, 0) == 0);
        }
        if ratio == SCALE {
            assert(fmul(end - start, SCALE as int) == end - start) by {
                lemma_exact_scale_cancel(end - start);
            }
        }
    }
    let diff: i64 = end - start;
    start + fixed_mul(diff, ratio)
}

/// Multiplying by one whole unit and scaling back down returns the value:
/// the fixed-point product with `SCALE` is exact.
pub proof fn lemma_exact_scale_cancel(v: int)
    ensures
        fmul(v, SCALE as int) == v,
{
    if v >= 0 {
        assert(v * (SCALE as int) >= 0) by (nonlinear_arith)
            requires
                v >= 0,
        ;
        assert((v * (SCALE as int)) / (SCALE as int) == v) by {
            vstd::arithmetic::div_mod::lemma_div_by_multiple(v, SCALE as int);
        }
    } else {
        assert(v * (SCALE as int) < 0) by (nonlinear_arith)
            requires
                v < 0,
        ;
        assert(-(v * (SCALE as int)) == (-v) * (SCALE as int)) by (nonlinear_arith);
        assert(((-v) * (SCALE as int)) / (SCALE as int) == -v) by {
            vstd::arithmetic::div_mod::lemma_div_by_multiple(-v, SCALE as int);
        }
    }
}

} // verus!
