//! 16.16 fixed-point scalar arithmetic.
//!
//! A scalar is an `i64` holding `value * 65536`. Every arithmetic
//! operation saturates at `±FP_LIM`, so the operations are total and
//! every value flowing through the pipeline stays inside a range on
//! which products fit in `i128` (and most fit in `i64`).

use vstd::prelude::*;

verus! {

/// One unit (1.0) in 16.16 fixed point.
pub const FP_ONE: i64 = 65536;

/// One half (0.5) in 16.16 fixed point.
pub const FP_HALF: i64 = 32768;

/// Saturation bound: 2^40, about ±16.7 million units.
pub const FP_LIM: i64 = 1099511627776;

/// Pi in 16.16 fixed point (round(pi * 65536)).
pub const PI_FP: i64 = 205887;

/// Two pi, kept as exactly twice `PI_FP` so that range reduction
/// into the half-period never leaves `[0, PI_FP]`.
pub const TWO_PI_FP: i64 = 411774;

/// Half pi in 16.16 fixed point.
pub const HALF_PI_FP: i64 = 102944;

pub open spec fn fp_ok(x: int) -> bool {
    -(FP_LIM as int) <= x <= FP_LIM as int
}

/// Clamp an unbounded integer into the representable range.
pub open spec fn sat(x: int) -> int {
    if x > FP_LIM as int {
        FP_LIM as int
    } else if x < -(FP_LIM as int) {
        -(FP_LIM as int)
    } else {
        x
    }
}

pub open spec fn iabs(x: int) -> int {
    if x >= 0 {
        x
    } else {
        -x
    }
}

/// Division truncated toward zero (the rounding a hardware divide
/// and a float-to-int cast both use).
pub open spec fn tdiv(a: int, b: int) -> int
    recommends
        b != 0,
{
    if (a >= 0) == (b >= 0) {
        iabs(a) / iabs(b)
    } else {
        -(iabs(a) / iabs(b))
    }
}

/// Truncating division on `i128`, the workhorse behind the saturating
/// operations.
pub fn tdiv_i128(a: i128, b: i128) -> (r: i128)
    requires
        a != i128::MIN,
        b != 0,
        b != i128::MIN,
    ensures
        r == tdiv(a as int, b as int),
{
    let ua: u128 = if a >= 0 {
        a as u128
    } else {
        (-a) as u128
    };
    let ub: u128 = if b >= 0 {
        b as u128
    } else {
        (-b) as u128
    };
    let q: u128 = ua / ub;
    assert(q <= ua);
    if (a >= 0) == (b >= 0) {
        q as i128
    } else {
        -(q as i128)
    }
}

/// Truncating division on `i64`.
pub fn tdiv_i64(a: i64, b: i64) -> (r: i64)
    requires
        a != i64::MIN,
        b != 0,
        b != i64::MIN,
    ensures
        r == tdiv(a as int, b as int),
{
    let ua: u64 = if a >= 0 {
        a as u64
    } else {
        (-a) as u64
    };
    let ub: u64 = if b >= 0 {
        b as u64
    } else {
        (-b) as u64
    };
    let q: u64 = ua / ub;
    assert(q <= ua);
    if (a >= 0) == (b >= 0) {
        q as i64
    } else {
        -(q as i64)
    }
}

/// Euclidean remainder: the unique value in `[0, b)` congruent to `a`.
pub fn floor_mod_i64(a: i64, b: i64) -> (r: i64)
    requires
        a != i64::MIN,
        0 < b,
    ensures
        r == a as int % b as int,
        0 <= r < b,
{
    let q: i64 = tdiv_i64(a, b);
    proof {
        lemma_tdiv_mul_bound(a as int, b as int);
    }
    let t: i64 = a - q * b;
    proof {
        vstd::arithmetic::div_mod::lemma_fundamental_div_mod(a as int, b as int);
        vstd::arithmetic::mul::lemma_mul_is_commutative(a as int / b as int, b as int);
        if a >= 0 {
            assert(t == a as int % b as int);
        } else {
            vstd::arithmetic::div_mod::lemma_mod_bound(a as int, b as int);
            if (-a) as int % b as int == 0 {
                vstd::arithmetic::div_mod::lemma_mod_multiples_vanish(
                    -((-a) as int / b as int),
                    0,
                    b as int,
                );
                assert(t == a as int % b as int) by {
                    assert(a as int == -((-a) as int / b as int) * b as int) by {
                        vstd::arithmetic::div_mod::lemma_fundamental_div_mod(
                            (-a) as int,
                            b as int,
                        );
                        vstd::arithmetic::mul::lemma_mul_is_commutative(
                            (-a) as int / b as int,
                            b as int,
                        );
                        vstd::arithmetic::mul::lemma_mul_unary_negation(
                            (-a) as int / b as int,
                            b as int,
                        );
                    }
                }
            } else {
                assert(t == a as int % b as int - b) by {
                    vstd::arithmetic::div_mod::lemma_fundamental_div_mod((-a) as int, b as int);
                    assert((-a) as int == b as int * ((-a) as int / b as int) + (-a) as int % b
                        as int);
                    vstd::arithmetic::mul::lemma_mul_is_commutative(
                        (-a) as int / b as int,
                        b as int,
                    );
                    vstd::arithmetic::mul::lemma_mul_unary_negation(
                        (-a) as int / b as int,
                        b as int,
                    );
                    lemma_neg_mod(a as int, b as int);
                }
            }
        }
    }
    if t < 0 {
        t + b
    } else {
        t
    }
}

/// `q*b` stays within `|a|` for the truncating quotient, so the
/// remainder computation cannot overflow.
proof fn lemma_tdiv_mul_bound(a: int, b: int)
    requires
        b > 0,
    ensures
        iabs(tdiv(a, b) * b) <= iabs(a),
        a >= 0 ==> 0 <= tdiv(a, b) * b <= a,
        a < 0 ==> a <= tdiv(a, b) * b <= 0,
{
    if a >= 0 {
        assert(0 <= a / b * b <= a) by {
            vstd::arithmetic::div_mod::lemma_fundamental_div_mod(a, b);
            vstd::arithmetic::div_mod::lemma_mod_bound(a, b);
            vstd::arithmetic::div_mod::lemma_div_pos_is_pos(a, b);
            vstd::arithmetic::mul::lemma_mul_nonnegative(a / b, b);
            vstd::arithmetic::mul::lemma_mul_is_commutative(a / b, b);
        }
    } else {
        assert(0 <= (-a) / b * b <= -a) by {
            vstd::arithmetic::div_mod::lemma_fundamental_div_mod(-a, b);
            vstd::arithmetic::div_mod::lemma_mod_bound(-a, b);
            vstd::arithmetic::div_mod::lemma_div_pos_is_pos(-a, b);
            vstd::arithmetic::mul::lemma_mul_nonnegative((-a) / b, b);
            vstd::arithmetic::mul::lemma_mul_is_commutative((-a) / b, b);
        }
        assert(tdiv(a, b) * b == -((-a) / b * b)) by {
            assert(tdiv(a, b) == -((-a) / b));
            vstd::arithmetic::mul::lemma_mul_unary_negation((-a) / b, b);
        }
    }
}

/// Relates the Euclidean remainders of `a` and `-a` when neither is a
/// multiple of `b`.
proof fn lemma_neg_mod(a: int, b: int)
    requires
        b > 0,
        a < 0,
        (-a) % b != 0,
    ensures
        a % b == b - (-a) % b,
{
    let m = (-a) % b;
    vstd::arithmetic::div_mod::lemma_fundamental_div_mod(-a, b);
    vstd::arithmetic::div_mod::lemma_mod_bound(-a, b);
    assert(a == -(b * ((-a) / b)) - m);
    assert(a == b * (-((-a) / b) - 1) + (b - m)) by {
        vstd::arithmetic::mul::lemma_mul_is_distributive_sub(b, -((-a) / b), 1);
        vstd::arithmetic::mul::lemma_mul_unary_negation(b, (-a) / b);
    }
    vstd::arithmetic::div_mod::lemma_fundamental_div_mod_converse(
        a,
        b,
        -((-a) / b) - 1,
        b - m,
    );
}

/// A product of bounded factors is bounded by the product of the
/// bounds.
pub proof fn lemma_abs_mul_le(a: int, b: int, la: int, lb: int)
    requires
        iabs(a) <= la,
        iabs(b) <= lb,
    ensures
        iabs(a * b) <= la * lb,
{
    assert(iabs(a * b) == iabs(a) * iabs(b)) by (nonlinear_arith);
    assert(iabs(a) * iabs(b) <= la * lb) by (nonlinear_arith)
        requires
            0 <= iabs(a) <= la,
            0 <= iabs(b) <= lb,
    ;
}

/// A truncating quotient is bounded by `c` whenever the numerator is
/// bounded by `b * c`.
pub proof fn lemma_tdiv_bound(a: int, b: int, c: int)
    requires
        b > 0,
        0 <= c,
        iabs(a) <= b * c,
    ensures
        iabs(tdiv(a, b)) <= c,
{
    assert(iabs(a) / b <= b * c / b) by {
        vstd::arithmetic::div_mod::lemma_div_is_ordered(iabs(a), b * c, b);
    }
    assert(b * c / b == c) by {
        vstd::arithmetic::div_mod::lemma_div_by_multiple(c, b);
        vstd::arithmetic::mul::lemma_mul_is_commutative(c, b);
    }
    assert(0 <= iabs(a) / b) by {
        vstd::arithmetic::div_mod::lemma_div_pos_is_pos(iabs(a), b);
    }
}

/// Saturating clamp of a wide intermediate back to a scalar.
pub fn fp_sat(x: i128) -> (r: i64)
    ensures
        r == sat(x as int),
        fp_ok(r as int),
{
    if x > FP_LIM as i128 {
        FP_LIM
    } else if x < -(FP_LIM as i128) {
        -FP_LIM
    } else {
        x as i64
    }
}

/// Saturating fixed-point addition.
pub fn fp_add(a: i64, b: i64) -> (r: i64)
    requires
        fp_ok(a as int),
        fp_ok(b as int),
    ensures
        r == sat(a + b),
        fp_ok(r as int),
{
    let s: i64 = a + b;
    if s > FP_LIM {
        FP_LIM
    } else if s < -FP_LIM {
        -FP_LIM
    } else {
        s
    }
}

/// Saturating fixed-point subtraction.
pub fn fp_sub(a: i64, b: i64) -> (r: i64)
    requires
        fp_ok(a as int),
        fp_ok(b as int),
    ensures
        r == sat(a - b),
        fp_ok(r as int),
{
    let s: i64 = a - b;
    if s > FP_LIM {
        FP_LIM
    } else if s < -FP_LIM {
        -FP_LIM
    } else {
        s
    }
}

/// What a saturating fixed-point product is.
pub open spec fn fp_mul_spec(a: int, b: int) -> int {
    sat(tdiv(a * b, FP_ONE as int))
}

/// Saturating fixed-point multiplication.
pub fn fp_mul(a: i64, b: i64) -> (r: i64)
    requires
        fp_ok(a as int),
        fp_ok(b as int),
    ensures
        r == fp_mul_spec(a as int, b as int),
        fp_ok(r as int),
{
    proof {
        lemma_abs_mul_le(a as int, b as int, FP_LIM as int, FP_LIM as int);
    }
    let p: i128 = (a as i128) * (b as i128);
    let q: i128 = tdiv_i128(p, FP_ONE as i128);
    fp_sat(q)
}

/// What a saturating fixed-point quotient is.
pub open spec fn fp_div_spec(a: int, b: int) -> int
    recommends
        b != 0,
{
    sat(tdiv(a * FP_ONE as int, b))
}

/// Saturating fixed-point division.
pub fn fp_div(a: i64, b: i64) -> (r: i64)
    requires
        fp_ok(a as int),
        fp_ok(b as int),
        b != 0,
    ensures
        r == fp_div_spec(a as int, b as int),
        fp_ok(r as int),
{
    proof {
        lemma_abs_mul_le(a as int, FP_ONE as int, FP_LIM as int, FP_ONE as int);
    }
    let p: i128 = (a as i128) * (FP_ONE as i128);
    let q: i128 = tdiv_i128(p, b as i128);
    fp_sat(q)
}


pub fn fp_abs(a: i64) -> (r: i64)
    requires
        fp_ok(a as int),
    ensures
        r == iabs(a as int),
        fp_ok(r as int),
{
    if a < 0 {
        -a
    } else {
        a
    }
}



/// What linear interpolation between two scalars is: `a + (b - a) * t`
/// with `t` a fixed-point factor.
pub open spec fn lerp_spec(a: int, b: int, t: int) -> int {
    a + tdiv((b - a) * t, FP_ONE as int)
}

/// Linear interpolation; for a factor inside `[0, 1]` the result lies
/// between the endpoints.
pub fn fp_lerp(a: i64, b: i64, t: i64) -> (r: i64)
    requires
        fp_ok(a as int),
        fp_ok(b as int),
        0 <= t <= FP_ONE,
    ensures
        r == lerp_spec(a as int, b as int, t as int),
        a <= b ==> a <= r <= b,
        b <= a ==> b <= r <= a,
        fp_ok(r as int),
{
    let d: i64 = b - a;
    proof {
        lemma_abs_mul_le(d as int, t as int, 2 * FP_LIM as int, FP_ONE as int);
    }
    let p: i128 = (d as i128) * (t as i128);
    let q: i128 = tdiv_i128(p, FP_ONE as i128);
    proof {
        lemma_lerp_step(a as int, b as int, t as int);
    }
    a + (q as i64)
}

/// The truncated product `(b - a) * t / FP_ONE` stays between `0` and
/// `b - a` for a factor in `[0, 1]`.
proof fn lemma_lerp_step(a: int, b: int, t: int)
    requires
        0 <= t <= FP_ONE as int,
    ensures
        b >= a ==> 0 <= tdiv((b - a) * t, FP_ONE as int) <= b - a,
        b < a ==> a - b >= -tdiv((b - a) * t, FP_ONE as int) >= 0,
        a + tdiv((b - a) * t, FP_ONE as int) == lerp_spec(a, b, t),
{
    let f = FP_ONE as int;
    let d = b - a;
    if d >= 0 {
        assert(0 <= d * t <= d * f) by (nonlinear_arith)
            requires
                d >= 0,
                0 <= t <= f,
        ;
        assert(tdiv(d * t, f) == d * t / f);
        assert(d * t / f <= d * f / f) by {
            vstd::arithmetic::div_mod::lemma_div_is_ordered(d * t, d * f, f);
        }
        assert(d * f / f == d) by {
            vstd::arithmetic::div_mod::lemma_div_by_multiple(d, f);
        }
        assert(0 <= d * t / f) by {
            vstd::arithmetic::div_mod::lemma_div_pos_is_pos(d * t, f);
        }
    } else {
        let e = -d;
        assert(0 <= e * t <= e * f) by (nonlinear_arith)
            requires
                e >= 0,
                0 <= t <= f,
        ;
        assert(d * t == -(e * t)) by (nonlinear_arith)
            requires
                e == -d,
        ;
        assert(tdiv(d * t, f) == -(e * t / f));
        assert(e * t / f <= e * f / f) by {
            vstd::arithmetic::div_mod::lemma_div_is_ordered(e * t, e * f, f);
        }
        assert(e * f / f == e) by {
            vstd::arithmetic::div_mod::lemma_div_by_multiple(e, f);
        }
        assert(0 <= e * t / f) by {
            vstd::arithmetic::div_mod::lemma_div_pos_is_pos(e * t, f);
        }
    }
}

/// The integer square root, defined by counting up. Non-positive
/// inputs give zero.
pub open spec fn isqrt_spec(n: int) -> int
    decreases n,
{
    if n <= 0 {
        0
    } else {
        let r = isqrt_spec(n - 1);
        if (r + 1) * (r + 1) <= n {
            r + 1
        } else {
            r
        }
    }
}

/// `isqrt_spec` is the rounded-down square root.
pub proof fn lemma_isqrt_spec(n: int)
    requires
        0 <= n,
    ensures
        0 <= isqrt_spec(n),
        isqrt_spec(n) * isqrt_spec(n) <= n,
        n < (isqrt_spec(n) + 1) * (isqrt_spec(n) + 1),
    decreases n,
{
    if n == 0 {
        assert(isqrt_spec(0) == 0);
    } else {
        lemma_isqrt_spec(n - 1);
        let r = isqrt_spec(n - 1);
        assert(r * r <= n - 1);
        assert(n - 1 < (r + 1) * (r + 1));
        if (r + 1) * (r + 1) <= n {
            assert(isqrt_spec(n) == r + 1);
            assert((r + 1) * (r + 1) < (r + 2) * (r + 2)) by (nonlinear_arith)
                requires
                    0 <= r,
            ;
            assert(n < (r + 2) * (r + 2));
        } else {
            assert(isqrt_spec(n) == r);
            assert(n < (r + 1) * (r + 1));
        }
    }
}

/// Any value bracketed by consecutive squares is the integer square
/// root.
pub proof fn lemma_isqrt_unique(n: int, r: int)
    requires
        0 <= r,
        r * r <= n,
        n < (r + 1) * (r + 1),
    ensures
        r == isqrt_spec(n),
{
    lemma_isqrt_spec(n);
    let s = isqrt_spec(n);
    if r < s {
        assert((r + 1) * (r + 1) <= s * s) by (nonlinear_arith)
            requires
                0 <= r,
                r + 1 <= s,
        ;
    }
    if s < r {
        assert((s + 1) * (s + 1) <= r * r) by (nonlinear_arith)
            requires
                0 <= s,
                s + 1 <= r,
        ;
    }
}

/// Integer square root by bisection.
pub fn isqrt64(n: u64) -> (r: u64)
    ensures
        r == isqrt_spec(n as int),
        r * r <= n,
{
    let mut lo: u64 = 0;
    let mut hi: u64 = 4294967296;
    proof {
        assert((hi as int) * (hi as int) > u64::MAX as int) by (nonlinear_arith)
            requires
                hi == 4294967296,
        ;
    }
    while lo + 1 < hi
        invariant
            lo < hi,
            hi <= 4294967296,
            (lo as int) * (lo as int) <= n as int,
            (n as int) < (hi as int) * (hi as int),
        decreases hi - lo,
    {
        let mid: u64 = lo + (hi - lo) / 2;
        proof {
            lemma_abs_mul_le(mid as int, mid as int, 4294967296, 4294967296);
        }
        if (mid as u128) * (mid as u128) <= (n as u128) {
            lo = mid;
        } else {
            hi = mid;
        }
    }
    proof {
        lemma_isqrt_unique(n as int, lo as int);
        assert((lo as int) * (lo as int) <= n as int);
    }
    lo
}

/// The square root of a non-negative fixed-point scalar, in fixed
/// point: the rounded-down square root of `x * FP_ONE`. Negative
/// inputs give zero.
pub open spec fn fp_sqrt_spec(x: int) -> int {
    if x <= 0 {
        0
    } else {
        isqrt_spec(x * FP_ONE)
    }
}

pub fn fp_sqrt(x: i64) -> (r: i64)
    requires
        fp_ok(x as int),
    ensures
        r == fp_sqrt_spec(x as int),
        0 <= r <= FP_LIM,
        x > 0 ==> r * r <= x * FP_ONE < (r + 1) * (r + 1),
{
    if x <= 0 {
        0
    } else {
        let n: u64 = (x as u64) * (FP_ONE as u64);
        let s: u64 = isqrt64(n);
        proof {
            lemma_isqrt_spec(n as int);
            assert(s <= 268435456) by (nonlinear_arith)
                requires
                    (s as int) * (s as int) <= n as int,
                    n as int <= 0x100000000000000,
            ;
        }
        s as i64
    }
}

/// The Bhaskara approximation of the sine on the half period
/// `[0, PI_FP]`, scaled to fixed point:
/// `16 x (pi - x) / (5 pi^2 - 4 x (pi - x))`.
/// The quotient is rounded to nearest, which makes the axis points
/// exact: zero at the ends of the half period, one at its middle.
pub open spec fn half_sine_spec(x: int) -> int {
    let num = 16 * (x * (PI_FP - x));
    let den = 5 * (PI_FP as int * PI_FP as int) - 4 * (x * (PI_FP - x));
    tdiv(num * FP_ONE + den / 2, den)
}

fn half_sine(x: i64) -> (r: i64)
    requires
        0 <= x <= PI_FP,
    ensures
        r == half_sine_spec(x as int),
        0 <= r <= FP_ONE,
{
    let d: i64 = PI_FP - x;
    proof {
        lemma_abs_mul_le(x as int, d as int, PI_FP as int, PI_FP as int);
        vstd::arithmetic::mul::lemma_mul_nonnegative(x as int, d as int);
    }
    let prod: i64 = x * d;
    let num: i64 = 16 * prod;
    let den: i64 = 5 * (PI_FP * PI_FP) - 4 * prod;
    proof {
        assert(PI_FP as int * PI_FP as int - 4 * (x as int * d as int) == (PI_FP - 2 * x as int)
            * (PI_FP - 2 * x as int)) by (nonlinear_arith)
            requires
                d == PI_FP - x,
        ;
        assert((PI_FP - 2 * x as int) * (PI_FP - 2 * x as int) >= 0) by (nonlinear_arith);
        assert(den >= num);
        assert(den > 0);
    }
    proof {
        if prod == 0 {
            assert(den == 5 * (PI_FP as int * PI_FP as int));
        } else {
            assert(den >= 16);
        }
        assert(den >= 2);
    }
    let hd: i64 = tdiv_i64(den, 2);
    proof {
        assert(hd == den as int / 2);
        assert(hd <= den - 1) by {
            vstd::arithmetic::div_mod::lemma_fundamental_div_mod(den as int, 2);
            vstd::arithmetic::div_mod::lemma_mod_bound(den as int, 2);
        }
        assert(0 <= hd) by {
            vstd::arithmetic::div_mod::lemma_div_pos_is_pos(den as int, 2);
        }
    }
    let numer: i64 = num * FP_ONE + hd;
    let r: i64 = tdiv_i64(numer, den);
    proof {
        assert(r == numer as int / den as int);
        assert(r >= 0) by {
            vstd::arithmetic::div_mod::lemma_div_pos_is_pos(numer as int, den as int);
        }
        assert(r <= FP_ONE) by {
            let y = FP_ONE as int * den as int + (den - 1);
            assert(numer as int <= y) by {
                vstd::arithmetic::mul::lemma_mul_is_commutative(FP_ONE as int, den as int);
            }
            vstd::arithmetic::div_mod::lemma_div_is_ordered(numer as int, y, den as int);
            assert(y / den as int == FP_ONE) by {
                vstd::arithmetic::div_mod::lemma_fundamental_div_mod_converse(
                    y,
                    den as int,
                    FP_ONE as int,
                    den - 1,
                );
            }
        }
        assert(num == 16 * (x as int * (PI_FP - x as int)));
    }
    r
}

/// The sine of a fixed-point angle in radians: the angle is reduced
/// into one period and the Bhaskara half-period approximation is
/// applied with the appropriate sign.
pub open spec fn sin_spec(a: int) -> int {
    let m = a % (TWO_PI_FP as int);
    if m < PI_FP {
        half_sine_spec(m)
    } else {
        -half_sine_spec(m - PI_FP)
    }
}

/// The cosine, as the sine a quarter period ahead.
pub open spec fn cos_spec(a: int) -> int {
    sin_spec(a + HALF_PI_FP)
}

pub fn sin_fp(a: i64) -> (r: i64)
    requires
        a != i64::MIN,
    ensures
        r == sin_spec(a as int),
        -FP_ONE <= r <= FP_ONE,
{
    let m: i64 = floor_mod_i64(a, TWO_PI_FP);
    if m < PI_FP {
        half_sine(m)
    } else {
        let h: i64 = half_sine(m - PI_FP);
        -h
    }
}

pub fn cos_fp(a: i64) -> (r: i64)
    requires
        fp_ok(a as int),
    ensures
        r == cos_spec(a as int),
        -FP_ONE <= r <= FP_ONE,
{
    sin_fp(a + HALF_PI_FP)
}

} // verus!
