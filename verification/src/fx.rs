//! Saturating fixed-point arithmetic.
//!
//! Physics quantities are held as signed 64-bit counts of millionths, so
//! one whole unit is a million counts.  Every operation computes its exact
//! rational result, truncates toward zero like the hardware would, and
//! saturates at the representable range instead of overflowing.

use vstd::prelude::*;

verus! {

/// Fixed-point counts per unit.
pub const SCALE: i64 = 1000000;

/// One unit, as a spec value.
pub open spec fn one() -> int {
    1000000
}

/// Clamp a mathematical integer to the `i64` range.
pub open spec fn clip(x: int) -> int {
    if x > i64::MAX {
        i64::MAX as int
    } else if x < i64::MIN {
        i64::MIN as int
    } else {
        x
    }
}

/// Division truncated toward zero, as machine division behaves; division
/// by zero is defined as zero so that a vanishing divisor yields no
/// contribution rather than an error.
pub open spec fn tdiv(a: int, b: int) -> int {
    if b == 0 {
        0
    } else if a >= 0 && b > 0 {
        a / b
    } else if a < 0 && b > 0 {
        -((-a) / b)
    } else if a >= 0 {
        -(a / (-b))
    } else {
        (-a) / (-b)
    }
}

/// Saturating fixed-point addition.
pub open spec fn fx_add(a: int, b: int) -> int {
    clip(a + b)
}

/// Saturating fixed-point subtraction.
pub open spec fn fx_sub(a: int, b: int) -> int {
    clip(a - b)
}

/// Saturating fixed-point multiplication: the exact product rescaled by
/// one unit, truncated toward zero.
pub open spec fn fx_mul(a: int, b: int) -> int {
    clip(tdiv(a * b, one()))
}

/// Saturating fixed-point division: the exact quotient scaled by one
/// unit, truncated toward zero (zero when the divisor is zero).
pub open spec fn fx_div(a: int, b: int) -> int {
    clip(tdiv(a * one(), b))
}

/// The product of two `i64` values fits comfortably inside `i128`.
proof fn lemma_i64_product_bound(a: int, b: int)
    requires
        -0x8000000000000000 <= a <= 0x7fffffffffffffff,
        -0x8000000000000000 <= b <= 0x7fffffffffffffff,
    ensures
        -0x40000000000000000000000000000000 <= a * b,
        a * b <= 0x40000000000000000000000000000000,
{
    let ma = if a >= 0 { a } else { -a };
    let mb = if b >= 0 { b } else { -b };
    vstd::arithmetic::mul::lemma_mul_upper_bound(ma, 0x8000000000000000, mb, 0x8000000000000000);
    assert(ma * mb <= 0x40000000000000000000000000000000);
    vstd::arithmetic::mul::lemma_mul_nonnegative(ma, mb);
    vstd::arithmetic::mul::lemma_mul_unary_negation(ma, mb);
    vstd::arithmetic::mul::lemma_mul_unary_negation(a, mb);
    vstd::arithmetic::mul::lemma_mul_cancels_negatives(ma, mb);
    if a >= 0 && b >= 0 {
        assert(a * b == ma * mb);
    } else if a < 0 && b >= 0 {
        assert(a * b == -(ma * mb));
    } else if a >= 0 && b < 0 {
        assert(a * b == -(ma * mb));
    } else {
        assert(a * b == ma * mb);
    }
}

/// The square of an `i64` value fits inside `i128` and is non-negative.
pub proof fn lemma_square_bound(a: int)
    requires
        -0x8000000000000000 <= a <= 0x7fffffffffffffff,
    ensures
        0 <= a * a,
        a * a <= 0x40000000000000000000000000000000,
{
    lemma_i64_product_bound(a, a);
    if a < 0 {
        vstd::arithmetic::mul::lemma_mul_cancels_negatives(a, a);
        vstd::arithmetic::mul::lemma_mul_nonnegative(-a, -a);
    } else {
        vstd::arithmetic::mul::lemma_mul_nonnegative(a, a);
    }
}

/// Scaling an `i64` value by one unit fits inside `i128`.
pub proof fn lemma_i64_scale_bound(a: int)
    requires
        -0x8000000000000000 <= a <= 0x7fffffffffffffff,
    ensures
        -0x40000000000000000000000000000000 <= a * 1000000,
        a * 1000000 <= 0x40000000000000000000000000000000,
{
    lemma_i64_product_bound(a, 1000000);
}

/// Add two fixed-point values.
pub fn add_sat(a: i64, b: i64) -> (r: i64)
    ensures
        r == fx_add(a as int, b as int),
{
    let s: i128 = a as i128 + b as i128;
    clip_exec(s)
}

/// Subtract two fixed-point values.
pub fn sub_sat(a: i64, b: i64) -> (r: i64)
    ensures
        r == fx_sub(a as int, b as int),
{
    let s: i128 = a as i128 - b as i128;
    clip_exec(s)
}

/// Multiply two fixed-point values.
pub fn mul_sat(a: i64, b: i64) -> (r: i64)
    ensures
        r == fx_mul(a as int, b as int),
{
    proof {
        lemma_i64_product_bound(a as int, b as int);
    }
    let p: i128 = a as i128 * b as i128;
    let q = tdiv_exec(p, SCALE as i128);
    clip_exec(q)
}

/// Divide two fixed-point values.
pub fn div_sat(a: i64, b: i64) -> (r: i64)
    ensures
        r == fx_div(a as int, b as int),
{
    proof {
        lemma_i64_product_bound(a as int, 1000000);
    }
    let p: i128 = a as i128 * SCALE as i128;
    let q = tdiv_exec(p, b as i128);
    clip_exec(q)
}

/// Whether `r` is the integer square root of `x`.
pub open spec fn is_sqrt(r: int, x: int) -> bool {
    r >= 0 && r * r <= x && x < (r + 1) * (r + 1)
}

/// The integer square root: the largest `r` with `r * r <= x`.
pub open spec fn sqrt_int(x: int) -> int {
    choose|r: int| is_sqrt(r, x)
}

/// Every non-negative integer has an integer square root, and `sqrt_int`
/// denotes it.
pub proof fn lemma_sqrt_exists(x: int)
    requires
        x >= 0,
    ensures
        is_sqrt(sqrt_int(x), x),
    decreases x,
{
    if x == 0 {
        assert(is_sqrt(0, 0)) by (nonlinear_arith);
        assert(exists|r: int| is_sqrt(r, 0));
    } else {
        lemma_sqrt_exists(x - 1);
        let r = sqrt_int(x - 1);
        if (r + 1) * (r + 1) <= x {
            assert(is_sqrt(r + 1, x)) by (nonlinear_arith)
                requires
                    r >= 0,
                    (r + 1) * (r + 1) <= x,
                    x - 1 < (r + 1) * (r + 1),
            ;
            assert(exists|s: int| is_sqrt(s, x));
        } else {
            assert(is_sqrt(r, x));
            assert(exists|s: int| is_sqrt(s, x));
        }
    }
}

/// The integer square root is unique.
pub proof fn lemma_sqrt_unique(r: int, x: int)
    requires
        is_sqrt(r, x),
    ensures
        r == sqrt_int(x),
{
    assert(x >= 0) by (nonlinear_arith)
        requires
            r >= 0,
            r * r <= x,
    ;
    lemma_sqrt_exists(x);
    let s = sqrt_int(x);
    assert(r == s) by (nonlinear_arith)
        requires
            is_sqrt(r, x),
            is_sqrt(s, x),
    ;
}

/// Compute the integer square root by bisection.
pub fn isqrt(x: u128) -> (r: u64)
    ensures
        r == sqrt_int(x as int),
{
    let mut lo: u128 = 0;
    let mut hi: u128 = 0x10000000000000000;
    proof {
        assert((0x10000000000000000int) * (0x10000000000000000int)
            == 0x100000000000000000000000000000000) by (nonlinear_arith);
    }
    while hi - lo > 1
        invariant
            lo < hi,
            hi <= 0x10000000000000000,
            (lo as int) * (lo as int) <= x as int,
            (x as int) < (hi as int) * (hi as int),
        decreases hi - lo,
    {
        let mid: u128 = lo + (hi - lo) / 2;
        proof {
            assert(lo < mid < hi);
            vstd::arithmetic::mul::lemma_mul_upper_bound(
                mid as int,
                0xffffffffffffffff,
                mid as int,
                0xffffffffffffffff,
            );
            assert((0xffffffffffffffffint) * (0xffffffffffffffffint)
                <= 0xffffffffffffffffffffffffffffffff) by (nonlinear_arith);
        }
        let sq: u128 = mid * mid;
        if sq <= x {
            lo = mid;
        } else {
            hi = mid;
        }
    }
    proof {
        assert(hi == lo + 1);
        assert(is_sqrt(lo as int, x as int));
        lemma_sqrt_unique(lo as int, x as int);
    }
    lo as u64
}

/// Clamp a wide intermediate to the `i64` range.
pub(crate) fn clip_exec(x: i128) -> (r: i64)
    ensures
        r == clip(x as int),
{
    if x > i64::MAX as i128 {
        i64::MAX
    } else if x < i64::MIN as i128 {
        i64::MIN
    } else {
        x as i64
    }
}

/// Truncated division on wide intermediates.
pub(crate) fn tdiv_exec(a: i128, b: i128) -> (r: i128)
    requires
        -0x40000000000000000000000000000000 <= a <= 0x40000000000000000000000000000000,
        -0x40000000000000000000000000000000 <= b <= 0x40000000000000000000000000000000,
    ensures
        r == tdiv(a as int, b as int),
{
    if b == 0 {
        return 0;
    }
    let neg_a = a < 0;
    let neg_b = b < 0;
    let ma: u128 = if neg_a {
        (-a) as u128
    } else {
        a as u128
    };
    let mb: u128 = if neg_b {
        (-b) as u128
    } else {
        b as u128
    };
    let mq: u128 = ma / mb;
    proof {
        assert(mq <= ma) by (nonlinear_arith)
            requires
                mb >= 1,
                mq == ma / mb,
        ;
    }
    if neg_a == neg_b {
        mq as i128
    } else {
        -(mq as i128)
    }
}

} // verus!
