//! 16.16 fixed-point scalar arithmetic over `i64`.
//!
//! A scalar `v` stands for the real number `v / 65536`. Multiplication and
//! division rescale by 65536 and truncate toward zero; every operation
//! saturates at the `i64` range instead of overflowing. Division by zero
//! yields zero by policy, so the operations are total.

use vstd::prelude::*;

verus! {

/// The fixed-point representation of 1.
pub const FX_ONE: i64 = 65536;

/// Absolute value of a mathematical integer.
pub open spec fn iabs(x: int) -> int {
    if x < 0 { -x } else { x }
}

/// Saturation of a mathematical integer to the `i64` range.
pub open spec fn clip64(x: int) -> int {
    if x > i64::MAX as int {
        i64::MAX as int
    } else if x < i64::MIN as int {
        i64::MIN as int
    } else {
        x
    }
}

/// Fixed-point product: `a * b / 65536`, truncated toward zero, saturated.
pub open spec fn spec_fx_mul(a: int, b: int) -> int {
    let m = (iabs(a) * iabs(b)) / 65536;
    if (a < 0) == (b < 0) {
        clip64(m)
    } else {
        clip64(-m)
    }
}

/// Saturating sum.
pub open spec fn spec_fx_add(a: int, b: int) -> int {
    clip64(a + b)
}

/// Saturating difference.
pub open spec fn spec_fx_sub(a: int, b: int) -> int {
    clip64(a - b)
}

/// Saturating negation.
pub open spec fn spec_fx_neg(a: int) -> int {
    clip64(-a)
}

/// Fixed-point quotient: `a * 65536 / b`, truncated toward zero, saturated.
/// A zero divisor yields zero by policy.
pub open spec fn spec_fx_div(a: int, b: int) -> int {
    if b == 0 {
        0
    } else {
        let q = (iabs(a) * 65536) / iabs(b);
        if (a < 0) == (b < 0) {
            clip64(q)
        } else {
            clip64(-q)
        }
    }
}

/// The integer square root: the largest `r` with `r * r <= n`.
pub open spec fn sqrt_floor(n: nat) -> nat
    decreases n,
{
    if n == 0 {
        0
    } else {
        let p = sqrt_floor((n - 1) as nat);
        if (p + 1) * (p + 1) <= n {
            p + 1
        } else {
            p
        }
    }
}

/// `sqrt_floor` is bracketed by the two adjacent perfect squares.
pub proof fn lemma_sqrt_floor_bounds(n: nat)
    ensures
        sqrt_floor(n) * sqrt_floor(n) <= n,
        n < (sqrt_floor(n) + 1) * (sqrt_floor(n) + 1),
    decreases n,
{
    let s = sqrt_floor(n);
    if n == 0 {
        assert(s == 0);
        assert(s * s <= n && n < (s + 1) * (s + 1)) by (nonlinear_arith)
            requires
                s == 0,
                n == 0,
        ;
    } else {
        lemma_sqrt_floor_bounds((n - 1) as nat);
        let p = sqrt_floor((n - 1) as nat);
        assert(p * p <= n - 1);
        assert(n - 1 < (p + 1) * (p + 1));
        if (p + 1) * (p + 1) <= n {
            assert(s == p + 1);
            assert(s * s <= n && n < (s + 1) * (s + 1)) by (nonlinear_arith)
                requires
                    s == p + 1,
                    (p + 1) * (p + 1) <= n,
                    n - 1 < (p + 1) * (p + 1),
            ;
        } else {
            assert(s == p);
            assert(s * s <= n && n < (s + 1) * (s + 1)) by (nonlinear_arith)
                requires
                    s == p,
                    p * p <= n - 1,
                    !((p + 1) * (p + 1) <= n),
            ;
        }
    }
}

/// The bracketing property determines `sqrt_floor` uniquely.
pub proof fn lemma_sqrt_floor_unique(n: nat, r: nat)
    requires
        r * r <= n,
        n < (r + 1) * (r + 1),
    ensures
        r == sqrt_floor(n),
{
    lemma_sqrt_floor_bounds(n);
    let s = sqrt_floor(n);
    if r < s {
        assert(s * s > n) by (nonlinear_arith)
            requires
                r < s,
                n < (r + 1) * (r + 1),
                r >= 0,
        ;
    }
    if s < r {
        assert(r * r > n) by (nonlinear_arith)
            requires
                s < r,
                n < (s + 1) * (s + 1),
                s >= 0,
        ;
    }
}

/// Fixed-point square root of a non-negative scalar:
/// `sqrt_floor(x * 65536)`, which never leaves the `i64` range.
pub open spec fn spec_fx_sqrt(x: int) -> int {
    if x < 0 {
        0
    } else {
        sqrt_floor((x * 65536) as nat) as int
    }
}

/// Fixed-point product as an `i64`; the saturation keeps it in range.
pub open spec fn fxm(a: i64, b: i64) -> i64 {
    spec_fx_mul(a as int, b as int) as i64
}

/// Saturating sum as an `i64`.
pub open spec fn fxa(a: i64, b: i64) -> i64 {
    spec_fx_add(a as int, b as int) as i64
}

/// Saturating difference as an `i64`.
pub open spec fn fxs(a: i64, b: i64) -> i64 {
    spec_fx_sub(a as int, b as int) as i64
}

/// Saturating negation as an `i64`.
pub open spec fn fxn(a: i64) -> i64 {
    spec_fx_neg(a as int) as i64
}

/// Fixed-point quotient as an `i64`.
pub open spec fn fxd(a: i64, b: i64) -> i64 {
    spec_fx_div(a as int, b as int) as i64
}

/// Fixed-point square root as an `i64`; it never exceeds the range.
pub open spec fn fxsq(a: i64) -> i64 {
    spec_fx_sqrt(a as int) as i64
}

/// The fixed-point square root stays far inside the `i64` range and is
/// never negative, so the `i64` form agrees with the mathematical one.
pub proof fn lemma_fxsq_val(a: i64)
    ensures
        fxsq(a) as int == spec_fx_sqrt(a as int),
        0 <= fxsq(a) < 0x10000000000,
{
    if a >= 0 {
        let w = (a * 65536) as nat;
        lemma_sqrt_floor_bounds(w);
        let s = sqrt_floor(w);
        assert(s < 0x10000000000) by (nonlinear_arith)
            requires
                s * s <= w,
                w < 0x100000000000000000000,
                s >= 0,
        ;
    }
}

/// Dividing by one is the identity on the whole range; even `i64::MIN`,
/// whose magnitude exceeds `i64::MAX`, saturates back to itself.
pub proof fn lemma_fxd_by_one(a: i64)
    ensures
        fxd(a, FX_ONE) == a,
{
    let x = iabs(a as int);
    vstd::arithmetic::div_mod::lemma_div_by_multiple(x, 65536);
    assert((x * 65536) / 65536 == x);
}

/// Absolute value of an `i64`, widened so that `i64::MIN` is representable.
fn abs64(a: i64) -> (r: u64)
    ensures
        r as int == iabs(a as int),
{
    if a >= 0 {
        a as u64
    } else {
        (-(a as i128)) as u64
    }
}

/// Saturates a magnitude-and-sign pair into an `i64`.
fn clamp_signed(m: u128, neg: bool) -> (r: i64)
    ensures
        r as int == (if neg {
            clip64(-(m as int))
        } else {
            clip64(m as int)
        }),
{
    if neg {
        if m >= 9223372036854775808u128 {
            i64::MIN
        } else {
            -(m as i64)
        }
    } else {
        if m > 9223372036854775807u128 {
            i64::MAX
        } else {
            m as i64
        }
    }
}

/// Saturating fixed-point multiplication.
pub fn fx_mul(a: i64, b: i64) -> (r: i64)
    ensures
        r as int == spec_fx_mul(a as int, b as int),
        r == fxm(a, b),
{
    let neg: bool = (a < 0) != (b < 0);
    let ma: u64 = abs64(a);
    let mb: u64 = abs64(b);
    assert((ma as int) * (mb as int) <= 0xffffffffffffffffint * 0xffffffffffffffffint) by (nonlinear_arith)
        requires
            0 <= ma as int <= 0xffffffffffffffffint,
            0 <= mb as int <= 0xffffffffffffffffint,
    ;
    let p: u128 = (ma as u128) * (mb as u128);
    let m: u128 = p / 65536;
    clamp_signed(m, neg)
}

/// Saturating addition.
pub fn fx_add(a: i64, b: i64) -> (r: i64)
    ensures
        r as int == spec_fx_add(a as int, b as int),
        r == fxa(a, b),
{
    let s: i128 = (a as i128) + (b as i128);
    if s > (i64::MAX as i128) {
        i64::MAX
    } else if s < (i64::MIN as i128) {
        i64::MIN
    } else {
        s as i64
    }
}

/// Saturating subtraction.
pub fn fx_sub(a: i64, b: i64) -> (r: i64)
    ensures
        r as int == spec_fx_sub(a as int, b as int),
        r == fxs(a, b),
{
    let s: i128 = (a as i128) - (b as i128);
    if s > (i64::MAX as i128) {
        i64::MAX
    } else if s < (i64::MIN as i128) {
        i64::MIN
    } else {
        s as i64
    }
}

/// Saturating negation.
pub fn fx_neg(a: i64) -> (r: i64)
    ensures
        r as int == spec_fx_neg(a as int),
        r == fxn(a),
{
    if a == i64::MIN {
        i64::MAX
    } else {
        -a
    }
}

/// Saturating fixed-point division; a zero divisor yields zero by policy.
pub fn fx_div(a: i64, b: i64) -> (r: i64)
    ensures
        r as int == spec_fx_div(a as int, b as int),
        r == fxd(a, b),
{
    if b == 0 {
        0
    } else {
        let neg: bool = (a < 0) != (b < 0);
        let ma: u64 = abs64(a);
        let mb: u64 = abs64(b);
        let q: u128 = ((ma as u128) * 65536) / (mb as u128);
        clamp_signed(q, neg)
    }
}

/// Integer square root by bisection.
fn isqrt_u128(x: u128) -> (r: u128)
    requires
        x < 0x100000000000000000000u128,
    ensures
        r as nat == sqrt_floor(x as nat),
        r * r <= x,
{
    let mut lo: u128 = 0;
    let mut hi: u128 = 0x10000000000u128;
    assert(0x10000000000u128 * 0x10000000000u128 == 0x100000000000000000000u128) by (nonlinear_arith);
    while lo + 1 < hi
        invariant
            lo < hi <= 0x10000000000u128,
            lo * lo <= x,
            x < hi * hi,
        decreases hi - lo,
    {
        let mid: u128 = lo + (hi - lo) / 2;
        assert((mid as int) * (mid as int) <= 0x10000000000int * 0x10000000000int) by (nonlinear_arith)
            requires
                0 <= mid as int <= 0x10000000000int,
        ;
        if mid * mid <= x {
            lo = mid;
        } else {
            hi = mid;
        }
    }
    proof {
        lemma_sqrt_floor_unique(x as nat, lo as nat);
    }
    lo
}

/// Fixed-point square root of a non-negative scalar.
pub fn fx_sqrt(x: i64) -> (r: i64)
    requires
        x >= 0,
    ensures
        r as int == spec_fx_sqrt(x as int),
        r == fxsq(x),
{
    let w: u128 = (x as u128) * 65536;
    let r: u128 = isqrt_u128(w);
    assert(r < 0x10000000000u128) by (nonlinear_arith)
        requires
            r * r <= w,
            w < 0x100000000000000000000u128,
    ;
    proof {
        lemma_fxsq_val(x);
    }
    r as i64
}

/// The larger of two scalars.
pub open spec fn spec_max2(a: i64, b: i64) -> i64 {
    if a >= b {
        a
    } else {
        b
    }
}

/// The larger of two scalars.
pub fn fx_max(a: i64, b: i64) -> (r: i64)
    ensures
        r == spec_max2(a, b),
{
    if a >= b {
        a
    } else {
        b
    }
}

} // verus!
