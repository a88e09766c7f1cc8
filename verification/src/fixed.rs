//! Fixed-point scalars: an `i64` carries `FP_ONE` units per 1.0.

use vstd::prelude::*;

verus! {

/// Number of fixed-point units in 1.0.
pub const FP_ONE: i64 = 1_000_000;

/// Largest magnitude either factor of `fmul` may have: the product of two
/// such factors, divided by `FP_ONE`, still fits in an `i64`.
pub const FMUL_MAX: i64 = 3_000_000_000_000;

/// Integer division that rounds toward zero (the rounding `fmul` performs).
pub open spec fn div_tz(n: int, d: int) -> int {
    if n >= 0 {
        n / d
    } else {
        -((-n) / d)
    }
}

/// Product of two fixed-point scalars, rescaled to fixed point.
pub open spec fn fp_mul(a: int, b: int) -> int {
    div_tz(a * b, FP_ONE as int)
}

/// Fixed-point multiplication: exact per `fp_mul`.
pub fn fmul(a: i64, b: i64) -> (r: i64)
    requires
        -FMUL_MAX <= a <= FMUL_MAX,
        -FMUL_MAX <= b <= FMUL_MAX,
    ensures
        r == fp_mul(a as int, b as int),
{
    proof {
        lemma_product_bound(a as int, b as int, FMUL_MAX as int);
        lemma_div_tz_bound(a as int * b as int, FMUL_MAX as int * FMUL_MAX as int, FP_ONE as int);
    }
    let p: i128 = (a as i128) * (b as i128);
    let q: i128 = p / (FP_ONE as i128);
    q as i64
}

/// `|a| <= m` and `|b| <= m` bound the product by `m * m`.
proof fn lemma_product_bound(a: int, b: int, m: int)
    by (nonlinear_arith)
    requires
        0 <= m,
        -m <= a <= m,
        -m <= b <= m,
    ensures
        -(m * m) <= a * b <= m * m,
{
}

/// Division toward zero keeps a magnitude bound: `|n| <= m` gives
/// `|div_tz(n, d)| <= m / d`.
pub proof fn lemma_div_tz_bound(n: int, m: int, d: int)
    requires
        0 < d,
        0 <= m,
        -m <= n <= m,
    ensures
        -(m / d) <= div_tz(n, d) <= m / d,
{
    if n >= 0 {
        vstd::arithmetic::div_mod::lemma_div_is_ordered(n, m, d);
        vstd::arithmetic::div_mod::lemma_div_pos_is_pos(n, d);
    } else {
        vstd::arithmetic::div_mod::lemma_div_is_ordered(-n, m, d);
        vstd::arithmetic::div_mod::lemma_div_pos_is_pos(-n, d);
    }
}

/// A factor of magnitude at most one (in fixed point) cannot grow the other:
/// `|b| <= FP_ONE` gives `|fp_mul(a, b)| <= |a|`.
pub proof fn lemma_fp_mul_contract(a: int, b: int)
    requires
        -(FP_ONE as int) <= b <= FP_ONE as int,
        0 <= a || a < 0,
    ensures
        a >= 0 ==> -a <= fp_mul(a, b) <= a,
        a < 0 ==> a <= fp_mul(a, b) <= -a,
{
    let m = if a >= 0 { a } else { -a };
    assert(-(m * FP_ONE) <= a * b <= m * FP_ONE) by (nonlinear_arith)
        requires
            -(FP_ONE as int) <= b <= FP_ONE as int,
            m == if a >= 0 { a } else { -a as int },
    ;
    lemma_div_tz_bound(a * b, m * FP_ONE, FP_ONE as int);
    vstd::arithmetic::div_mod::lemma_div_multiples_vanish(m, FP_ONE as int);
}

/// A factor of at most `k` whole units scales a bound by at most `k`:
/// `|a| <= k * FP_ONE` and `|b| <= mb` give `|fp_mul(a, b)| <= k * mb`.
pub proof fn lemma_fp_mul_factor_bound(a: int, b: int, k: int, mb: int)
    requires
        0 <= k,
        0 <= mb,
        -(k * FP_ONE) <= a <= k * FP_ONE,
        -mb <= b <= mb,
    ensures
        -(k * mb) <= fp_mul(a, b) <= k * mb,
{
    assert(-((k * mb) * FP_ONE) <= a * b <= (k * mb) * FP_ONE) by (nonlinear_arith)
        requires
            0 <= k && 0 <= mb && -(k * FP_ONE) <= a <= k * FP_ONE && -mb <= b <= mb,
    ;
    lemma_div_tz_bound(a * b, (k * mb) * FP_ONE, FP_ONE as int);
    vstd::arithmetic::div_mod::lemma_div_multiples_vanish(k * mb, FP_ONE as int);
    assert((k * mb) * FP_ONE == FP_ONE as int * (k * mb)) by (nonlinear_arith);
}

/// Fixed-point multiplication is commutative.
pub proof fn lemma_fp_mul_comm(a: int, b: int)
    ensures
        fp_mul(a, b) == fp_mul(b, a),
{
    assert(a * b == b * a) by (nonlinear_arith);
}

/// Zero annihilates fixed-point products.
pub proof fn lemma_fp_mul_zero(b: int)
    ensures
        fp_mul(0, b) == 0,
        fp_mul(b, 0) == 0,
{
    assert(0 * b == 0) by (nonlinear_arith);
    assert(b * 0 == 0) by (nonlinear_arith);
}

/// Clamp a scalar into `[lo, hi]`.
pub fn clamp(x: i64, lo: i64, hi: i64) -> (r: i64)
    requires
        lo <= hi,
    ensures
        r == clamp_spec(x as int, lo as int, hi as int),
{
    if x < lo {
        lo
    } else if x > hi {
        hi
    } else {
        x
    }
}

pub open spec fn clamp_spec(x: int, lo: int, hi: int) -> int {
    if x < lo {
        lo
    } else if x > hi {
        hi
    } else {
        x
    }
}

/// Integer square root, rounded down.
pub open spec fn isqrt_spec(n: nat) -> nat
    decreases n,
{
    if n == 0 {
        0
    } else {
        let r = isqrt_spec((n - 1) as nat);
        if (r + 1) * (r + 1) <= n {
            r + 1
        } else {
            r
        }
    }
}

/// `isqrt_spec` is the rounded-down square root.
pub proof fn lemma_isqrt_spec(n: nat)
    ensures
        isqrt_spec(n) * isqrt_spec(n) <= n < (isqrt_spec(n) + 1) * (isqrt_spec(n) + 1),
    decreases n,
{
    if n == 0 {
        assert(isqrt_spec(0) == 0);
        assert(isqrt_spec(n) * isqrt_spec(n) <= n < (isqrt_spec(n) + 1) * (isqrt_spec(n) + 1))
            by (nonlinear_arith)
            requires
                n == 0 && isqrt_spec(n) == 0,
        ;
    } else {
        lemma_isqrt_spec((n - 1) as nat);
        let r = isqrt_spec((n - 1) as nat);
        if (r + 1) * (r + 1) <= n {
            assert(isqrt_spec(n) == r + 1);
            assert((r + 1 + 1) * (r + 1 + 1) > n) by (nonlinear_arith)
                requires
                    n >= 1 && (n - 1) < (r + 1) * (r + 1),
            ;
            assert(isqrt_spec(n) * isqrt_spec(n) <= n < (isqrt_spec(n) + 1) * (isqrt_spec(n) + 1))
                by (nonlinear_arith)
                requires
                    isqrt_spec(n) == r + 1 && (r + 1) * (r + 1) <= n && (r + 1 + 1) * (r + 1 + 1)
                        > n,
            ;
        } else {
            assert(isqrt_spec(n) == r);
            assert(r * r <= n - 1 <= n);
            assert(isqrt_spec(n) * isqrt_spec(n) <= n < (isqrt_spec(n) + 1) * (isqrt_spec(n) + 1))
                by (nonlinear_arith)
                requires
                    isqrt_spec(n) == r && r * r <= n && !((r + 1) * (r + 1) <= n),
            ;
        }
    }
}

/// Rounded-down square roots are unique.
pub proof fn lemma_isqrt_unique(n: int, r1: int, r2: int)
    by (nonlinear_arith)
    requires
        0 <= r1 && r1 * r1 <= n < (r1 + 1) * (r1 + 1),
        0 <= r2 && r2 * r2 <= n < (r2 + 1) * (r2 + 1),
    ensures
        r1 == r2,
{
}

/// Integer square root of a machine word, by bisection.
pub fn isqrt(n: u64) -> (r: u64)
    ensures
        r == isqrt_spec(n as nat),
        r * r <= n < (r + 1) * (r + 1),
{
    let mut lo: u64 = 0;
    let mut hi: u64 = 4_294_967_296;
    assert((hi as int) * (hi as int) > n as int) by (nonlinear_arith)
        requires
            hi == 4_294_967_296u64 && n <= u64::MAX,
    ;
    while lo + 1 < hi
        invariant
            lo < hi <= 4_294_967_296,
            (lo as int) * (lo as int) <= n as int,
            (hi as int) * (hi as int) > n as int,
        decreases hi - lo,
    {
        let mid: u64 = lo + (hi - lo) / 2;
        assert(lo < mid < hi);
        assert((mid as int) * (mid as int) <= 0x1_0000_0000_0000_0000) by (nonlinear_arith)
            requires
                0 <= mid <= 4_294_967_296u64,
        ;
        let sq: u128 = (mid as u128) * (mid as u128);
        if sq <= n as u128 {
            lo = mid;
        } else {
            hi = mid;
        }
    }
    proof {
        lemma_isqrt_spec(n as nat);
        lemma_isqrt_unique(n as int, lo as int, isqrt_spec(n as nat) as int);
    }
    lo
}

} // verus!
