//! Fixed-point three-component vectors and their exact integer model.

use vstd::prelude::*;

use crate::fixed::{div_tz, fp_mul, isqrt, isqrt_spec, lemma_div_tz_bound, FMUL_MAX, FP_ONE};
use crate::fixed::fmul;

verus! {

/// Largest component magnitude a vector may have when its squared length
/// must fit in a machine word.
pub const VEC_MAX: i64 = 2_400_000_000;

/// Largest component magnitude either argument of `vcross` may have.
pub const CROSS_MAX: i64 = 2_000_000_000;

/// A fixed-point vector: each component carries `FP_ONE` units per 1.0.
#[derive(Clone, Copy, Debug, PartialEq, Eq, Structural)]
pub struct Vec3Fx {
    pub x: i64,
    pub y: i64,
    pub z: i64,
}

/// The mathematical model of a vector: unbounded integer components.
pub struct V3i {
    pub x: int,
    pub y: int,
    pub z: int,
}

impl View for Vec3Fx {
    type V = V3i;

    open spec fn view(&self) -> V3i {
        V3i { x: self.x as int, y: self.y as int, z: self.z as int }
    }
}

pub open spec fn bounded(v: V3i, m: int) -> bool {
    &&& -m <= v.x <= m
    &&& -m <= v.y <= m
    &&& -m <= v.z <= m
}

pub open spec fn add3(a: V3i, b: V3i) -> V3i {
    V3i { x: a.x + b.x, y: a.y + b.y, z: a.z + b.z }
}

pub open spec fn sub3(a: V3i, b: V3i) -> V3i {
    V3i { x: a.x - b.x, y: a.y - b.y, z: a.z - b.z }
}

/// Scale by a fixed-point factor, component by component.
pub open spec fn scale3(v: V3i, s: int) -> V3i {
    V3i { x: fp_mul(v.x, s), y: fp_mul(v.y, s), z: fp_mul(v.z, s) }
}

/// Inner product of the raw integer components (no rescaling).
pub open spec fn dots(a: V3i, b: V3i) -> int {
    a.x * b.x + a.y * b.y + a.z * b.z
}

/// Cross product of the raw integer components (no rescaling).
pub open spec fn cross3(a: V3i, b: V3i) -> V3i {
    V3i {
        x: a.y * b.z - a.z * b.y,
        y: a.z * b.x - a.x * b.z,
        z: a.x * b.y - a.y * b.x,
    }
}

/// Divide every component by `FP_ONE`, rounding toward zero.
pub open spec fn rescale3(v: V3i) -> V3i {
    V3i {
        x: div_tz(v.x, FP_ONE as int),
        y: div_tz(v.y, FP_ONE as int),
        z: div_tz(v.z, FP_ONE as int),
    }
}

/// Cross product of two fixed-point vectors, rescaled to fixed point.
pub open spec fn cross3_fp(a: V3i, b: V3i) -> V3i {
    rescale3(cross3(a, b))
}

/// The fixed-point unit vector in the direction of `v`: each component is
/// `v_i * FP_ONE / |v|`, rounded toward zero.
pub open spec fn normalize3(v: V3i) -> V3i {
    let l = isqrt_spec(dots(v, v) as nat) as int;
    V3i { x: div_tz(v.x * FP_ONE, l), y: div_tz(v.y * FP_ONE, l), z: div_tz(v.z * FP_ONE, l) }
}

pub fn vadd(a: Vec3Fx, b: Vec3Fx) -> (r: Vec3Fx)
    requires
        i64::MIN <= a@.x + b@.x <= i64::MAX,
        i64::MIN <= a@.y + b@.y <= i64::MAX,
        i64::MIN <= a@.z + b@.z <= i64::MAX,
    ensures
        r@ == add3(a@, b@),
{
    Vec3Fx { x: a.x + b.x, y: a.y + b.y, z: a.z + b.z }
}

pub fn vsub(a: Vec3Fx, b: Vec3Fx) -> (r: Vec3Fx)
    requires
        i64::MIN <= a@.x - b@.x <= i64::MAX,
        i64::MIN <= a@.y - b@.y <= i64::MAX,
        i64::MIN <= a@.z - b@.z <= i64::MAX,
    ensures
        r@ == sub3(a@, b@),
{
    Vec3Fx { x: a.x - b.x, y: a.y - b.y, z: a.z - b.z }
}

pub fn vscale(v: Vec3Fx, s: i64) -> (r: Vec3Fx)
    requires
        bounded(v@, FMUL_MAX as int),
        -FMUL_MAX <= s <= FMUL_MAX,
    ensures
        r@ == scale3(v@, s as int),
{
    Vec3Fx { x: fmul(v.x, s), y: fmul(v.y, s), z: fmul(v.z, s) }
}

/// Squared length of a vector whose components are bounded by `VEC_MAX`.
pub fn dot_self(v: Vec3Fx) -> (r: u64)
    requires
        bounded(v@, VEC_MAX as int),
    ensures
        r == dots(v@, v@),
{
    proof {
        lemma_square_bounds(v@.x, VEC_MAX as int);
        lemma_square_bounds(v@.y, VEC_MAX as int);
        lemma_square_bounds(v@.z, VEC_MAX as int);
    }
    let xx: u64 = (v.x * v.x) as u64;
    let yy: u64 = (v.y * v.y) as u64;
    let zz: u64 = (v.z * v.z) as u64;
    xx + yy + zz
}

/// A square is nonnegative and monotone in the magnitude of its root.
pub proof fn lemma_square_bounds(a: int, m: int)
    by (nonlinear_arith)
    requires
        0 <= m,
        -m <= a <= m,
    ensures
        0 <= a * a <= m * m,
{
}

pub fn vcross(a: Vec3Fx, b: Vec3Fx) -> (r: Vec3Fx)
    requires
        bounded(a@, CROSS_MAX as int),
        bounded(b@, CROSS_MAX as int),
    ensures
        r@ == cross3(a@, b@),
{
    proof {
        lemma_cross_term_bounds(a@, b@, CROSS_MAX as int);
    }
    Vec3Fx {
        x: a.y * b.z - a.z * b.y,
        y: a.z * b.x - a.x * b.z,
        z: a.x * b.y - a.y * b.x,
    }
}

/// The magnitude of a product is the product of the magnitudes.
pub proof fn lemma_abs_product(p: int, q: int, mp: int, mq: int)
    by (nonlinear_arith)
    requires
        0 <= mp,
        0 <= mq,
        -mp <= p <= mp,
        -mq <= q <= mq,
    ensures
        -(mp * mq) <= p * q <= mp * mq,
{
}

/// Every product of components of two bounded vectors is bounded by `m * m`.
proof fn lemma_cross_term_bounds(a: V3i, b: V3i, m: int)
    by (nonlinear_arith)
    requires
        0 <= m,
        bounded(a, m),
        bounded(b, m),
    ensures
        -(m * m) <= a.y * b.z <= m * m,
        -(m * m) <= a.z * b.y <= m * m,
        -(m * m) <= a.z * b.x <= m * m,
        -(m * m) <= a.x * b.z <= m * m,
        -(m * m) <= a.x * b.y <= m * m,
        -(m * m) <= a.y * b.x <= m * m,
{
}

/// Divide every component by `FP_ONE`, rounding toward zero.
pub fn vrescale(v: Vec3Fx) -> (r: Vec3Fx)
    ensures
        r@ == rescale3(v@),
{
    Vec3Fx { x: v.x / FP_ONE, y: v.y / FP_ONE, z: v.z / FP_ONE }
}

/// Cross product of two fixed-point vectors, rescaled to fixed point.
pub fn vcross_fp(a: Vec3Fx, b: Vec3Fx) -> (r: Vec3Fx)
    requires
        bounded(a@, CROSS_MAX as int),
        bounded(b@, CROSS_MAX as int),
    ensures
        r@ == cross3_fp(a@, b@),
{
    vrescale(vcross(a, b))
}

/// The fixed-point unit vector in the direction of `v`.
pub fn vnormalize(v: Vec3Fx) -> (r: Vec3Fx)
    requires
        bounded(v@, VEC_MAX as int),
        dots(v@, v@) >= 1,
    ensures
        r@ == normalize3(v@),
        bounded(r@, FP_ONE as int),
{
    let n: u64 = dot_self(v);
    let l: u64 = isqrt(n);
    proof {
        assert(l >= 1) by (nonlinear_arith)
            requires
                l * l <= n && n >= 1 && (l + 1) * (l + 1) > n,
        ;
        assert(l <= 4_294_967_296) by (nonlinear_arith)
            requires
                l * l <= n && n <= u64::MAX,
        ;
        lemma_square_bounds(v@.x, VEC_MAX as int);
        lemma_square_bounds(v@.y, VEC_MAX as int);
        lemma_square_bounds(v@.z, VEC_MAX as int);
        lemma_normalize_component(v@.x, n as int, l as int);
        lemma_normalize_component(v@.y, n as int, l as int);
        lemma_normalize_component(v@.z, n as int, l as int);
    }
    let li: i64 = l as i64;
    Vec3Fx { x: (v.x * FP_ONE) / li, y: (v.y * FP_ONE) / li, z: (v.z * FP_ONE) / li }
}

/// A component of a vector is no longer than the rounded-down length of the
/// whole vector, so the normalized component is bounded by `FP_ONE`.
proof fn lemma_normalize_component(a: int, n: int, l: int)
    requires
        1 <= l,
        a * a <= n,
        n < (l + 1) * (l + 1),
        -(VEC_MAX as int) <= a <= VEC_MAX as int,
    ensures
        -l <= a <= l,
        -(FP_ONE as int) <= div_tz(a * FP_ONE, l) <= FP_ONE as int,
        -(VEC_MAX as int * FP_ONE as int) <= a * FP_ONE <= VEC_MAX as int * FP_ONE as int,
{
    assert(-l <= a <= l) by (nonlinear_arith)
        requires
            1 <= l && a * a <= n && n < (l + 1) * (l + 1),
    ;
    assert(-(l * FP_ONE) <= a * FP_ONE <= l * FP_ONE) by (nonlinear_arith)
        requires
            -l <= a <= l,
    ;
    lemma_div_tz_bound(a * FP_ONE, l * FP_ONE, l);
    vstd::arithmetic::div_mod::lemma_div_multiples_vanish(FP_ONE as int, l);
    assert(l * FP_ONE == FP_ONE * l) by (nonlinear_arith);
    assert(-(VEC_MAX as int * FP_ONE as int) <= a * FP_ONE <= VEC_MAX as int * FP_ONE as int)
        by (nonlinear_arith)
        requires
            -(VEC_MAX as int) <= a <= VEC_MAX as int,
    ;
}

/// The rescaled cross product of bounded vectors is bounded:
/// components within `ma` and `mb` give components within
/// `2 * ma * mb / FP_ONE`.
pub proof fn lemma_cross_fp_bound(a: V3i, b: V3i, ma: int, mb: int)
    requires
        0 <= ma,
        0 <= mb,
        bounded(a, ma),
        bounded(b, mb),
    ensures
        bounded(cross3(a, b), 2 * (ma * mb)),
        bounded(cross3_fp(a, b), (2 * (ma * mb)) / FP_ONE as int),
{
    lemma_abs_product(a.y, b.z, ma, mb);
    lemma_abs_product(a.z, b.y, ma, mb);
    lemma_abs_product(a.z, b.x, ma, mb);
    lemma_abs_product(a.x, b.z, ma, mb);
    lemma_abs_product(a.x, b.y, ma, mb);
    lemma_abs_product(a.y, b.x, ma, mb);
    let c = cross3(a, b);
    lemma_div_tz_bound(c.x, 2 * (ma * mb), FP_ONE as int);
    lemma_div_tz_bound(c.y, 2 * (ma * mb), FP_ONE as int);
    lemma_div_tz_bound(c.z, 2 * (ma * mb), FP_ONE as int);
}

/// The cross product is orthogonal to both of its arguments (exactly, over
/// the raw integer components).
#[verifier::rlimit(60)]
pub proof fn lemma_cross_orthogonal(a: V3i, b: V3i)
    by (nonlinear_arith)
    ensures
        dots(cross3(a, b), a) == 0,
        dots(cross3(a, b), b) == 0,
{
}

/// Division toward zero leaves a remainder smaller than the divisor.
pub proof fn lemma_div_tz_remainder(n: int, d: int)
    requires
        0 < d,
    ensures
        -d < n - d * div_tz(n, d) < d,
{
    if n >= 0 {
        vstd::arithmetic::div_mod::lemma_fundamental_div_mod(n, d);
        vstd::arithmetic::div_mod::lemma_mod_division_less_than_divisor(n, d);
    } else {
        vstd::arithmetic::div_mod::lemma_fundamental_div_mod(-n, d);
        vstd::arithmetic::div_mod::lemma_mod_division_less_than_divisor(-n, d);
        assert(d * ((-n) / d) == -(d * -((-n) / d))) by (nonlinear_arith);
    }
}

/// Rescaling a vector that is exactly orthogonal to `b` keeps it within
/// rounding distance of orthogonal: the inner product with `b` is at most
/// three times the component bound of `b`.
pub proof fn lemma_rescale_orthogonal_error(e: V3i, b: V3i, mb: int)
    requires
        dots(e, b) == 0,
        0 <= mb,
        bounded(b, mb),
    ensures
        -(3 * mb) <= dots(rescale3(e), b) <= 3 * mb,
{
    let f = FP_ONE as int;
    let v = rescale3(e);
    lemma_div_tz_remainder(e.x, f);
    lemma_div_tz_remainder(e.y, f);
    lemma_div_tz_remainder(e.z, f);
    let rx = e.x - f * v.x;
    let ry = e.y - f * v.y;
    let rz = e.z - f * v.z;
    assert(f * (v.x * b.x) == e.x * b.x - rx * b.x) by (nonlinear_arith)
        requires
            rx == e.x - f * v.x,
    ;
    assert(f * (v.y * b.y) == e.y * b.y - ry * b.y) by (nonlinear_arith)
        requires
            ry == e.y - f * v.y,
    ;
    assert(f * (v.z * b.z) == e.z * b.z - rz * b.z) by (nonlinear_arith)
        requires
            rz == e.z - f * v.z,
    ;
    lemma_abs_product(rx, b.x, f, mb);
    lemma_abs_product(ry, b.y, f, mb);
    lemma_abs_product(rz, b.z, f, mb);
    assert(-(3 * (f * mb)) <= f * dots(v, b) <= 3 * (f * mb));
    assert(-(3 * mb) <= dots(v, b) <= 3 * mb) by (nonlinear_arith)
        requires
            f == FP_ONE as int && -(3 * (f * mb)) <= f * dots(v, b) <= 3 * (f * mb) && 0 <= mb,
    ;
}

/// Normalizing a vector that is within `e` of orthogonal to `b` gives a
/// unit vector within rounding distance of orthogonal, measured against
/// the rounded-down length `l` of the vector.
pub proof fn lemma_normalize_orthogonal_error(d: V3i, b: V3i, mb: int, e: int)
    requires
        -e <= dots(d, b) <= e,
        0 <= e,
        0 <= mb,
        bounded(b, mb),
        dots(d, d) >= 1,
    ensures
        ({
            let l = isqrt_spec(dots(d, d) as nat) as int;
            -(FP_ONE as int * e + 3 * (l * mb)) <= l * dots(normalize3(d), b) <= FP_ONE as int * e
                + 3 * (l * mb)
        }),
{
    let f = FP_ONE as int;
    let n = dots(d, d);
    let l = isqrt_spec(n as nat) as int;
    crate::fixed::lemma_isqrt_spec(n as nat);
    assert(l >= 1) by (nonlinear_arith)
        requires
            l * l <= n && n >= 1 && 0 <= l && n < (l + 1) * (l + 1),
    ;
    let u = normalize3(d);
    lemma_div_tz_remainder(d.x * f, l);
    lemma_div_tz_remainder(d.y * f, l);
    lemma_div_tz_remainder(d.z * f, l);
    let sx = d.x * f - l * u.x;
    let sy = d.y * f - l * u.y;
    let sz = d.z * f - l * u.z;
    assert(l * (u.x * b.x) == f * (d.x * b.x) - sx * b.x) by (nonlinear_arith)
        requires
            sx == d.x * f - l * u.x,
    ;
    assert(l * (u.y * b.y) == f * (d.y * b.y) - sy * b.y) by (nonlinear_arith)
        requires
            sy == d.y * f - l * u.y,
    ;
    assert(l * (u.z * b.z) == f * (d.z * b.z) - sz * b.z) by (nonlinear_arith)
        requires
            sz == d.z * f - l * u.z,
    ;
    assert(l * dots(u, b) == f * dots(d, b) - (sx * b.x + sy * b.y + sz * b.z))
        by (nonlinear_arith)
        requires
            l * (u.x * b.x) == f * (d.x * b.x) - sx * b.x,
            l * (u.y * b.y) == f * (d.y * b.y) - sy * b.y,
            l * (u.z * b.z) == f * (d.z * b.z) - sz * b.z,
            dots(u, b) == u.x * b.x + u.y * b.y + u.z * b.z,
            dots(d, b) == d.x * b.x + d.y * b.y + d.z * b.z,
    ;
    lemma_abs_product(sx, b.x, l, mb);
    lemma_abs_product(sy, b.y, l, mb);
    lemma_abs_product(sz, b.z, l, mb);
    assert(-(f * e) <= f * dots(d, b) <= f * e) by (nonlinear_arith)
        requires
            f == FP_ONE as int && -e <= dots(d, b) <= e,
    ;
}

/// A normalized vector of length at least one unit has squared length
/// within rounding tolerance of one: `dots(u, u)` differs from
/// `FP_ONE * FP_ONE` by at most `8 * FP_ONE + 3`.
pub proof fn lemma_normalize_unit_error(d: V3i)
    requires
        dots(d, d) >= 1,
        isqrt_spec(dots(d, d) as nat) >= FP_ONE,
    ensures
        -(8 * FP_ONE as int + 3) <= dots(normalize3(d), normalize3(d)) - FP_ONE as int * FP_ONE
            as int <= 8 * FP_ONE as int + 3,
{
    let f = FP_ONE as int;
    let n = dots(d, d);
    let l = isqrt_spec(n as nat) as int;
    crate::fixed::lemma_isqrt_spec(n as nat);
    let u = normalize3(d);
    lemma_div_tz_remainder(d.x * f, l);
    lemma_div_tz_remainder(d.y * f, l);
    lemma_div_tz_remainder(d.z * f, l);
    let sx = d.x * f - l * u.x;
    let sy = d.y * f - l * u.y;
    let sz = d.z * f - l * u.z;
    lemma_norm_sq_component(l, d.x, u.x, sx);
    lemma_norm_sq_component(l, d.y, u.y, sy);
    lemma_norm_sq_component(l, d.z, u.z, sz);
    lemma_square_sum_scale(l, u.x, u.y, u.z, dots(u, u));
    let cross_sum = d.x * sx + d.y * sy + d.z * sz;
    let square_sum = sx * sx + sy * sy + sz * sz;
    assert((l * l) * dots(u, u) == 1_000_000_000_000 * n - 2_000_000 * cross_sum + square_sum);
    lemma_self_dot_dominates(d);
    assert(-l <= d.x <= l && -l <= d.y <= l && -l <= d.z <= l) by (nonlinear_arith)
        requires
            d.x * d.x <= n && d.y * d.y <= n && d.z * d.z <= n && n < (l + 1) * (l + 1) && 0 <= l,
    ;
    lemma_abs_product(d.x, sx, l, l);
    lemma_abs_product(d.y, sy, l, l);
    lemma_abs_product(d.z, sz, l, l);
    lemma_square_bounds(sx, l);
    lemma_square_bounds(sy, l);
    lemma_square_bounds(sz, l);
    assert(n <= l * l + 2 * l) by (nonlinear_arith)
        requires
            n < (l + 1) * (l + 1) && 0 <= l,
    ;
    assert(-(8 * f + 3) <= dots(u, u) - f * f <= 8 * f + 3) by (nonlinear_arith)
        requires
            (l * l) * dots(u, u) == 1_000_000_000_000 * n - 2_000_000 * cross_sum + square_sum,
            l * l <= n <= l * l + 2 * l,
            -(3 * (l * l)) <= cross_sum <= 3 * (l * l),
            0 <= square_sum <= 3 * (l * l),
            f == 1_000_000,
            f <= l,
    ;
}

/// One component of the squared length of a normalized vector, expanded
/// over the division remainder.
proof fn lemma_norm_sq_component(l: int, d: int, u: int, s: int)
    by (nonlinear_arith)
    requires
        s == d * 1_000_000 - l * u,
    ensures
        (l * u) * (l * u) == 1_000_000_000_000 * (d * d) - 2_000_000 * (d * s) + s * s,
{
}

/// Scaling a sum of squares by `l * l` squares each scaled term.
proof fn lemma_square_sum_scale(l: int, ux: int, uy: int, uz: int, t: int)
    requires
        t == ux * ux + uy * uy + uz * uz,
    ensures
        (l * l) * t == (l * ux) * (l * ux) + (l * uy) * (l * uy) + (l * uz) * (l * uz),
{
    assert((l * l) * t == (l * l) * (ux * ux) + (l * l) * (uy * uy) + (l * l) * (uz * uz))
        by (nonlinear_arith)
        requires
            t == ux * ux + uy * uy + uz * uz,
    ;
    assert((l * l) * (ux * ux) == (l * ux) * (l * ux)) by (nonlinear_arith);
    assert((l * l) * (uy * uy) == (l * uy) * (l * uy)) by (nonlinear_arith);
    assert((l * l) * (uz * uz) == (l * uz) * (l * uz)) by (nonlinear_arith);
}

/// The inner product is symmetric.
pub proof fn lemma_dots_comm(a: V3i, b: V3i)
    by (nonlinear_arith)
    ensures
        dots(a, b) == dots(b, a),
{
}

/// The Lagrange identity: the squared length of the raw cross product is
/// the product of the squared lengths minus the squared inner product,
/// exactly.
pub proof fn lemma_lagrange_identity(a: V3i, b: V3i)
    ensures
        dots(cross3(a, b), cross3(a, b)) + dots(a, b) * dots(a, b) == dots(a, a) * dots(b, b),
{
    let pxx = a.x * b.x;
    let pxy = a.x * b.y;
    let pxz = a.x * b.z;
    let pyx = a.y * b.x;
    let pyy = a.y * b.y;
    let pyz = a.y * b.z;
    let pzx = a.z * b.x;
    let pzy = a.z * b.y;
    let pzz = a.z * b.z;
    lemma_square_of_difference(pyz, pzy);
    lemma_square_of_difference(pzx, pxz);
    lemma_square_of_difference(pxy, pyx);
    lemma_square_of_triple(pxx, pyy, pzz, dots(a, b));
    lemma_distribute_sums(
        a.x * a.x,
        a.y * a.y,
        a.z * a.z,
        b.x * b.x,
        b.y * b.y,
        b.z * b.z,
        dots(a, a),
        dots(b, b),
    );
    lemma_product_of_squares(a.x, b.x);
    lemma_product_of_squares(a.x, b.y);
    lemma_product_of_squares(a.x, b.z);
    lemma_product_of_squares(a.y, b.x);
    lemma_product_of_squares(a.y, b.y);
    lemma_product_of_squares(a.y, b.z);
    lemma_product_of_squares(a.z, b.x);
    lemma_product_of_squares(a.z, b.y);
    lemma_product_of_squares(a.z, b.z);
    lemma_swap_products(a.x, a.y, b.x, b.y);
    lemma_swap_products(a.x, a.z, b.x, b.z);
    lemma_swap_products(a.y, a.z, b.y, b.z);
}

/// `(p - q)^2`, expanded.
proof fn lemma_square_of_difference(p: int, q: int)
    by (nonlinear_arith)
    ensures
        (p - q) * (p - q) == p * p - 2 * (p * q) + q * q,
{
}

/// `(p + q + r)^2`, expanded.
proof fn lemma_square_of_triple(p: int, q: int, r: int, s: int)
    by (nonlinear_arith)
    requires
        s == p + q + r,
    ensures
        s * s == p * p + q * q + r * r + 2 * (p * q) + 2 * (p * r) + 2 * (q * r),
{
}

/// A product of three-term sums, distributed.
proof fn lemma_distribute_sums(
    x1: int,
    x2: int,
    x3: int,
    y1: int,
    y2: int,
    y3: int,
    sx: int,
    sy: int,
)
    by (nonlinear_arith)
    requires
        sx == x1 + x2 + x3,
        sy == y1 + y2 + y3,
    ensures
        sx * sy == x1 * y1 + x1 * y2 + x1 * y3 + x2 * y1 + x2 * y2 + x2 * y3 + x3 * y1 + x3 * y2
            + x3 * y3,
{
}

/// A product of squares is the square of the product.
proof fn lemma_product_of_squares(p: int, q: int)
    by (nonlinear_arith)
    ensures
        (p * p) * (q * q) == (p * q) * (p * q),
{
}

/// Swapping the pairing of four factors changes nothing.
proof fn lemma_swap_products(ai: int, aj: int, bi: int, bj: int)
    by (nonlinear_arith)
    ensures
        (ai * bi) * (aj * bj) == (ai * bj) * (aj * bi),
{
}

/// Rescaling changes a squared length by at most the rounding error:
/// for components within `me`, the squared length of the rescaled vector,
/// brought back to the raw scale, is within `6 * me * FP_ONE + 3 * FP_ONE^2`
/// of the raw squared length.
pub proof fn lemma_rescale_self_dot_error(e: V3i, me: int)
    requires
        0 <= me,
        bounded(e, me),
    ensures
        -(6 * (me * 1_000_000)) <= 1_000_000_000_000 * dots(rescale3(e), rescale3(e)) - dots(e, e)
            <= 6 * (me * 1_000_000) + 3_000_000_000_000,
{
    let f = FP_ONE as int;
    let v = rescale3(e);
    lemma_div_tz_remainder(e.x, f);
    lemma_div_tz_remainder(e.y, f);
    lemma_div_tz_remainder(e.z, f);
    let rx = e.x - f * v.x;
    let ry = e.y - f * v.y;
    let rz = e.z - f * v.z;
    lemma_square_of_difference(e.x, rx);
    lemma_square_of_difference(e.y, ry);
    lemma_square_of_difference(e.z, rz);
    lemma_scale_square_unit(v.x);
    lemma_scale_square_unit(v.y);
    lemma_scale_square_unit(v.z);
    assert((e.x - rx) * (e.x - rx) == (f * v.x) * (f * v.x));
    assert((e.y - ry) * (e.y - ry) == (f * v.y) * (f * v.y));
    assert((e.z - rz) * (e.z - rz) == (f * v.z) * (f * v.z));
    lemma_abs_product(e.x, rx, me, f);
    lemma_abs_product(e.y, ry, me, f);
    lemma_abs_product(e.z, rz, me, f);
    lemma_square_bounds(rx, f);
    lemma_square_bounds(ry, f);
    lemma_square_bounds(rz, f);
}

/// Scaling by one fixed-point unit squares to the unit scale.
proof fn lemma_scale_square_unit(v: int)
    by (nonlinear_arith)
    ensures
        (1_000_000 * v) * (1_000_000 * v) == 1_000_000_000_000 * (v * v),
{
}

/// A normalized vector has components within one unit.
pub proof fn lemma_normalize3_bounded(v: V3i)
    requires
        dots(v, v) >= 1,
    ensures
        bounded(normalize3(v), FP_ONE as int),
{
    let f = FP_ONE as int;
    let n = dots(v, v);
    let l = isqrt_spec(n as nat) as int;
    crate::fixed::lemma_isqrt_spec(n as nat);
    assert(l >= 1) by (nonlinear_arith)
        requires
            l * l <= n && n >= 1 && 0 <= l && n < (l + 1) * (l + 1),
    ;
    lemma_self_dot_dominates(v);
    assert(-l <= v.x <= l && -l <= v.y <= l && -l <= v.z <= l) by (nonlinear_arith)
        requires
            v.x * v.x <= n && v.y * v.y <= n && v.z * v.z <= n && n < (l + 1) * (l + 1) && 0 <= l,
    ;
    lemma_normalize_div_bound(v.x, l);
    lemma_normalize_div_bound(v.y, l);
    lemma_normalize_div_bound(v.z, l);
}

/// Each squared component is at most the squared length.
proof fn lemma_self_dot_dominates(v: V3i)
    by (nonlinear_arith)
    ensures
        v.x * v.x <= dots(v, v),
        v.y * v.y <= dots(v, v),
        v.z * v.z <= dots(v, v),
{
}

/// `|a| <= l` gives `|a * FP_ONE / l| <= FP_ONE`.
proof fn lemma_normalize_div_bound(a: int, l: int)
    requires
        1 <= l,
        -l <= a <= l,
    ensures
        -(FP_ONE as int) <= div_tz(a * FP_ONE, l) <= FP_ONE as int,
{
    assert(-(l * FP_ONE) <= a * FP_ONE <= l * FP_ONE) by (nonlinear_arith)
        requires
            -l <= a <= l,
    ;
    lemma_div_tz_bound(a * FP_ONE, l * FP_ONE, l);
    vstd::arithmetic::div_mod::lemma_div_multiples_vanish(FP_ONE as int, l);
    assert(l * FP_ONE == FP_ONE as int * l) by (nonlinear_arith);
}

} // verus!
