use ray_tracer::fixed::{clamp, fmul, isqrt, FP_ONE};
use ray_tracer::vec3::{dot_self, vadd, vcross, vcross_fp, vnormalize, vrescale, vscale, vsub, Vec3Fx};

fn v(x: i64, y: i64, z: i64) -> Vec3Fx {
    Vec3Fx { x, y, z }
}

#[test]
fn fmul_exact_products() {
    // 2.5 * 2.0 == 5.0
    assert_eq!(fmul(2_500_000, 2_000_000), 5_000_000);
    // -1.5 * 2.0 == -3.0
    assert_eq!(fmul(-1_500_000, 2_000_000), -3_000_000);
    // multiplying by one is the identity
    assert_eq!(fmul(123_456, FP_ONE), 123_456);
    assert_eq!(fmul(-123_456, FP_ONE), -123_456);
}

#[test]
fn fmul_rounds_toward_zero() {
    // tiny positive product truncates to zero
    assert_eq!(fmul(1, 1), 0);
    // tiny negative product truncates to zero, not to minus one
    assert_eq!(fmul(-1, 999_999), 0);
    assert_eq!(fmul(1, -999_999), 0);
}

#[test]
fn isqrt_small_values() {
    assert_eq!(isqrt(0), 0);
    assert_eq!(isqrt(1), 1);
    assert_eq!(isqrt(3), 1);
    assert_eq!(isqrt(4), 2);
    assert_eq!(isqrt(15), 3);
    assert_eq!(isqrt(16), 4);
    assert_eq!(isqrt(1_000_000_000_000), 1_000_000);
}

#[test]
fn isqrt_largest_word() {
    assert_eq!(isqrt(u64::MAX), 4_294_967_295);
}

#[test]
fn clamp_band() {
    assert_eq!(clamp(5, -3, 3), 3);
    assert_eq!(clamp(-5, -3, 3), -3);
    assert_eq!(clamp(2, -3, 3), 2);
}

#[test]
fn vector_add_sub_scale() {
    let a = v(1_000_000, 2_000_000, -3_000_000);
    let b = v(500_000, -500_000, 1_000_000);
    assert_eq!(vadd(a, b), v(1_500_000, 1_500_000, -2_000_000));
    assert_eq!(vsub(a, b), v(500_000, 2_500_000, -4_000_000));
    // scaling by 0.5
    assert_eq!(vscale(a, 500_000), v(500_000, 1_000_000, -1_500_000));
}

#[test]
fn cross_product_axes() {
    // x cross y == z, on the raw scale, then rescaled to fixed point
    let x = v(FP_ONE, 0, 0);
    let y = v(0, FP_ONE, 0);
    let raw = vcross(x, y);
    assert_eq!(raw, v(0, 0, FP_ONE * FP_ONE));
    assert_eq!(vcross_fp(x, y), v(0, 0, FP_ONE));
    assert_eq!(vrescale(raw), v(0, 0, FP_ONE));
}

#[test]
fn dot_self_sums_squares() {
    assert_eq!(dot_self(v(1_000_000, 2_000_000, 2_000_000)), 9_000_000_000_000);
}

#[test]
fn normalize_inexact_length_truncates() {
    // (1, 1, 0) has length sqrt(2): components truncate toward zero
    let u = vnormalize(v(1_000_000, 1_000_000, 0));
    assert_eq!(u, v(707_107, 707_107, 0));
}

#[test]
fn normalize_three_four_five() {
    // (3, 0, 4) has length 5: the unit vector is exact
    let u = vnormalize(v(3_000_000, 0, 4_000_000));
    assert_eq!(u, v(600_000, 0, 800_000));
    // already-unit axis stays put
    assert_eq!(vnormalize(v(0, FP_ONE, 0)), v(0, FP_ONE, 0));
}
