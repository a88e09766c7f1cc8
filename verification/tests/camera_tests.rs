use ray_tracer::camera::{degrees, radians, Camera, Trig, PITCH_LIMIT};
use ray_tracer::controller::Key;
use ray_tracer::vec3::{dot_self, vcross_fp, vnormalize, vsub, Vec3Fx};

fn v(x: i64, y: i64, z: i64) -> Vec3Fx {
    Vec3Fx { x, y, z }
}

/// Sines and cosines of yaw = 0, pitch = 0.
fn level_trig() -> Trig {
    Trig { yaw_sin: 0, yaw_cos: 1_000_000, pitch_sin: 0, pitch_cos: 1_000_000 }
}

fn cam_at_origin() -> Camera {
    Camera::new(
        v(0, 0, 0),
        v(0, 0, -1_000_000),
        v(0, 1_000_000, 0),
        45_000_000,
        1_000_000,
        100_000,
        100_000_000,
        10_000,
        2_000,
    )
}

#[test]
fn new_camera_state() {
    let c = cam_at_origin();
    assert_eq!(c.yaw, 0);
    assert_eq!(c.pitch, 0);
    assert_eq!(c.origin, v(0, 0, 0));
    assert_eq!(c.look_at, v(0, 0, -1_000_000));
    assert_eq!(c.fov, 45_000_000);
    assert_eq!(c.controller.scroll, 0);
}

#[test]
fn held_forward_key_moves_along_look() {
    let mut c = cam_at_origin();
    assert!(c.controller.process_keyboard(Key::W, true));
    c.update_camera(&level_trig());
    // 5.0 (held amount) * 0.01 (speed) = 0.05 along +z at yaw 0
    assert_eq!(c.origin, v(0, 0, 50_000));
    // holding the key keeps moving on the next frame
    c.update_camera(&level_trig());
    assert_eq!(c.origin, v(0, 0, 100_000));
}

#[test]
fn mouse_rotation_applies_once_then_zeroes() {
    let mut c = cam_at_origin();
    c.controller.process_mouse(1_000_000, -500_000);
    c.update_camera(&level_trig());
    // yaw += 3.0 * 0.002; pitch -= -1.5 * 0.002
    assert_eq!(c.yaw, 6_000);
    assert_eq!(c.pitch, 3_000);
    assert_eq!(c.controller.rotate_horizontal, 0);
    assert_eq!(c.controller.rotate_vertical, 0);
    // a second update without new input rotates no further
    c.update_camera(&level_trig());
    assert_eq!(c.yaw, 6_000);
    assert_eq!(c.pitch, 3_000);
}

#[test]
fn scroll_dolly_applies_once_then_zeroes() {
    let mut c = cam_at_origin();
    c.controller.process_scroll(ray_tracer::controller::ScrollDelta::Lines(2_000_000));
    c.update_camera(&level_trig());
    // two lines of scroll-up give the impulse -20000.0 * 0.01 * 0.002
    // = -0.4, subtracted along the look direction, which at yaw 0 and
    // pitch 0 is +z: the camera moves 0.4 forward
    assert_eq!(c.origin, v(0, 0, 400_000));
    assert_eq!(c.controller.scroll, 0);
    // a second update without new input dollies no further
    c.update_camera(&level_trig());
    assert_eq!(c.origin, v(0, 0, 400_000));
}

#[test]
fn pitch_clamps_just_under_quarter_turn() {
    let mut c = cam_at_origin();
    // a huge downward mouse delta pitches far past the limit
    c.controller.process_mouse(0, -300_000_000_000);
    c.update_camera(&level_trig());
    assert_eq!(c.pitch, PITCH_LIMIT);
    assert_eq!(c.pitch, 1_570_696);
    // and the other way
    c.controller.process_mouse(0, 300_000_000_000);
    c.update_camera(&level_trig());
    c.controller.process_mouse(0, 300_000_000_000);
    c.update_camera(&level_trig());
    assert_eq!(c.pitch, -PITCH_LIMIT);
}

#[test]
fn aim_recomputes_look_target() {
    let mut c = cam_at_origin();
    c.aim(&level_trig());
    // unit look direction at yaw 0, pitch 0 is +z
    assert_eq!(c.look_at, v(0, 0, 1_000_000));
}

#[test]
fn uniform_symmetric_frustum() {
    // camera at (0, 0, 3) looking at (0, 0, -1), fov 45, aspect 1, near 0.1
    let c = Camera::new(
        v(0, 0, 3_000_000),
        v(0, 0, -1_000_000),
        v(0, 1_000_000, 0),
        45_000_000,
        1_000_000,
        100_000,
        100_000_000,
        0,
        0,
    );
    // tan(22.5 degrees) = 0.414213...
    let u = c.to_uniform(414_213);
    assert_eq!(u.origin, v(0, 0, 3_000_000));
    // half extents: 0.1 * 0.414213 = 0.041421, symmetric in both axes
    assert_eq!(u.horizontal, v(82_842, 0, 0));
    assert_eq!(u.vertical, v(0, 82_842, 0));
    assert!(u.horizontal.x > 0);
    assert!(u.vertical.y > 0);
    // lower-left corner: origin - hw*u - hh*v - near*w
    assert_eq!(u.lower_left_corner, v(-41_421, -41_421, 2_900_000));
    assert_eq!(u.near, 100_000);
    assert_eq!(u.far, 100_000_000);
}

#[test]
fn aim_with_tilted_angles() {
    let mut c = cam_at_origin();
    // pitch 30 degrees, yaw 90 degrees
    let t = Trig { yaw_sin: 1_000_000, yaw_cos: 0, pitch_sin: 500_000, pitch_cos: 866_025 };
    c.aim(&t);
    assert_eq!(c.look_at, v(866_025, 500_000, 0));
}

#[test]
fn uniform_skewed_frustum() {
    // a camera tilted against every axis: origin (1, 2, 3) looking at
    // (4, 0, -2), aspect 1.5
    let c = Camera::new(
        v(1_000_000, 2_000_000, 3_000_000),
        v(4_000_000, 0, -2_000_000),
        v(0, 1_000_000, 0),
        45_000_000,
        1_500_000,
        100_000,
        100_000_000,
        0,
        0,
    );
    let u = c.to_uniform(414_213);
    assert_eq!(u.horizontal, v(106_553, 0, 63_932));
    assert_eq!(u.vertical, v(13_828, 78_360, -23_047));
    assert_eq!(u.lower_left_corner, v(988_476, 1_928_376, 2_898_447));
}

#[test]
fn skewed_basis_is_orthonormal_within_tolerance() {
    // the same tilted camera's basis, built from the public vector
    // operations: every inner product is within rounding tolerance of
    // orthogonal, every squared length within tolerance of one
    // (the unit scale of these products is 10^12)
    let origin = v(1_000_000, 2_000_000, 3_000_000);
    let look_at = v(4_000_000, 0, -2_000_000);
    let up = v(0, 1_000_000, 0);
    let w = vnormalize(vsub(origin, look_at));
    let u = vnormalize(vcross_fp(up, w));
    let vv = vcross_fp(w, u);
    assert_eq!(w, v(-486_664, 324_442, 811_107));
    assert_eq!(u, v(857_493, 0, 514_495));
    assert_eq!(vv, v(166_923, 945_904, -278_206));
    let dot = |a: Vec3Fx, b: Vec3Fx| a.x * b.x + a.y * b.y + a.z * b.z;
    assert!(dot(u, w).abs() <= 6_000_000);
    assert!(dot(vv, w).abs() <= 3_000_000);
    assert!(dot(vv, u).abs() <= 3_000_000);
    let unit = 1_000_000_000_000i64;
    assert!((dot_self(w) as i64 - unit).abs() <= 8_000_003);
    assert!((dot_self(u) as i64 - unit).abs() <= 8_000_003);
    assert!((dot_self(vv) as i64 - unit).abs() <= 30_000_000);
}

#[test]
fn degree_radian_conversions() {
    // 45 degrees in fixed-point radians (pi/180 = 0.017453)
    assert_eq!(radians(45_000_000), 785_385);
    // one radian in fixed-point degrees
    assert_eq!(degrees(1_000_000), 57_295_780);
    assert_eq!(radians(0), 0);
    assert_eq!(degrees(0), 0);
}
