//! Free-fly camera: position, yaw/pitch orientation, projection parameters,
//! and the derivation of the GPU-visible ray-generation basis.
//!
//! Trigonometric values (sines, cosines, the tangent of the half field of
//! view) cannot be computed in this library; the caller evaluates them for
//! the camera's current angles and passes them in as fixed-point scalars.
//! Every contract is exact over whatever values were passed.

use vstd::prelude::*;

use crate::fixed::{
    clamp, clamp_spec, fmul, fp_mul, lemma_div_tz_bound, lemma_fp_mul_comm,
    lemma_fp_mul_contract, lemma_fp_mul_factor_bound, FMUL_MAX, FP_ONE,
};
use crate::vec3::{
    cross3, cross3_fp, dots, normalize3, sub3, scale3, vcross_fp, vnormalize, vscale, vsub,
};
use crate::controller::{
    consumed, ctl_bounded, forward_impulse, pitch_delta, right_impulse, scroll_impulse,
    updown_impulse, yaw_delta, CameraController, CtlModel, AMOUNT_MAX, ROTATE_MAX, SCROLL_MAX,
    SENSITIVITY_MAX, SPEED_MAX,
};
use crate::vec3::{bounded, V3i, Vec3Fx};

verus! {

/// Pitch is clamped to this magnitude: just under a quarter turn
/// (pi/2 - 0.0001 radians, in fixed point), so the basis never degenerates.
pub const PITCH_LIMIT: i64 = 1_570_696;

/// Largest magnitude yaw and pitch may have before an update.
pub const ANGLE_MAX: i64 = 1_000_000_000_000;

/// Largest position component magnitude an update accepts.
pub const POS_MAX: i64 = 1_000_000_000_000;

/// Radians per degree in fixed point (pi / 180).
pub const RAD_PER_DEG: i64 = 17_453;

/// Degrees per radian in fixed point (180 / pi).
pub const DEG_PER_RAD: i64 = 57_295_780;

/// Sines and cosines of the camera's yaw and pitch, in fixed point,
/// evaluated by the caller.
#[derive(Clone, Copy, Debug, PartialEq, Eq, Structural)]
pub struct Trig {
    pub yaw_sin: i64,
    pub yaw_cos: i64,
    pub pitch_sin: i64,
    pub pitch_cos: i64,
}

/// Mathematical model of a trigonometric sample.
pub struct TrigModel {
    pub yaw_sin: int,
    pub yaw_cos: int,
    pub pitch_sin: int,
    pub pitch_cos: int,
}

impl View for Trig {
    type V = TrigModel;

    open spec fn view(&self) -> TrigModel {
        TrigModel {
            yaw_sin: self.yaw_sin as int,
            yaw_cos: self.yaw_cos as int,
            pitch_sin: self.pitch_sin as int,
            pitch_cos: self.pitch_cos as int,
        }
    }
}

/// A sine or cosine is at most one in magnitude.
pub open spec fn trig_bounded(t: TrigModel) -> bool {
    &&& -(FP_ONE as int) <= t.yaw_sin <= FP_ONE as int
    &&& -(FP_ONE as int) <= t.yaw_cos <= FP_ONE as int
    &&& -(FP_ONE as int) <= t.pitch_sin <= FP_ONE as int
    &&& -(FP_ONE as int) <= t.pitch_cos <= FP_ONE as int
}

/// Camera state, all scalars in fixed point.
#[derive(Clone, Copy, Debug, PartialEq, Eq, Structural)]
pub struct Camera {
    pub origin: Vec3Fx,
    pub yaw: i64,
    pub pitch: i64,
    pub look_at: Vec3Fx,
    pub view_up: Vec3Fx,
    pub fov: i64,
    pub aspect: i64,
    pub near: i64,
    pub far: i64,
    pub controller: CameraController,
}

/// Mathematical model of the camera.
pub struct CamModel {
    pub origin: V3i,
    pub yaw: int,
    pub pitch: int,
    pub look_at: V3i,
    pub view_up: V3i,
    pub fov: int,
    pub aspect: int,
    pub near: int,
    pub far: int,
    pub controller: CtlModel,
}

impl View for Camera {
    type V = CamModel;

    open spec fn view(&self) -> CamModel {
        CamModel {
            origin: self.origin@,
            yaw: self.yaw as int,
            pitch: self.pitch as int,
            look_at: self.look_at@,
            view_up: self.view_up@,
            fov: self.fov as int,
            aspect: self.aspect as int,
            near: self.near as int,
            far: self.far as int,
            controller: self.controller@,
        }
    }
}

/// Machine bounds an update needs: angles and position within range and a
/// bounded controller.
pub open spec fn cam_bounded(c: CamModel) -> bool {
    &&& bounded(c.origin, POS_MAX as int)
    &&& -ANGLE_MAX <= c.yaw <= ANGLE_MAX
    &&& -ANGLE_MAX <= c.pitch <= ANGLE_MAX
    &&& ctl_bounded(c.controller)
}

/// The unit look direction for a pitch/yaw trig sample:
/// (cos pitch * sin yaw, sin pitch, cos pitch * cos yaw).
pub open spec fn look_dir(t: TrigModel) -> V3i {
    V3i {
        x: fp_mul(t.pitch_cos, t.yaw_sin),
        y: t.pitch_sin,
        z: fp_mul(t.pitch_cos, t.yaw_cos),
    }
}

/// Where one update moves the camera position: forward and rightward moves
/// are horizon-locked combinations of the yaw trig values, the dolly move
/// follows the look direction (scrolling up moves the camera forward), and
/// the vertical move changes y alone.
pub open spec fn moved_origin(c: CamModel, t: TrigModel) -> V3i {
    let f = forward_impulse(c.controller);
    let r = right_impulse(c.controller);
    let s = scroll_impulse(c.controller);
    let ud = updown_impulse(c.controller);
    V3i {
        x: c.origin.x + fp_mul(t.yaw_sin, f) + fp_mul(t.yaw_cos, r) - fp_mul(look_dir(t).x, s),
        y: c.origin.y - fp_mul(look_dir(t).y, s) + ud,
        z: c.origin.z + fp_mul(t.yaw_cos, f) - fp_mul(t.yaw_sin, r) - fp_mul(look_dir(t).z, s),
    }
}

/// The camera after one update: position moved, pending rotation applied to
/// yaw and pitch, pitch clamped, pending accumulators consumed. The look
/// target is untouched; `aim` recomputes it from the new angles.
pub open spec fn updated_camera(c: CamModel, t: TrigModel) -> CamModel {
    CamModel {
        origin: moved_origin(c, t),
        yaw: c.yaw + yaw_delta(c.controller),
        pitch: clamp_spec(
            c.pitch + pitch_delta(c.controller),
            -PITCH_LIMIT as int,
            PITCH_LIMIT as int,
        ),
        controller: consumed(c.controller),
        ..c
    }
}

/// The camera after re-aiming: the look target is the position plus the
/// unit look direction of the given trig sample.
pub open spec fn aimed_camera(c: CamModel, t: TrigModel) -> CamModel {
    CamModel {
        look_at: V3i {
            x: c.origin.x + look_dir(t).x,
            y: c.origin.y + look_dir(t).y,
            z: c.origin.z + look_dir(t).z,
        },
        ..c
    }
}

impl Camera {
    /// A camera at `origin` looking at `look_at`, yaw and pitch zero, with a
    /// fresh controller.
    pub fn new(
        origin: Vec3Fx,
        look_at: Vec3Fx,
        view_up: Vec3Fx,
        fov: i64,
        aspect: i64,
        near: i64,
        far: i64,
        speed: i64,
        sensitivity: i64,
    ) -> (r: Camera)
        requires
            0 <= speed <= SPEED_MAX,
            0 <= sensitivity <= SENSITIVITY_MAX,
        ensures
            r@.origin == origin@,
            r@.yaw == 0,
            r@.pitch == 0,
            r@.look_at == look_at@,
            r@.view_up == view_up@,
            r@.fov == fov as int,
            r@.aspect == aspect as int,
            r@.near == near as int,
            r@.far == far as int,
            r@.controller == (CtlModel {
                amount_left: 0,
                amount_right: 0,
                amount_forward: 0,
                amount_backward: 0,
                amount_up: 0,
                amount_down: 0,
                rotate_horizontal: 0,
                rotate_vertical: 0,
                scroll: 0,
                speed: speed as int,
                sensitivity: sensitivity as int,
            }),
            ctl_bounded(r@.controller),
    {
        let controller = CameraController::new(speed, sensitivity);
        Camera {
            origin,
            yaw: 0,
            pitch: 0,
            look_at,
            view_up,
            fov,
            aspect,
            near,
            far,
            controller,
        }
    }

    /// Integrate one frame of controller impulses: move the position, apply
    /// and clamp the pending rotation, and consume the pending accumulators.
    ///
    /// `motion` holds the sines and cosines of the camera's yaw and pitch as
    /// they are on entry.
    pub fn update_camera(&mut self, motion: &Trig)
        requires
            cam_bounded(old(self)@),
            trig_bounded(motion@),
        ensures
            final(self)@ == updated_camera(old(self)@, motion@),
            -PITCH_LIMIT <= final(self)@.pitch <= PITCH_LIMIT,
            final(self)@.controller.rotate_horizontal == 0,
            final(self)@.controller.rotate_vertical == 0,
            final(self)@.controller.scroll == 0,
    {
        let ctl = self.controller;
        proof {
            lemma_impulse_bounds(ctl@);
        }
        // Move forward/backward and left/right, locked to the horizon.
        let f: i64 = fmul(ctl.amount_forward - ctl.amount_backward, ctl.speed);
        let r: i64 = fmul(ctl.amount_right - ctl.amount_left, ctl.speed);
        proof {
            lemma_trig_product_bound(f as int, motion@.yaw_sin);
            lemma_trig_product_bound(f as int, motion@.yaw_cos);
            lemma_trig_product_bound(r as int, motion@.yaw_cos);
            lemma_trig_product_bound(r as int, motion@.yaw_sin);
        }
        self.origin.x = self.origin.x + fmul(motion.yaw_sin, f);
        self.origin.z = self.origin.z + fmul(motion.yaw_cos, f);
        self.origin.x = self.origin.x + fmul(motion.yaw_cos, r);
        self.origin.z = self.origin.z - fmul(motion.yaw_sin, r);

        // Dolly along the look direction (scroll up moves the camera
        // forward), consuming the scroll impulse.
        let s: i64 = fmul(fmul(ctl.scroll, ctl.speed), ctl.sensitivity);
        let scroll_x: i64 = fmul(motion.pitch_cos, motion.yaw_sin);
        let scroll_z: i64 = fmul(motion.pitch_cos, motion.yaw_cos);
        proof {
            lemma_fp_mul_contract(motion@.pitch_cos, motion@.yaw_sin);
            lemma_fp_mul_contract(motion@.pitch_cos, motion@.yaw_cos);
            lemma_trig_product_bound(s as int, scroll_x as int);
            lemma_trig_product_bound(s as int, scroll_z as int);
            lemma_trig_product_bound(s as int, motion@.pitch_sin);
        }
        self.origin.x = self.origin.x - fmul(scroll_x, s);
        self.origin.y = self.origin.y - fmul(motion.pitch_sin, s);
        self.origin.z = self.origin.z - fmul(scroll_z, s);
        self.controller.scroll = 0;

        // Move up/down: no roll, so y changes directly.
        self.origin.y = self.origin.y + fmul(ctl.amount_up - ctl.amount_down, ctl.speed);

        // Apply the pending rotation, consuming the accumulators.
        let dyaw: i64 = fmul(ctl.rotate_horizontal, ctl.sensitivity);
        let dpitch: i64 = fmul(ctl.rotate_vertical, ctl.sensitivity);
        self.yaw = self.yaw + dyaw;
        self.pitch = self.pitch - dpitch;
        self.controller.rotate_horizontal = 0;
        self.controller.rotate_vertical = 0;

        // Keep the camera's angle from going too high or low.
        self.pitch = clamp(self.pitch, -PITCH_LIMIT, PITCH_LIMIT);
    }

    /// Recompute the look target from the camera's current angles: `dir`
    /// holds the sines and cosines of yaw and pitch as they are now.
    pub fn aim(&mut self, dir: &Trig)
        requires
            bounded(old(self)@.origin, 4 * POS_MAX as int),
            trig_bounded(dir@),
        ensures
            final(self)@ == aimed_camera(old(self)@, dir@),
    {
        proof {
            lemma_fp_mul_contract(dir@.pitch_cos, dir@.yaw_sin);
            lemma_fp_mul_contract(dir@.pitch_cos, dir@.yaw_cos);
        }
        let dx: i64 = fmul(dir.pitch_cos, dir.yaw_sin);
        let dz: i64 = fmul(dir.pitch_cos, dir.yaw_cos);
        self.look_at = Vec3Fx {
            x: self.origin.x + dx,
            y: self.origin.y + dir.pitch_sin,
            z: self.origin.z + dz,
        };
    }
}

/// Every per-frame impulse of a bounded controller is small enough for the
/// fixed-point multiplications and position additions of an update.
proof fn lemma_impulse_bounds(c: CtlModel)
    requires
        ctl_bounded(c),
    ensures
        -AMOUNT_MAX <= forward_impulse(c) <= AMOUNT_MAX,
        -AMOUNT_MAX <= right_impulse(c) <= AMOUNT_MAX,
        -AMOUNT_MAX <= updown_impulse(c) <= AMOUNT_MAX,
        -SCROLL_MAX <= fp_mul(c.scroll, c.speed) <= SCROLL_MAX,
        -(4 * SCROLL_MAX as int) <= scroll_impulse(c) <= 4 * SCROLL_MAX as int,
        -(4 * ROTATE_MAX as int) <= yaw_delta(c) <= 4 * ROTATE_MAX as int,
        -(4 * ROTATE_MAX as int) <= pitch_delta(c) <= 4 * ROTATE_MAX as int,
{
    lemma_fp_mul_contract(c.amount_forward - c.amount_backward, c.speed);
    lemma_fp_mul_contract(c.amount_right - c.amount_left, c.speed);
    lemma_fp_mul_contract(c.amount_up - c.amount_down, c.speed);
    lemma_fp_mul_contract(c.scroll, c.speed);
    lemma_scaled_bound(fp_mul(c.scroll, c.speed), c.sensitivity, SCROLL_MAX as int);
    lemma_scaled_bound(c.rotate_horizontal, c.sensitivity, ROTATE_MAX as int);
    lemma_scaled_bound(c.rotate_vertical, c.sensitivity, ROTATE_MAX as int);
}

/// Multiplying a scalar by a sine or cosine cannot grow it.
proof fn lemma_trig_product_bound(a: int, t: int)
    requires
        -(FP_ONE as int) <= t <= FP_ONE as int,
    ensures
        a >= 0 ==> -a <= fp_mul(t, a) <= a,
        a < 0 ==> a <= fp_mul(t, a) <= -a,
{
    lemma_fp_mul_contract(a, t);
    lemma_fp_mul_comm(a, t);
}

/// Multiplying a scalar bounded by `m` with a sensitivity of at most four
/// keeps it within `4 * m`.
proof fn lemma_scaled_bound(a: int, sens: int, m: int)
    requires
        0 <= m,
        -m <= a <= m,
        0 <= sens <= SENSITIVITY_MAX,
    ensures
        -(4 * m) <= fp_mul(a, sens) <= 4 * m,
{
    assert(-(m * (4 * FP_ONE)) <= a * sens <= m * (4 * FP_ONE)) by (nonlinear_arith)
        requires
            0 <= m && -m <= a <= m && 0 <= sens <= 4 * FP_ONE,
    ;
    lemma_div_tz_bound(a * sens, m * (4 * FP_ONE), FP_ONE as int);
    assert(m * (4 * FP_ONE) == (4 * m) * FP_ONE) by (nonlinear_arith);
    vstd::arithmetic::div_mod::lemma_div_multiples_vanish(4 * m, FP_ONE as int);
}

/// Largest near-plane distance `to_uniform` accepts (1000.0).
pub const NEAR_MAX: i64 = 1_000_000_000;

/// Largest aspect ratio `to_uniform` accepts (100.0).
pub const ASPECT_MAX: i64 = 100_000_000;

/// Largest tangent of the half field of view `to_uniform` accepts (4.0,
/// fields of view up to about 152 degrees).
pub const TAN_MAX: i64 = 4_000_000;

/// Positions handed to `to_uniform` stay within this magnitude (1000.0), so
/// the squared view distance fits a machine word.
pub const VIEW_POS_MAX: i64 = 1_000_000_000;

/// The GPU-visible ray-generation parameters. The rendering layer lays this
/// out for the shader (with its 16-byte alignment padding); here the fields
/// are the exact fixed-point values.
#[derive(Clone, Copy, Debug, PartialEq, Eq, Structural)]
pub struct CameraUniform {
    pub origin: Vec3Fx,
    pub lower_left_corner: Vec3Fx,
    pub horizontal: Vec3Fx,
    pub vertical: Vec3Fx,
    pub near: i64,
    pub far: i64,
}

/// Mathematical model of the ray-generation parameters.
pub struct UniformModel {
    pub origin: V3i,
    pub lower_left_corner: V3i,
    pub horizontal: V3i,
    pub vertical: V3i,
    pub near: int,
    pub far: int,
}

impl View for CameraUniform {
    type V = UniformModel;

    open spec fn view(&self) -> UniformModel {
        UniformModel {
            origin: self.origin@,
            lower_left_corner: self.lower_left_corner@,
            horizontal: self.horizontal@,
            vertical: self.vertical@,
            near: self.near as int,
            far: self.far as int,
        }
    }
}

/// The basis vector pointing from the look target back to the camera:
/// w = normalize(origin - look_at).
pub open spec fn basis_w(c: CamModel) -> V3i {
    normalize3(sub3(c.origin, c.look_at))
}

/// The rightward basis vector: u = normalize(view_up x w).
pub open spec fn basis_u(c: CamModel) -> V3i {
    normalize3(cross3_fp(c.view_up, basis_w(c)))
}

/// The upward basis vector: v = w x u.
pub open spec fn basis_v(c: CamModel) -> V3i {
    cross3_fp(basis_w(c), basis_u(c))
}

/// The camera state is fit for basis derivation: positions within range,
/// the view direction has positive length, the up direction is a bounded
/// vector not collinear with the view direction, and the projection
/// parameters are within range.
pub open spec fn viewable(c: CamModel) -> bool {
    &&& bounded(c.origin, VIEW_POS_MAX as int)
    &&& bounded(c.look_at, VIEW_POS_MAX as int)
    &&& bounded(c.view_up, 2 * FP_ONE as int)
    &&& dots(sub3(c.origin, c.look_at), sub3(c.origin, c.look_at)) >= 1
    &&& dots(cross3_fp(c.view_up, basis_w(c)), cross3_fp(c.view_up, basis_w(c))) >= 1
    &&& 0 <= c.near <= NEAR_MAX as int
    &&& 0 <= c.aspect <= ASPECT_MAX as int
}

/// The ray-generation parameters of a camera state: an orthonormal-basis
/// frustum, symmetric about the view axis.
pub open spec fn uniform_model(c: CamModel, tan_half_fov: int) -> UniformModel {
    let w = basis_w(c);
    let u = basis_u(c);
    let v = basis_v(c);
    let half_height = fp_mul(c.near, tan_half_fov);
    let half_width = fp_mul(c.aspect, half_height);
    UniformModel {
        origin: c.origin,
        lower_left_corner: sub3(
            sub3(sub3(c.origin, scale3(u, half_width)), scale3(v, half_height)),
            scale3(w, c.near),
        ),
        horizontal: scale3(u, 2 * half_width),
        vertical: scale3(v, 2 * half_height),
        near: c.near,
        far: c.far,
    }
}

impl Camera {
    /// Derive the GPU-visible ray-generation parameters: the orthonormal
    /// basis w, u, v, the half extents of the frustum, and from them the
    /// span vectors and the lower-left corner.
    ///
    /// `tan_half_fov` is the tangent of half the field of view, evaluated
    /// by the caller, in fixed point.
    pub fn to_uniform(&self, tan_half_fov: i64) -> (r: CameraUniform)
        requires
            viewable(self@),
            0 <= tan_half_fov <= TAN_MAX,
        ensures
            r@ == uniform_model(self@, tan_half_fov as int),
    {
        let half_height: i64 = fmul(self.near, tan_half_fov);
        proof {
            lemma_fp_mul_comm(self@.near, tan_half_fov as int);
            lemma_fp_mul_factor_bound(tan_half_fov as int, self@.near, 4, NEAR_MAX as int);
            lemma_fp_mul_comm(self@.aspect, half_height as int);
            lemma_fp_mul_factor_bound(
                half_height as int,
                self@.aspect,
                4 * NEAR_MAX as int / FP_ONE as int,
                ASPECT_MAX as int,
            );
            lemma_fp_mul_comm(half_height as int, self@.aspect);
        }
        let half_width: i64 = fmul(self.aspect, half_height);
        let w = vnormalize(vsub(self.origin, self.look_at));
        proof {
            crate::vec3::lemma_cross_fp_bound(self@.view_up, w@, 2 * FP_ONE as int, FP_ONE as int);
        }
        let u = vnormalize(vcross_fp(self.view_up, w));
        proof {
            crate::vec3::lemma_cross_fp_bound(w@, u@, FP_ONE as int, FP_ONE as int);
        }
        let v = vcross_fp(w, u);
        proof {
            lemma_scale_terms(u@, half_width as int, 1, 400_000_000_000int);
            lemma_scale_terms(v@, half_height as int, 2, 4_000_000_000int);
            lemma_scale_terms(w@, self@.near, 1, NEAR_MAX as int);
        }
        let horizontal = vscale(u, 2 * half_width);
        let vertical = vscale(v, 2 * half_height);
        let lower_left_corner = vsub(
            vsub(vsub(self.origin, vscale(u, half_width)), vscale(v, half_height)),
            vscale(w, self.near),
        );
        CameraUniform {
            origin: self.origin,
            lower_left_corner,
            horizontal,
            vertical,
            near: self.near,
            far: self.far,
        }
    }
}

/// Scaling a basis vector bounded by `k` units with a scalar bounded by
/// `mb` keeps every component within `2 * k * mb`, for the scalar itself
/// and for its double.
proof fn lemma_scale_terms(v: V3i, s: int, k: int, mb: int)
    requires
        0 <= k,
        0 <= mb,
        bounded(v, k * FP_ONE as int),
        -mb <= s <= mb,
    ensures
        -(k * mb) <= fp_mul(v.x, s) <= k * mb,
        -(k * mb) <= fp_mul(v.y, s) <= k * mb,
        -(k * mb) <= fp_mul(v.z, s) <= k * mb,
        -(2 * k * mb) <= fp_mul(v.x, 2 * s) <= 2 * k * mb,
        -(2 * k * mb) <= fp_mul(v.y, 2 * s) <= 2 * k * mb,
        -(2 * k * mb) <= fp_mul(v.z, 2 * s) <= 2 * k * mb,
{
    lemma_fp_mul_factor_bound(v.x, s, k, mb);
    lemma_fp_mul_factor_bound(v.y, s, k, mb);
    lemma_fp_mul_factor_bound(v.z, s, k, mb);
    lemma_fp_mul_factor_bound(v.x, 2 * s, k, 2 * mb);
    lemma_fp_mul_factor_bound(v.y, 2 * s, k, 2 * mb);
    lemma_fp_mul_factor_bound(v.z, 2 * s, k, 2 * mb);
    assert(k * (2 * mb) == 2 * k * mb) by (nonlinear_arith);
}

/// The rounded-down fixed-point length of view_up x w: the denominator
/// that normalizes the rightward basis vector.
pub open spec fn u_axis_len(c: CamModel) -> int {
    crate::fixed::isqrt_spec(
        dots(cross3_fp(c.view_up, basis_w(c)), cross3_fp(c.view_up, basis_w(c))) as nat,
    ) as int
}

/// The rounded-down fixed-point length of the view direction.
pub open spec fn w_axis_len(c: CamModel) -> int {
    crate::fixed::isqrt_spec(
        dots(sub3(c.origin, c.look_at), sub3(c.origin, c.look_at)) as nat,
    ) as int
}

/// Orthonormality of the ray-generation basis, within fixed-point
/// rounding tolerance: for every non-degenerate camera state the three
/// basis vectors are unit length (squared length within `8 * FP_ONE + 3`
/// of one, on the `FP_ONE * FP_ONE` scale) and mutually orthogonal
/// (inner products within a few `FP_ONE` of zero, on the same scale, where
/// exact unit vectors would reach `FP_ONE * FP_ONE`).
pub proof fn lemma_basis_orthonormal(c: CamModel)
    requires
        viewable(c),
    ensures
        bounded(basis_w(c), FP_ONE as int),
        bounded(basis_u(c), FP_ONE as int),
        bounded(basis_v(c), 2 * FP_ONE as int),
        -(3 * FP_ONE as int) <= dots(basis_v(c), basis_w(c)) <= 3 * FP_ONE as int,
        -(3 * FP_ONE as int) <= dots(basis_v(c), basis_u(c)) <= 3 * FP_ONE as int,
        -(3 * (FP_ONE as int * FP_ONE as int) + 3 * (u_axis_len(c) * FP_ONE as int)) <= u_axis_len(
            c,
        ) * dots(basis_u(c), basis_w(c)) <= 3 * (FP_ONE as int * FP_ONE as int) + 3 * (u_axis_len(
            c,
        ) * FP_ONE as int),
        u_axis_len(c) >= FP_ONE as int ==> -(6 * FP_ONE as int) <= dots(basis_u(c), basis_w(c))
            <= 6 * FP_ONE as int,
        w_axis_len(c) >= FP_ONE as int ==> -(8 * FP_ONE as int + 3) <= dots(
            basis_w(c),
            basis_w(c),
        ) - FP_ONE as int * FP_ONE as int <= 8 * FP_ONE as int + 3,
        u_axis_len(c) >= FP_ONE as int ==> -(8 * FP_ONE as int + 3) <= dots(
            basis_u(c),
            basis_u(c),
        ) - FP_ONE as int * FP_ONE as int <= 8 * FP_ONE as int + 3,
        w_axis_len(c) >= FP_ONE as int && u_axis_len(c) >= FP_ONE as int ==> -(30 * FP_ONE as int)
            <= dots(basis_v(c), basis_v(c)) - FP_ONE as int * FP_ONE as int <= 30 * FP_ONE as int,
{
    let f = FP_ONE as int;
    let d = sub3(c.origin, c.look_at);
    let w = basis_w(c);
    crate::vec3::lemma_normalize3_bounded(d);
    let craw = cross3(c.view_up, w);
    crate::vec3::lemma_cross_orthogonal(c.view_up, w);
    let cu = cross3_fp(c.view_up, w);
    crate::vec3::lemma_rescale_orthogonal_error(craw, w, f);
    crate::vec3::lemma_normalize3_bounded(cu);
    crate::vec3::lemma_normalize_orthogonal_error(cu, w, f, 3 * f);
    let l = u_axis_len(c);
    let u = basis_u(c);
    if l >= f {
        assert(-(6 * f) <= dots(u, w) <= 6 * f) by (nonlinear_arith)
            requires
                f == 1_000_000,
                l >= f,
                -(f * (3 * f) + 3 * (l * f)) <= l * dots(u, w) <= f * (3 * f) + 3 * (l * f),
        ;
    }
    let craw2 = cross3(w, u);
    crate::vec3::lemma_cross_orthogonal(w, u);
    crate::vec3::lemma_rescale_orthogonal_error(craw2, w, f);
    crate::vec3::lemma_rescale_orthogonal_error(craw2, u, f);
    crate::vec3::lemma_cross_fp_bound(w, u, f, f);
    if w_axis_len(c) >= f {
        crate::vec3::lemma_normalize_unit_error(d);
    }
    if l >= f {
        crate::vec3::lemma_normalize_unit_error(cu);
    }
    if w_axis_len(c) >= f && l >= f {
        crate::vec3::lemma_normalize_unit_error(d);
        crate::vec3::lemma_normalize_unit_error(cu);
        assert(-(6 * f) <= dots(u, w) <= 6 * f) by (nonlinear_arith)
            requires
                f == 1_000_000,
                l >= f,
                -(f * (3 * f) + 3 * (l * f)) <= l * dots(u, w) <= f * (3 * f) + 3 * (l * f),
        ;
        crate::vec3::lemma_dots_comm(u, w);
        crate::vec3::lemma_lagrange_identity(w, u);
        let al = dots(w, w) - 1_000_000_000_000;
        let be = dots(u, u) - 1_000_000_000_000;
        lemma_expand_shifted_product(al, be, dots(w, w), dots(u, u));
        crate::vec3::lemma_abs_product(al, be, 8_000_003, 8_000_003);
        crate::vec3::lemma_square_bounds(dots(w, u), 6 * f);
        crate::vec3::lemma_rescale_self_dot_error(craw2, 2_000_000_000_000);
    }
}

/// A product of two near-unit squared lengths, expanded around the unit
/// scale.
proof fn lemma_expand_shifted_product(al: int, be: int, ww: int, uu: int)
    by (nonlinear_arith)
    requires
        ww == 1_000_000_000_000 + al,
        uu == 1_000_000_000_000 + be,
    ensures
        ww * uu == 1_000_000_000_000_000_000_000_000 + 1_000_000_000_000 * al + 1_000_000_000_000
            * be + al * be,
{
}

/// For every camera state and every trigonometric sample, the pitch after
/// an update lies within the clamp band: the basis can never degenerate
/// through accumulated rotation input.
pub proof fn lemma_pitch_clamped(c: CamModel, t: TrigModel)
    ensures
        -PITCH_LIMIT as int <= updated_camera(c, t).pitch <= PITCH_LIMIT as int,
{
}

/// Consumption law: an update on a camera whose pending rotation and
/// scroll are already consumed (as they are right after any update)
/// rotates nothing and dollies nothing. Only the held-key movement
/// remains: running the update twice in a row applies mouse and scroll
/// input exactly once.
pub proof fn lemma_consumed_update_is_still(c: CamModel, t: TrigModel)
    requires
        c.controller.rotate_horizontal == 0,
        c.controller.rotate_vertical == 0,
        c.controller.scroll == 0,
        -PITCH_LIMIT as int <= c.pitch <= PITCH_LIMIT as int,
    ensures
        updated_camera(c, t).yaw == c.yaw,
        updated_camera(c, t).pitch == c.pitch,
        scroll_impulse(c.controller) == 0,
        moved_origin(c, t) == (V3i {
            x: c.origin.x + fp_mul(t.yaw_sin, forward_impulse(c.controller)) + fp_mul(
                t.yaw_cos,
                right_impulse(c.controller),
            ),
            y: c.origin.y + updown_impulse(c.controller),
            z: c.origin.z + fp_mul(t.yaw_cos, forward_impulse(c.controller)) - fp_mul(
                t.yaw_sin,
                right_impulse(c.controller),
            ),
        }),
{
    crate::fixed::lemma_fp_mul_zero(c.controller.speed);
    crate::fixed::lemma_fp_mul_zero(c.controller.sensitivity);
    assert(scroll_impulse(c.controller) == 0);
    crate::fixed::lemma_fp_mul_zero(fp_mul(t.pitch_cos, t.yaw_cos));
    crate::fixed::lemma_fp_mul_zero(fp_mul(t.pitch_cos, t.yaw_sin));
    crate::fixed::lemma_fp_mul_zero(t.pitch_sin);
}

/// Degrees to radians: multiply by pi / 180 in fixed point.
pub fn radians(deg: i64) -> (r: i64)
    requires
        -FMUL_MAX <= deg <= FMUL_MAX,
    ensures
        r == fp_mul(deg as int, RAD_PER_DEG as int),
{
    fmul(deg, RAD_PER_DEG)
}

/// Radians to degrees: multiply by 180 / pi in fixed point.
pub fn degrees(rad: i64) -> (r: i64)
    requires
        -FMUL_MAX <= rad <= FMUL_MAX,
    ensures
        r == fp_mul(rad as int, DEG_PER_RAD as int),
{
    fmul(rad, DEG_PER_RAD)
}

} // verus!
