//! Cameras over fixed-point parameters.
//!
//! The camera set is closed: an orthographic camera with an explicit view
//! box, and an orbiting perspective camera parameterized by spherical
//! coordinates around a look-at target. All parameters are fixed-point
//! microunits (see [`crate::fixed`]); angles are microradians.
//!
//! The orthographic view-projection matrix is computed here exactly, in
//! fixed point, with the depth-range conversion for a `[0, 1]` clip-space
//! API applied exactly once on the left of `projection * view`. The orbit
//! camera's trigonometric eye resolution is floating-point work that the
//! GPU layer performs on the clamped parameters exported from here.

use crate::fixed::{
    clamp_spec, clamp_fp, div_fp, div_trunc, fp_div, fp_mul, lemma_div_trunc_bound,
    lemma_fp_mul_one, lemma_fp_mul_zero, mul_fp, Mat4Fp, Vec3Fp, FP_ONE,
};
use crate::input::{InputManager, Key};
use vstd::prelude::*;

verus! {

/// Half of one world unit, in fixed-point ticks.
pub const HALF_FP: i64 = 500_000;

/// Largest magnitude, in ticks, of any world-space coordinate or camera
/// bound the engine accepts: one million world units.
pub const COORD_LIMIT: i64 = 1_000_000_000_000;

/// Pi in microradians, truncated.
pub const PI_URAD: i64 = 3_141_593;

/// Half pi in microradians, truncated.
pub const HALF_PI_URAD: i64 = 1_570_796;

/// Margin kept between the polar angle and either pole, in microradians.
pub const POLE_MARGIN_URAD: i64 = 100_000;

/// Smallest polar angle the orbit camera reaches.
pub const PHI_MIN_URAD: i64 = 100_000;

/// Largest polar angle the orbit camera reaches: pi minus the margin.
pub const PHI_MAX_URAD: i64 = 3_041_593;

/// Saturation bound for the unconstrained azimuth angle, in microradians.
pub const THETA_LIMIT_URAD: i64 = 1_000_000_000_000;

/// Largest single-move delta the orbit camera accepts, in microradians or
/// ticks per axis.
pub const MOVE_DELTA_LIMIT: i64 = 10_000_000_000;

/// `1 / sqrt(2)` in fixed point, truncated.
pub const INV_SQRT2_FP: i64 = 707_106;

/// `1 / sqrt(3)` in fixed point, truncated.
pub const INV_SQRT3_FP: i64 = 577_350;

/// Angular speed of the orbit controller: half pi microradians per second.
pub const ORBIT_ANGULAR_SPEED_FP: i64 = 1_570_796;

/// Radial speed of the orbit controller: half a unit per second.
pub const ORBIT_RADIAL_SPEED_FP: i64 = 500_000;

/// Vertical field of view of the orbit camera, in fixed-point degrees.
pub const ORBIT_FOV_Y_DEG_FP: i64 = 75_000_000;

/// Near plane distance of the orbit camera, in ticks.
pub const ORBIT_Z_NEAR_FP: i64 = 100_000;

/// Far plane distance of the orbit camera, in ticks.
pub const ORBIT_Z_FAR_FP: i64 = 100_000_000;

/// An orthographic camera: a position and a view box. Moving the camera
/// changes only the position; the projection is invariant.
#[derive(Clone, Copy, Debug)]
pub struct OrthographicCamera {
    pub pos: Vec3Fp,
    pub left: i64,
    pub right: i64,
    pub bottom: i64,
    pub top: i64,
    pub z_near: i64,
    pub z_far: i64,
}

impl OrthographicCamera {
    /// The view box is proper and every parameter is within the
    /// representable coordinate range.
    pub open spec fn wf(self) -> bool {
        &&& self.left < self.right
        &&& self.bottom < self.top
        &&& self.z_near < self.z_far
        &&& -COORD_LIMIT <= self.left <= COORD_LIMIT
        &&& -COORD_LIMIT <= self.right <= COORD_LIMIT
        &&& -COORD_LIMIT <= self.bottom <= COORD_LIMIT
        &&& -COORD_LIMIT <= self.top <= COORD_LIMIT
        &&& -COORD_LIMIT <= self.z_near <= COORD_LIMIT
        &&& -COORD_LIMIT <= self.z_far <= COORD_LIMIT
        &&& -COORD_LIMIT <= self.pos.x <= COORD_LIMIT
        &&& -COORD_LIMIT <= self.pos.y <= COORD_LIMIT
        &&& -COORD_LIMIT <= self.pos.z <= COORD_LIMIT
    }

    /// Horizontal scale of the orthographic projection.
    pub open spec fn sx(self) -> int {
        fp_div(2 * FP_ONE, self.right - self.left)
    }

    /// Vertical scale of the orthographic projection.
    pub open spec fn sy(self) -> int {
        fp_div(2 * FP_ONE, self.top - self.bottom)
    }

    /// Depth scale of the orthographic projection.
    pub open spec fn sz(self) -> int {
        fp_div(-2 * FP_ONE, self.z_far - self.z_near)
    }

    /// Horizontal translation of the orthographic projection.
    pub open spec fn tx(self) -> int {
        fp_div(-(self.right + self.left), self.right - self.left)
    }

    /// Vertical translation of the orthographic projection.
    pub open spec fn ty(self) -> int {
        fp_div(-(self.top + self.bottom), self.top - self.bottom)
    }

    /// Depth translation of the orthographic projection.
    pub open spec fn tz(self) -> int {
        fp_div(-(self.z_far + self.z_near), self.z_far - self.z_near)
    }

    /// A new camera; the view box must be proper, which also rules out
    /// the division by zero a degenerate box would cause.
    pub fn new(pos: Vec3Fp, left: i64, right: i64, bottom: i64, top: i64, z_near: i64, z_far: i64) -> (camera:
        OrthographicCamera)
        requires
            left < right,
            bottom < top,
            z_near < z_far,
            -COORD_LIMIT <= left <= COORD_LIMIT,
            -COORD_LIMIT <= right <= COORD_LIMIT,
            -COORD_LIMIT <= bottom <= COORD_LIMIT,
            -COORD_LIMIT <= top <= COORD_LIMIT,
            -COORD_LIMIT <= z_near <= COORD_LIMIT,
            -COORD_LIMIT <= z_far <= COORD_LIMIT,
            -COORD_LIMIT <= pos.x <= COORD_LIMIT,
            -COORD_LIMIT <= pos.y <= COORD_LIMIT,
            -COORD_LIMIT <= pos.z <= COORD_LIMIT,
        ensures
            camera.wf(),
            camera == (OrthographicCamera { pos, left, right, bottom, top, z_near, z_far }),
    {
        OrthographicCamera { pos, left, right, bottom, top, z_near, z_far }
    }

    /// Translates the camera. Each axis saturates at the representable
    /// coordinate range; within the range the translation is exact
    /// addition. The view box is untouched.
    pub fn move_camera_pos(&mut self, translation: Vec3Fp)
        requires
            old(self).wf(),
            -COORD_LIMIT <= translation.x <= COORD_LIMIT,
            -COORD_LIMIT <= translation.y <= COORD_LIMIT,
            -COORD_LIMIT <= translation.z <= COORD_LIMIT,
        ensures
            final(self).wf(),
            final(self).pos.x == clamp_spec(
                old(self).pos.x + translation.x,
                -COORD_LIMIT as int,
                COORD_LIMIT as int,
            ),
            final(self).pos.y == clamp_spec(
                old(self).pos.y + translation.y,
                -COORD_LIMIT as int,
                COORD_LIMIT as int,
            ),
            final(self).pos.z == clamp_spec(
                old(self).pos.z + translation.z,
                -COORD_LIMIT as int,
                COORD_LIMIT as int,
            ),
            final(self).left == old(self).left,
            final(self).right == old(self).right,
            final(self).bottom == old(self).bottom,
            final(self).top == old(self).top,
            final(self).z_near == old(self).z_near,
            final(self).z_far == old(self).z_far,
    {
        self.pos = Vec3Fp {
            x: clamp_fp(self.pos.x + translation.x, -COORD_LIMIT, COORD_LIMIT),
            y: clamp_fp(self.pos.y + translation.y, -COORD_LIMIT, COORD_LIMIT),
            z: clamp_fp(self.pos.z + translation.z, -COORD_LIMIT, COORD_LIMIT),
        };
    }

    /// The fixed-point view-projection matrix: the depth-range conversion
    /// applied once on the left of the orthographic projection times the
    /// view translation. The nonzero entries are the two scales, the
    /// halved depth scale, the translation column, and the unit in the
    /// corner; every other entry is zero.
    pub fn view_projection(&self) -> (vp: Mat4Fp)
        requires
            self.wf(),
        ensures
            vp.wf(),
            vp.entry(0, 0) == self.sx(),
            vp.entry(1, 1) == self.sy(),
            vp.entry(2, 2) == fp_mul(HALF_FP as int, self.sz()),
            vp.entry(3, 3) == FP_ONE,
            vp.entry(0, 3) == fp_mul(self.sx(), -self.pos.x) + self.tx(),
            vp.entry(1, 3) == fp_mul(self.sy(), -self.pos.y) + self.ty(),
            vp.entry(2, 3) == fp_mul(HALF_FP as int, fp_mul(self.sz(), -self.pos.z) + self.tz())
                + HALF_FP,
            vp.entry(1, 0) == 0 && vp.entry(2, 0) == 0 && vp.entry(3, 0) == 0,
            vp.entry(0, 1) == 0 && vp.entry(2, 1) == 0 && vp.entry(3, 1) == 0,
            vp.entry(0, 2) == 0 && vp.entry(1, 2) == 0 && vp.entry(3, 2) == 0,
            forall|k: int| 0 <= k < 16 ==> (#[trigger] vp.m@[k]) as int == view_projection_spec(
                *self,
            )[k],
    {
        let w = self.right - self.left;
        let h = self.top - self.bottom;
        let d = self.z_far - self.z_near;
        proof {
            lemma_div_trunc_bound(2 * FP_ONE * FP_ONE, w as int, 2_000_000_000_000);
            lemma_div_trunc_bound(2 * FP_ONE * FP_ONE, h as int, 2_000_000_000_000);
            lemma_div_trunc_bound(-2 * FP_ONE * FP_ONE, d as int, 2_000_000_000_000);
            lemma_div_trunc_bound(
                -(self.right + self.left) * FP_ONE,
                w as int,
                2_000_000_000_000_000_000,
            );
            lemma_div_trunc_bound(
                -(self.top + self.bottom) * FP_ONE,
                h as int,
                2_000_000_000_000_000_000,
            );
            lemma_div_trunc_bound(
                -(self.z_far + self.z_near) * FP_ONE,
                d as int,
                2_000_000_000_000_000_000,
            );
        }
        let sx = div_fp(2_000_000, w);
        let sy = div_fp(2_000_000, h);
        let sz = div_fp(-2_000_000, d);
        let tx = div_fp(-(self.right + self.left), w);
        let ty = div_fp(-(self.top + self.bottom), h);
        let tz = div_fp(-(self.z_far + self.z_near), d);
        proof {
            assert(-2_000_000_000_000_000_000_000_000 <= sx * (-self.pos.x)
                <= 2_000_000_000_000_000_000_000_000) by (nonlinear_arith)
                requires
                    -2_000_000_000_000 <= sx <= 2_000_000_000_000,
                    -COORD_LIMIT <= self.pos.x <= COORD_LIMIT,
            ;
            lemma_div_trunc_bound(
                sx * (-self.pos.x),
                FP_ONE as int,
                2_000_000_000_000_000_000,
            );
            assert(-2_000_000_000_000_000_000_000_000 <= sy * (-self.pos.y)
                <= 2_000_000_000_000_000_000_000_000) by (nonlinear_arith)
                requires
                    -2_000_000_000_000 <= sy <= 2_000_000_000_000,
                    -COORD_LIMIT <= self.pos.y <= COORD_LIMIT,
            ;
            lemma_div_trunc_bound(
                sy * (-self.pos.y),
                FP_ONE as int,
                2_000_000_000_000_000_000,
            );
            assert(-2_000_000_000_000_000_000_000_000 <= sz * (-self.pos.z)
                <= 2_000_000_000_000_000_000_000_000) by (nonlinear_arith)
                requires
                    -2_000_000_000_000 <= sz <= 2_000_000_000_000,
                    -COORD_LIMIT <= self.pos.z <= COORD_LIMIT,
            ;
            lemma_div_trunc_bound(
                sz * (-self.pos.z),
                FP_ONE as int,
                2_000_000_000_000_000_000,
            );
        }
        let m12 = mul_fp(sx, -self.pos.x) + tx;
        let m13 = mul_fp(sy, -self.pos.y) + ty;
        let inner = mul_fp(sz, -self.pos.z) + tz;
        proof {
            lemma_div_trunc_bound(
                HALF_FP as int * inner,
                FP_ONE as int,
                2_000_000_000_000_000_000,
            );
        }
        proof {
            lemma_div_trunc_bound(
                HALF_FP as int * sz,
                FP_ONE as int,
                1_000_000_000_000_000_000,
            );
        }
        let m10 = mul_fp(HALF_FP, sz);
        let m14 = mul_fp(HALF_FP, inner) + HALF_FP;
        let mut m: Vec<i64> = Vec::new();
        m.push(sx);
        m.push(0);
        m.push(0);
        m.push(0);
        m.push(0);
        m.push(sy);
        m.push(0);
        m.push(0);
        m.push(0);
        m.push(0);
        m.push(m10);
        m.push(0);
        m.push(m12);
        m.push(m13);
        m.push(m14);
        m.push(FP_ONE);
        proof {
            assert forall|k: int| 0 <= k < 16 implies (#[trigger] m@[k]) as int
                == view_projection_spec(*self)[k] by {}
        }
        Mat4Fp { m }
    }
}

/// An orbiting perspective camera: spherical coordinates around a fixed
/// look-at target. The polar angle is kept strictly between the poles and
/// the radial distance within `[0, radius]`.
#[derive(Clone, Copy, Debug)]
pub struct SphereCamera {
    pub target: Vec3Fp,
    pub theta: i64,
    pub phi: i64,
    pub radius: i64,
    pub radius_pos: i64,
    pub aspect_ratio: i64,
    pub fov_y_deg: i64,
    pub z_near: i64,
    pub z_far: i64,
}

impl SphereCamera {
    /// The clamps hold, the target is representable, and the perspective
    /// parameters are proper.
    pub open spec fn wf(self) -> bool {
        &&& PHI_MIN_URAD <= self.phi <= PHI_MAX_URAD
        &&& 0 <= self.radius_pos <= self.radius <= COORD_LIMIT
        &&& -THETA_LIMIT_URAD <= self.theta <= THETA_LIMIT_URAD
        &&& self.aspect_ratio > 0
        &&& -COORD_LIMIT <= self.target.x <= COORD_LIMIT
        &&& -COORD_LIMIT <= self.target.y <= COORD_LIMIT
        &&& -COORD_LIMIT <= self.target.z <= COORD_LIMIT
        &&& 0 < self.z_near < self.z_far <= COORD_LIMIT
        &&& 0 < self.fov_y_deg < 180_000_000
    }

    /// A new orbit camera at full radial distance. The polar angle is
    /// clamped away from the poles on construction, so the invariant
    /// holds from the first frame.
    pub fn new(target: Vec3Fp, theta: i64, phi: i64, radius: i64, aspect_ratio: i64) -> (camera:
        SphereCamera)
        requires
            -COORD_LIMIT <= target.x <= COORD_LIMIT,
            -COORD_LIMIT <= target.y <= COORD_LIMIT,
            -COORD_LIMIT <= target.z <= COORD_LIMIT,
            -THETA_LIMIT_URAD <= theta <= THETA_LIMIT_URAD,
            0 <= radius <= COORD_LIMIT,
            aspect_ratio > 0,
        ensures
            camera.wf(),
            camera.target == target,
            camera.theta == theta,
            camera.phi == clamp_spec(phi as int, PHI_MIN_URAD as int, PHI_MAX_URAD as int),
            camera.radius == radius,
            camera.radius_pos == radius,
            camera.aspect_ratio == aspect_ratio,
            camera.fov_y_deg == ORBIT_FOV_Y_DEG_FP,
            camera.z_near == ORBIT_Z_NEAR_FP,
            camera.z_far == ORBIT_Z_FAR_FP,
    {
        SphereCamera {
            target,
            theta,
            phi: clamp_fp(phi, PHI_MIN_URAD, PHI_MAX_URAD),
            radius,
            radius_pos: radius,
            aspect_ratio,
            fov_y_deg: ORBIT_FOV_Y_DEG_FP,
            z_near: ORBIT_Z_NEAR_FP,
            z_far: ORBIT_Z_FAR_FP,
        }
    }

    /// Applies one orbital move. The azimuth accumulates and saturates at
    /// the representable range; the polar angle clamps strictly inside
    /// the poles; the radial distance clamps to `[0, radius]`. A move
    /// that drives a value past a bound lands exactly on the bound.
    pub fn move_camera(&mut self, theta_delta: i64, phi_delta: i64, radius_delta: i64)
        requires
            old(self).wf(),
            -MOVE_DELTA_LIMIT <= theta_delta <= MOVE_DELTA_LIMIT,
            -MOVE_DELTA_LIMIT <= phi_delta <= MOVE_DELTA_LIMIT,
            -MOVE_DELTA_LIMIT <= radius_delta <= MOVE_DELTA_LIMIT,
        ensures
            final(self).wf(),
            final(self).theta == clamp_spec(
                old(self).theta + theta_delta,
                -THETA_LIMIT_URAD as int,
                THETA_LIMIT_URAD as int,
            ),
            final(self).phi == clamp_spec(
                old(self).phi + phi_delta,
                PHI_MIN_URAD as int,
                PHI_MAX_URAD as int,
            ),
            final(self).radius_pos == clamp_spec(
                old(self).radius_pos + radius_delta,
                0,
                old(self).radius as int,
            ),
            final(self).target == old(self).target,
            final(self).radius == old(self).radius,
            final(self).aspect_ratio == old(self).aspect_ratio,
            final(self).fov_y_deg == old(self).fov_y_deg,
            final(self).z_near == old(self).z_near,
            final(self).z_far == old(self).z_far,
    {
        self.theta = clamp_fp(self.theta + theta_delta, -THETA_LIMIT_URAD, THETA_LIMIT_URAD);
        self.phi = clamp_fp(self.phi + phi_delta, PHI_MIN_URAD, PHI_MAX_URAD);
        self.radius_pos = clamp_fp(self.radius_pos + radius_delta, 0, self.radius);
    }
}

/// The polar angle after any single move stays strictly between the
/// poles, and a move that pushes past a bound lands exactly on it: the
/// angle converges to the margin and never reaches a pole.
pub proof fn lemma_orbit_polar_clamped(phi: int, phi_delta: int)
    ensures
        PHI_MIN_URAD <= clamp_spec(phi + phi_delta, PHI_MIN_URAD as int, PHI_MAX_URAD as int)
            <= PHI_MAX_URAD,
        0 < clamp_spec(phi + phi_delta, PHI_MIN_URAD as int, PHI_MAX_URAD as int) < PI_URAD,
        phi + phi_delta <= PHI_MIN_URAD ==> clamp_spec(
            phi + phi_delta,
            PHI_MIN_URAD as int,
            PHI_MAX_URAD as int,
        ) == PHI_MIN_URAD,
        phi + phi_delta >= PHI_MAX_URAD ==> clamp_spec(
            phi + phi_delta,
            PHI_MIN_URAD as int,
            PHI_MAX_URAD as int,
        ) == PHI_MAX_URAD,
{
}

/// The radial distance after any single move stays within `[0, radius]`
/// and clamps exactly at either bound when driven past it.
pub proof fn lemma_orbit_radius_clamped(radius_pos: int, radius_delta: int, radius: int)
    requires
        0 <= radius,
    ensures
        0 <= clamp_spec(radius_pos + radius_delta, 0, radius) <= radius,
        radius_pos + radius_delta <= 0 ==> clamp_spec(radius_pos + radius_delta, 0, radius) == 0,
        radius_pos + radius_delta >= radius ==> clamp_spec(radius_pos + radius_delta, 0, radius)
            == radius,
{
}

/// Signed movement intent of one axis: `+1`, `-1`, or `0` from a pair of
/// opposing keys.
pub open spec fn axis_intent(plus: bool, minus: bool) -> int {
    (if plus {
        1int
    } else {
        0int
    }) - (if minus {
        1int
    } else {
        0int
    })
}

/// Number of axes with nonzero intent.
pub open spec fn active_axes(a: int, b: int, c: int) -> int {
    (if a != 0 {
        1int
    } else {
        0int
    }) + (if b != 0 {
        1int
    } else {
        0int
    }) + (if c != 0 {
        1int
    } else {
        0int
    })
}

/// Normalization factor for a movement-intent vector with `k` active
/// axes: `1 / sqrt(k)` in fixed point. With every component `+1` or `-1`,
/// the vector's length is `sqrt(k)`, so scaling each component by this
/// factor normalizes the vector.
pub open spec fn unit_scale_fp(k: int) -> int
    recommends
        1 <= k <= 3,
{
    if k <= 1 {
        FP_ONE as int
    } else if k == 2 {
        INV_SQRT2_FP as int
    } else {
        INV_SQRT3_FP as int
    }
}

/// The per-axis step of a normalized move: speed times the normalized
/// unit times the frame time in seconds (one microsecond is one tick).
pub open spec fn axis_step_fp(speed: int, k: int, delta_time_us: int) -> int {
    fp_mul(speed, fp_mul(unit_scale_fp(k), delta_time_us))
}

/// Diagonal movement matches single-axis movement: the squared magnitude
/// of a two-axis displacement, each axis scaled by `1 / sqrt(2)`, never
/// exceeds the squared single-axis step, and falls short of it by at
/// most one part in four hundred thousand plus three truncation ticks.
/// (Exact equality of the two speeds is a real-number statement; these
/// bounds are its fixed-point form.)
pub proof fn lemma_diagonal_not_faster(step: int)
    requires
        0 <= step <= 10_000_000_000,
    ensures
        fp_mul(step, INV_SQRT2_FP as int) <= step,
        2 * fp_mul(step, INV_SQRT2_FP as int) * fp_mul(step, INV_SQRT2_FP as int) <= step * step,
        400_000 * (step * step - 2 * fp_mul(step, INV_SQRT2_FP as int) * fp_mul(
            step,
            INV_SQRT2_FP as int,
        )) <= step * step + 1_200_000 * step,
{
    let c = INV_SQRT2_FP as int;
    let s = FP_ONE as int;
    let n = step * c;
    let d = fp_mul(step, c);
    assert(0 <= n <= step * s) by (nonlinear_arith)
        requires
            0 <= step,
            0 <= c <= s,
            n == step * c,
    ;
    lemma_div_trunc_bound(n, s, step);
    vstd::arithmetic::div_mod::lemma_fundamental_div_mod(n, s);
    assert(d == n / s);
    assert(d * s <= n && n - s < d * s) by (nonlinear_arith)
        requires
            n == s * (n / s) + n % s,
            0 <= n % s < s,
            d == n / s,
    ;
    assert(0 <= d);
    assert(2 * d * d <= step * step) by (nonlinear_arith)
        requires
            d * s <= n,
            n == step * c,
            0 <= d,
            0 <= step,
            c == 707_106,
            s == 1_000_000,
    ;
    if step <= 1 {
        assert(400_000 * (step * step - 2 * d * d) <= step * step + 1_200_000 * step)
            by (nonlinear_arith)
            requires
                0 <= step <= 1,
                0 <= d,
                2 * d * d <= step * step,
        ;
    } else {
        assert(400_000 * (step * step - 2 * d * d) <= step * step + 1_200_000 * step)
            by (nonlinear_arith)
            requires
                n - s < d * s,
                n == step * c,
                0 <= d,
                2 <= step <= 10_000_000_000,
                c == 707_106,
                s == 1_000_000,
        ;
    }
}

/// Applies a signed unit intent to a nonnegative step.
fn scale_intent(intent: i64, step: i64) -> (r: i64)
    requires
        -1 <= intent <= 1,
        0 <= step <= COORD_LIMIT,
    ensures
        r as int == intent * step,
{
    if intent == 1 {
        proof {
            assert(1 * step == step) by (nonlinear_arith);
        }
        step
    } else if intent == -1 {
        proof {
            assert((-1) * step == -step) by (nonlinear_arith);
        }
        -step
    } else {
        proof {
            assert(0 * step == 0) by (nonlinear_arith);
        }
        0
    }
}

/// Intent of the orbit controller's polar axis.
pub open spec fn sphere_phi_intent(input: InputManager) -> int {
    axis_intent(input.pressed(Key::KeyW), input.pressed(Key::KeyS))
}

/// Intent of the orbit controller's azimuthal axis.
pub open spec fn sphere_theta_intent(input: InputManager) -> int {
    axis_intent(input.pressed(Key::KeyA), input.pressed(Key::KeyD))
}

/// Intent of the orbit controller's radial axis.
pub open spec fn sphere_radius_intent(input: InputManager) -> int {
    axis_intent(input.pressed(Key::KeyQ), input.pressed(Key::KeyE))
}

/// Number of orbit axes the pressed keys activate.
pub open spec fn sphere_active_axes(input: InputManager) -> int {
    active_axes(
        sphere_phi_intent(input),
        sphere_theta_intent(input),
        sphere_radius_intent(input),
    )
}

/// Drives the orbit camera from the keyboard: `W`/`S` tilt the polar
/// angle, `A`/`D` swing the azimuth, `Q`/`E` change the radial distance.
/// The movement-intent vector is normalized only when nonzero, scaled by
/// the axis speeds and the frame time, and applied through the camera's
/// clamped move. Returns whether the camera moved.
pub fn update_sphere_camera(
    input: &InputManager,
    delta_time_us: u64,
    camera: &mut SphereCamera,
) -> (moved: bool)
    requires
        input.wf(),
        old(camera).wf(),
        delta_time_us <= 1_000_000_000,
    ensures
        final(camera).wf(),
        moved == (sphere_phi_intent(*input) != 0 || sphere_theta_intent(*input) != 0
            || sphere_radius_intent(*input) != 0),
        !moved ==> *final(camera) == *old(camera),
        moved ==> final(camera).theta == clamp_spec(
            old(camera).theta + sphere_theta_intent(*input) * axis_step_fp(
                ORBIT_ANGULAR_SPEED_FP as int,
                sphere_active_axes(*input),
                delta_time_us as int,
            ),
            -THETA_LIMIT_URAD as int,
            THETA_LIMIT_URAD as int,
        ),
        moved ==> final(camera).phi == clamp_spec(
            old(camera).phi + sphere_phi_intent(*input) * axis_step_fp(
                ORBIT_ANGULAR_SPEED_FP as int,
                sphere_active_axes(*input),
                delta_time_us as int,
            ),
            PHI_MIN_URAD as int,
            PHI_MAX_URAD as int,
        ),
        moved ==> final(camera).radius_pos == clamp_spec(
            old(camera).radius_pos + sphere_radius_intent(*input) * axis_step_fp(
                ORBIT_RADIAL_SPEED_FP as int,
                sphere_active_axes(*input),
                delta_time_us as int,
            ),
            0,
            old(camera).radius as int,
        ),
        moved ==> final(camera).target == old(camera).target && final(camera).radius == old(
            camera,
        ).radius && final(camera).aspect_ratio == old(camera).aspect_ratio,
{
    let mut phi_axis: i64 = 0;
    let mut theta_axis: i64 = 0;
    let mut radius_axis: i64 = 0;
    if input.is_key_pressed(Key::KeyW) {
        phi_axis = phi_axis + 1;
    }
    if input.is_key_pressed(Key::KeyS) {
        phi_axis = phi_axis - 1;
    }
    if input.is_key_pressed(Key::KeyA) {
        theta_axis = theta_axis + 1;
    }
    if input.is_key_pressed(Key::KeyD) {
        theta_axis = theta_axis - 1;
    }
    if input.is_key_pressed(Key::KeyQ) {
        radius_axis = radius_axis + 1;
    }
    if input.is_key_pressed(Key::KeyE) {
        radius_axis = radius_axis - 1;
    }
    assert(phi_axis as int == sphere_phi_intent(*input));
    assert(theta_axis as int == sphere_theta_intent(*input));
    assert(radius_axis as int == sphere_radius_intent(*input));
    if phi_axis == 0 && theta_axis == 0 && radius_axis == 0 {
        return false;
    }
    let mut active: i64 = 0;
    if phi_axis != 0 {
        active = active + 1;
    }
    if theta_axis != 0 {
        active = active + 1;
    }
    if radius_axis != 0 {
        active = active + 1;
    }
    assert(active as int == sphere_active_axes(*input));
    let unit = if active == 1 {
        FP_ONE
    } else if active == 2 {
        INV_SQRT2_FP
    } else {
        INV_SQRT3_FP
    };
    assert(unit as int == unit_scale_fp(active as int));
    let dt = delta_time_us as i64;
    proof {
        lemma_div_trunc_bound(unit * dt, FP_ONE as int, 1_000_000_000);
    }
    let base = mul_fp(unit, dt);
    proof {
        vstd::arithmetic::div_mod::lemma_div_pos_is_pos(unit as int * dt, FP_ONE as int);
        lemma_div_trunc_bound(
            ORBIT_ANGULAR_SPEED_FP as int * base,
            FP_ONE as int,
            1_570_796_000,
        );
        lemma_div_trunc_bound(
            ORBIT_RADIAL_SPEED_FP as int * base,
            FP_ONE as int,
            500_000_000,
        );
    }
    let angle_step = mul_fp(ORBIT_ANGULAR_SPEED_FP, base);
    let radial_step = mul_fp(ORBIT_RADIAL_SPEED_FP, base);
    proof {
        vstd::arithmetic::div_mod::lemma_div_pos_is_pos(
            ORBIT_ANGULAR_SPEED_FP as int * base,
            FP_ONE as int,
        );
        vstd::arithmetic::div_mod::lemma_div_pos_is_pos(
            ORBIT_RADIAL_SPEED_FP as int * base,
            FP_ONE as int,
        );
    }
    let theta_delta = scale_intent(theta_axis, angle_step);
    let phi_delta = scale_intent(phi_axis, angle_step);
    let radius_delta = scale_intent(radius_axis, radial_step);
    camera.move_camera(theta_delta, phi_delta, radius_delta);
    true
}

/// A keyboard controller for the orthographic camera, moving it in the
/// view plane at a fixed speed.
#[derive(Clone, Copy, Debug)]
pub struct OrthographicCameraController {
    pub speed: i64,
}

/// Intent of the orthographic controller's horizontal axis.
pub open spec fn ortho_x_intent(input: InputManager) -> int {
    axis_intent(input.pressed(Key::KeyD), input.pressed(Key::KeyA))
}

/// Intent of the orthographic controller's vertical axis.
pub open spec fn ortho_y_intent(input: InputManager) -> int {
    axis_intent(input.pressed(Key::KeyW), input.pressed(Key::KeyS))
}

/// Number of planar axes the pressed keys activate.
pub open spec fn ortho_active_axes(input: InputManager) -> int {
    active_axes(ortho_x_intent(input), ortho_y_intent(input), 0)
}

impl OrthographicCameraController {
    /// The speed is nonnegative and small enough that one frame's step
    /// stays within the coordinate range.
    pub open spec fn wf(self) -> bool {
        0 <= self.speed <= 1_000_000_000
    }

    /// A controller moving the camera `speed` ticks per second.
    pub fn new(speed: i64) -> (controller: OrthographicCameraController)
        requires
            0 <= speed <= 1_000_000_000,
        ensures
            controller.wf(),
            controller.speed == speed,
    {
        OrthographicCameraController { speed }
    }

    /// Drives the orthographic camera from the keyboard: `A`/`D` move
    /// horizontally, `W`/`S` vertically. Pressing two orthogonal keys at
    /// once applies the `1 / sqrt(2)`-normalized step to each axis, so a
    /// diagonal move is no faster than a single-axis move. Returns
    /// whether the camera moved.
    pub fn update_camera(
        &self,
        input: &InputManager,
        delta_time_us: u64,
        camera: &mut OrthographicCamera,
    ) -> (moved: bool)
        requires
            self.wf(),
            input.wf(),
            old(camera).wf(),
            delta_time_us <= 1_000_000_000,
        ensures
            final(camera).wf(),
            moved == (ortho_x_intent(*input) != 0 || ortho_y_intent(*input) != 0),
            !moved ==> *final(camera) == *old(camera),
            moved ==> final(camera).pos.x == clamp_spec(
                old(camera).pos.x + ortho_x_intent(*input) * axis_step_fp(
                    self.speed as int,
                    ortho_active_axes(*input),
                    delta_time_us as int,
                ),
                -COORD_LIMIT as int,
                COORD_LIMIT as int,
            ),
            moved ==> final(camera).pos.y == clamp_spec(
                old(camera).pos.y + ortho_y_intent(*input) * axis_step_fp(
                    self.speed as int,
                    ortho_active_axes(*input),
                    delta_time_us as int,
                ),
                -COORD_LIMIT as int,
                COORD_LIMIT as int,
            ),
            moved ==> final(camera).pos.z == old(camera).pos.z,
            final(camera).left == old(camera).left,
            final(camera).right == old(camera).right,
            final(camera).bottom == old(camera).bottom,
            final(camera).top == old(camera).top,
            final(camera).z_near == old(camera).z_near,
            final(camera).z_far == old(camera).z_far,
    {
        let mut x_axis: i64 = 0;
        let mut y_axis: i64 = 0;
        if input.is_key_pressed(Key::KeyD) {
            x_axis = x_axis + 1;
        }
        if input.is_key_pressed(Key::KeyA) {
            x_axis = x_axis - 1;
        }
        if input.is_key_pressed(Key::KeyW) {
            y_axis = y_axis + 1;
        }
        if input.is_key_pressed(Key::KeyS) {
            y_axis = y_axis - 1;
        }
        assert(x_axis as int == ortho_x_intent(*input));
        assert(y_axis as int == ortho_y_intent(*input));
        if x_axis == 0 && y_axis == 0 {
            return false;
        }
        let mut active: i64 = 0;
        if x_axis != 0 {
            active = active + 1;
        }
        if y_axis != 0 {
            active = active + 1;
        }
        assert(active as int == ortho_active_axes(*input));
        let unit = if active == 1 {
            FP_ONE
        } else {
            INV_SQRT2_FP
        };
        assert(unit as int == unit_scale_fp(active as int));
        let dt = delta_time_us as i64;
        proof {
            lemma_div_trunc_bound(unit * dt, FP_ONE as int, 1_000_000_000);
        }
        let base = mul_fp(unit, dt);
        proof {
            vstd::arithmetic::div_mod::lemma_div_pos_is_pos(unit as int * dt, FP_ONE as int);
            assert(0 <= self.speed as int * base <= 1_000_000_000_000_000_000)
                by (nonlinear_arith)
                requires
                    0 <= self.speed <= 1_000_000_000,
                    0 <= base <= 1_000_000_000,
            ;
            lemma_div_trunc_bound(
                self.speed as int * base,
                FP_ONE as int,
                1_000_000_000_000,
            );
            vstd::arithmetic::div_mod::lemma_div_pos_is_pos(
                self.speed as int * base,
                FP_ONE as int,
            );
        }
        let step = mul_fp(self.speed, base);
        let translation = Vec3Fp { x: scale_intent(x_axis, step), y: scale_intent(y_axis, step), z: 0 };
        camera.move_camera_pos(translation);
        true
    }
}

/// The closed set of camera variants the engine renders with, each able
/// to yield the data a view-projection uniform is built from.
#[derive(Clone, Copy, Debug)]
pub enum Camera {
    Orthographic(OrthographicCamera),
    Sphere(SphereCamera),
}

/// What a camera resolves to for the uniform upload: the orthographic
/// variant yields its exact fixed-point matrix; the orbit variant yields
/// its clamped spherical parameters, whose trigonometric eye resolution
/// is floating-point work done by the GPU layer.
#[derive(Clone, Debug)]
pub enum ViewProjection {
    Matrix(Mat4Fp),
    Spherical(SphereCamera),
}

impl Camera {
    /// Both variants keep their invariants.
    pub open spec fn wf(self) -> bool {
        match self {
            Camera::Orthographic(c) => c.wf(),
            Camera::Sphere(c) => c.wf(),
        }
    }

    /// Resolves the camera to the data its uniform is built from.
    pub fn compute_view_projection(&self) -> (vp: ViewProjection)
        requires
            self.wf(),
        ensures
            match (self, vp) {
                (Camera::Orthographic(c), ViewProjection::Matrix(m)) => {
                    &&& m.wf()
                    &&& m.entry(0, 0) == c.sx()
                    &&& m.entry(1, 1) == c.sy()
                    &&& m.entry(2, 2) == fp_mul(HALF_FP as int, c.sz())
                    &&& m.entry(3, 3) == FP_ONE
                    &&& m.entry(0, 3) == fp_mul(c.sx(), -c.pos.x) + c.tx()
                    &&& m.entry(1, 3) == fp_mul(c.sy(), -c.pos.y) + c.ty()
                    &&& m.entry(2, 3) == fp_mul(
                        HALF_FP as int,
                        fp_mul(c.sz(), -c.pos.z) + c.tz(),
                    ) + HALF_FP
                },
                (Camera::Sphere(c), ViewProjection::Spherical(s)) => s == c,
                _ => false,
            },
    {
        match self {
            Camera::Orthographic(c) => ViewProjection::Matrix(c.view_projection()),
            Camera::Sphere(c) => ViewProjection::Spherical(c.clone()),
        }
    }
}

/// The fixed-point product of two column-major 4-by-4 matrices: each
/// entry is the sum of four fixed-point products, each truncated as
/// [`fp_mul`] truncates.
pub open spec fn mat4_mul_fp(a: Seq<int>, b: Seq<int>) -> Seq<int>
    recommends
        a.len() == 16,
        b.len() == 16,
{
    Seq::new(
        16,
        |k: int|
            {
                let col = k / 4;
                let row = k % 4;
                fp_mul(a[row], b[col * 4]) + fp_mul(a[4 + row], b[col * 4 + 1]) + fp_mul(
                    a[8 + row],
                    b[col * 4 + 2],
                ) + fp_mul(a[12 + row], b[col * 4 + 3])
            },
    )
}

/// The depth-range conversion for a `[0, 1]` clip-space API: identity on
/// x and y, and `z' = z / 2 + w / 2`.
pub open spec fn depth_conversion_fp() -> Seq<int> {
    seq![
        FP_ONE as int, 0, 0, 0,
        0, FP_ONE as int, 0, 0,
        0, 0, HALF_FP as int, 0,
        0, 0, HALF_FP as int, FP_ONE as int,
    ]
}

/// The orthographic projection matrix of a camera's view box.
pub open spec fn ortho_projection_fp(camera: OrthographicCamera) -> Seq<int> {
    seq![
        camera.sx(), 0, 0, 0,
        0, camera.sy(), 0, 0,
        0, 0, camera.sz(), 0,
        camera.tx(), camera.ty(), camera.tz(), FP_ONE as int,
    ]
}

/// The view matrix of a camera at `pos`: the inverse of its translation.
pub open spec fn view_translation_fp(pos: Vec3Fp) -> Seq<int> {
    seq![
        FP_ONE as int, 0, 0, 0,
        0, FP_ONE as int, 0, 0,
        0, 0, FP_ONE as int, 0,
        -pos.x as int, -pos.y as int, -pos.z as int, FP_ONE as int,
    ]
}

/// The sixteen entries of the orthographic view-projection matrix, as
/// [`OrthographicCamera::view_projection`] computes them.
pub open spec fn view_projection_spec(camera: OrthographicCamera) -> Seq<int> {
    seq![
        camera.sx(), 0, 0, 0,
        0, camera.sy(), 0, 0,
        0, 0, fp_mul(HALF_FP as int, camera.sz()), 0,
        fp_mul(camera.sx(), -camera.pos.x) + camera.tx(),
        fp_mul(camera.sy(), -camera.pos.y) + camera.ty(),
        fp_mul(HALF_FP as int, fp_mul(camera.sz(), -camera.pos.z) + camera.tz()) + HALF_FP,
        FP_ONE as int,
    ]
}

/// The view-projection matrix is exactly the depth-range conversion
/// multiplied once, on the left, onto the projection times the view
/// translation — entry for entry, truncation included.
pub proof fn lemma_depth_conversion_applied_once(camera: OrthographicCamera)
    ensures
        view_projection_spec(camera) == mat4_mul_fp(
            depth_conversion_fp(),
            mat4_mul_fp(ortho_projection_fp(camera), view_translation_fp(camera.pos)),
        ),
{
    assert forall|a: int| #[trigger] fp_mul(a, 0) == 0 by {
        lemma_fp_mul_zero(a);
    }
    assert forall|a: int| #[trigger] fp_mul(0, a) == 0 by {
        lemma_fp_mul_zero(a);
    }
    assert forall|a: int| #[trigger] fp_mul(a, FP_ONE as int) == a by {
        lemma_fp_mul_one(a);
    }
    assert forall|a: int| #[trigger] fp_mul(FP_ONE as int, a) == a by {
        lemma_fp_mul_one(a);
    }
    let p = ortho_projection_fp(camera);
    let v = view_translation_fp(camera.pos);
    let c = depth_conversion_fp();
    let pv = mat4_mul_fp(p, v);
    assert(pv[0] == camera.sx());
    assert(pv[1] == 0);
    assert(pv[2] == 0);
    assert(pv[3] == 0);
    assert(pv[4] == 0);
    assert(pv[5] == camera.sy());
    assert(pv[6] == 0);
    assert(pv[7] == 0);
    assert(pv[8] == 0);
    assert(pv[9] == 0);
    assert(pv[10] == camera.sz());
    assert(pv[11] == 0);
    assert(pv[12] == fp_mul(camera.sx(), -camera.pos.x) + camera.tx());
    assert(pv[13] == fp_mul(camera.sy(), -camera.pos.y) + camera.ty());
    assert(pv[14] == fp_mul(camera.sz(), -camera.pos.z) + camera.tz());
    assert(pv[15] == FP_ONE as int);
    let m = mat4_mul_fp(c, pv);
    assert(m[0] == camera.sx());
    assert(m[1] == 0);
    assert(m[2] == 0);
    assert(m[3] == 0);
    assert(m[4] == 0);
    assert(m[5] == camera.sy());
    assert(m[6] == 0);
    assert(m[7] == 0);
    assert(m[8] == 0);
    assert(m[9] == 0);
    assert(m[10] == fp_mul(HALF_FP as int, camera.sz()));
    assert(m[11] == 0);
    assert(m[12] == fp_mul(camera.sx(), -camera.pos.x) + camera.tx());
    assert(m[13] == fp_mul(camera.sy(), -camera.pos.y) + camera.ty());
    assert(m[14] == fp_mul(HALF_FP as int, fp_mul(camera.sz(), -camera.pos.z) + camera.tz()) + HALF_FP);
    assert(m[15] == FP_ONE as int);
    assert(view_projection_spec(camera) =~= m);
}

} // verus!
