//! The fly camera: an eye and a look-at target moved by four directional
//! keys, with pointer-driven orientation smoothing.

use vstd::prelude::*;
use crate::camera::{OrientationFilter, RAW_DELTA_LIMIT};
use crate::fixed::{SCALE, fmul, sqrt_of, mul_fp, lemma_abs_mul_bound, lemma_tdiv_quotient_bound};
use crate::trig::TAU_FP;
use crate::vec3::{Vec3, v_add, v_sub, v_scaled, v_cross, COORD_LIMIT};

verus! {

/// Largest coordinate a camera may sit at: half a million units.
pub const CAMERA_LIMIT: i64 = 500_000_000_000;

/// Largest speed, in units per second, a controller accepts.
pub const CAMERA_SPEED_LIMIT: i64 = 1_000_000_000;

/// The physical keys the fly camera reads.
#[derive(Debug, Clone, Copy, PartialEq, Eq, Structural)]
pub enum KeyCode {
    KeyW,
    KeyA,
    KeyS,
    KeyD,
    ArrowUp,
    ArrowDown,
    ArrowLeft,
    ArrowRight,
    Space,
    Other,
}

/// The view itself: where the eye sits, what it looks at, which way is up,
/// and the projection parameters the renderer consumes.
#[derive(Debug, Clone, Copy, PartialEq, Eq, Structural)]
pub struct Camera {
    pub eye: Vec3,
    pub target: Vec3,
    pub up: Vec3,
    pub aspect: i64,
    pub fovy: i64,
    pub znear: i64,
    pub zfar: i64,
}

impl Camera {
    /// Machine-limit sanity: everything in range, the up vector of unit
    /// size, and the eye strictly away from the target.
    pub open spec fn wf(self) -> bool {
        &&& self.eye.bounded(CAMERA_LIMIT as int)
        &&& self.target.bounded(CAMERA_LIMIT as int)
        &&& self.up.bounded(2 * SCALE as int)
        &&& self.eye != self.target
    }

    pub fn new(
        eye: Vec3,
        target: Vec3,
        up: Vec3,
        aspect: i64,
        fovy: i64,
        znear: i64,
        zfar: i64,
    ) -> (r: Camera)
        ensures
            r == (Camera { eye, target, up, aspect, fovy, znear, zfar }),
    {
        Camera { eye, target, up, aspect, fovy, znear, zfar }
    }

    pub fn eye(&self) -> (r: Vec3)
        ensures
            r == self.eye,
    {
        self.eye
    }

    pub fn target(&self) -> (r: Vec3)
        ensures
            r == self.target,
    {
        self.target
    }
}

/// What one `update_camera` call does to the eye, step by step: forward and
/// backward run along the line of sight, and strafing swings the eye around
/// the target at its present distance.  All intermediate vectors are read
/// from the camera as the call found it.
pub open spec fn eye_after(c: CameraController, cam: Camera, dt: int) -> Vec3
    recommends
        v_sub(cam.target, cam.eye).norm2() > 0,
{
    let forward = v_sub(cam.target, cam.eye);
    let forward_norm = forward.normalized();
    let forward_mag = sqrt_of(forward.norm2());
    let speed = fmul(c.speed as int, dt);
    let e1 = if c.is_forward_pressed && forward_mag > speed {
        v_add(cam.eye, v_scaled(forward_norm, speed))
    } else {
        cam.eye
    };
    let e2 = if c.is_backward_pressed {
        v_sub(e1, v_scaled(forward_norm, speed))
    } else {
        e1
    };
    let right = v_cross(forward_norm, cam.up);
    let wr = v_add(forward, v_scaled(right, speed));
    let e3 = if c.is_right_pressed && wr.norm2() > 0 {
        v_sub(cam.target, v_scaled(wr.normalized(), forward_mag))
    } else {
        e2
    };
    let wl = v_sub(forward, v_scaled(right, speed));
    let e4 = if c.is_left_pressed && wl.norm2() > 0 {
        v_sub(cam.target, v_scaled(wl.normalized(), forward_mag))
    } else {
        e3
    };
    e4
}

/// Directional key state and speed for one camera, with its own
/// orientation filter.
#[derive(Debug, Clone, Copy, PartialEq, Eq, Structural)]
pub struct CameraController {
    pub speed: i64,
    pub is_forward_pressed: bool,
    pub is_backward_pressed: bool,
    pub is_left_pressed: bool,
    pub is_right_pressed: bool,
    pub orientation: OrientationFilter,
}

impl CameraController {
    /// Machine-limit sanity of the controller itself.
    pub open spec fn wf(self) -> bool {
        &&& 0 <= self.speed <= CAMERA_SPEED_LIMIT
        &&& self.orientation.wf()
    }

    /// A fresh controller: no key held, level look straight ahead, neutral
    /// pointer sensitivity and an even smoothing blend.
    pub fn new(camera_speed: i64) -> (r: CameraController)
        requires
            0 <= camera_speed <= CAMERA_SPEED_LIMIT,
        ensures
            r.speed == camera_speed,
            !r.is_forward_pressed,
            !r.is_backward_pressed,
            !r.is_left_pressed,
            !r.is_right_pressed,
            r.orientation.yaw.value == 0,
            r.orientation.pitch.value == 0,
            r.wf(),
    {
        CameraController {
            speed: camera_speed,
            is_backward_pressed: false,
            is_forward_pressed: false,
            is_left_pressed: false,
            is_right_pressed: false,
            orientation: OrientationFilter::new(0, 0, SCALE, SCALE / 2),
        }
    }

    /// Records one key press or release.  The two keys of each direction
    /// both steer it; any other key is reported unhandled and changes
    /// nothing.
    pub fn handle_key(&mut self, key_code: KeyCode, is_pressed: bool) -> (handled: bool)
        ensures
            key_code == KeyCode::KeyW || key_code == KeyCode::ArrowUp ==> *final(self) == (
            CameraController { is_forward_pressed: is_pressed, ..*old(self) }) && handled,
            key_code == KeyCode::KeyA || key_code == KeyCode::ArrowLeft ==> *final(self) == (
            CameraController { is_left_pressed: is_pressed, ..*old(self) }) && handled,
            key_code == KeyCode::KeyS || key_code == KeyCode::ArrowDown ==> *final(self) == (
            CameraController { is_backward_pressed: is_pressed, ..*old(self) }) && handled,
            key_code == KeyCode::KeyD || key_code == KeyCode::ArrowRight ==> *final(self) == (
            CameraController { is_right_pressed: is_pressed, ..*old(self) }) && handled,
            !(key_code == KeyCode::KeyW || key_code == KeyCode::ArrowUp || key_code == KeyCode::KeyA
                || key_code == KeyCode::ArrowLeft || key_code == KeyCode::KeyS || key_code
                == KeyCode::ArrowDown || key_code == KeyCode::KeyD || key_code
                == KeyCode::ArrowRight) ==> *final(self) == *old(self) && !handled,
    {
        match key_code {
            KeyCode::KeyW | KeyCode::ArrowUp => {
                self.is_forward_pressed = is_pressed;
                true
            },
            KeyCode::KeyA | KeyCode::ArrowLeft => {
                self.is_left_pressed = is_pressed;
                true
            },
            KeyCode::KeyS | KeyCode::ArrowDown => {
                self.is_backward_pressed = is_pressed;
                true
            },
            KeyCode::KeyD | KeyCode::ArrowRight => {
                self.is_right_pressed = is_pressed;
                true
            },
            _ => false,
        }
    }

    /// Applies one frame of pointer movement to the orientation filter,
    /// gated on the primary button and the pointer being over the
    /// viewport.
    pub fn rotate(&mut self, dx: i64, dy: i64, is_primary_button_down: bool, pointer_in_window: bool)
        requires
            old(self).wf(),
            old(self).orientation.yaw.value >= i64::MIN + TAU_FP + RAW_DELTA_LIMIT,
            -1_000_000_000 <= dx <= 1_000_000_000,
            -1_000_000_000 <= dy <= 1_000_000_000,
        ensures
            final(self).wf(),
            is_primary_button_down && pointer_in_window ==> *final(self) == (CameraController {
                orientation: old(self).orientation.rotated(dx as int, dy as int),
                ..*old(self)
            }),
            !(is_primary_button_down && pointer_in_window) ==> *final(self) == *old(self),
    {
        self.orientation.rotate(dx, dy, is_primary_button_down, pointer_in_window);
    }

    /// The unit vector the camera looks along, as the orientation filter
    /// has smoothed it.
    pub fn direction(&self) -> (r: Vec3)
        requires
            self.wf(),
            self.orientation.yaw.value > i64::MIN,
        ensures
            r == crate::trajectory::direction_of(
                self.orientation.yaw.value as int,
                self.orientation.pitch.value as int,
            ),
            r.bounded(SCALE as int),
    {
        self.orientation.direction()
    }

    /// Moves the camera's eye one frame along the held directions: forward
    /// only while the target is farther than one step away, backward
    /// freely, and sideways around the target without changing the
    /// distance to it.  The camera's projection fields are untouched.
    pub fn update_camera(&mut self, camera: &mut Camera, delta_time: i64)
        requires
            old(self).wf(),
            old(camera).wf(),
            0 <= delta_time <= 100_000_000,
        ensures
            *final(self) == *old(self),
            final(camera).eye == eye_after(*old(self), *old(camera), delta_time as int),
            final(camera).target == old(camera).target,
            final(camera).up == old(camera).up,
            final(camera).aspect == old(camera).aspect,
            final(camera).fovy == old(camera).fovy,
            final(camera).znear == old(camera).znear,
            final(camera).zfar == old(camera).zfar,
    {
        proof {
            lemma_update_bounds(*old(self), *old(camera), delta_time as int);
        }
        let forward = camera.target.sub(camera.eye);
        proof {
            lemma_nonzero_diff(camera.target, camera.eye);
        }
        let forward_norm = forward.normalize();
        let forward_mag = forward.length();
        proof {
            lemma_mag_bound(forward);
        }
        let speed = mul_fp(self.speed, delta_time);
        proof {
            lemma_scale_unit_bounds(forward_norm, speed as int);
        }
        let step = forward_norm.scaled(speed);
        if self.is_forward_pressed && forward_mag > speed {
            camera.eye = camera.eye.add(step);
        }
        if self.is_backward_pressed {
            camera.eye = camera.eye.sub(step);
        }
        let right = forward_norm.cross(camera.up);
        proof {
            lemma_cross_unit_bound(forward_norm, camera.up);
            lemma_scale_right_bounds(v_cross(forward_norm, old(camera).up), speed as int);
        }
        let swing = right.scaled(speed);
        if self.is_right_pressed {
            let w = forward.add(swing);
            if w.norm2_wide() > 0 {
                let n = w.normalize();
                proof {
                    lemma_scale_unit_mag_bounds(n, forward_mag as int);
                }
                camera.eye = camera.target.sub(n.scaled(forward_mag));
            }
        }
        if self.is_left_pressed {
            let w = forward.sub(swing);
            if w.norm2_wide() > 0 {
                let n = w.normalize();
                proof {
                    lemma_scale_unit_mag_bounds(n, forward_mag as int);
                }
                camera.eye = camera.target.sub(n.scaled(forward_mag));
            }
        }
    }
}

/// The length of a forward vector between two in-range points is itself in
/// range.
proof fn lemma_mag_bound(v: Vec3)
    requires
        v.bounded(2 * CAMERA_LIMIT as int),
    ensures
        0 <= sqrt_of(v.norm2()) <= 2_000_000_000_000,
{
    let cl = 2 * CAMERA_LIMIT as int;
    lemma_abs_mul_bound(v.x as int, v.x as int, cl, cl);
    lemma_abs_mul_bound(v.y as int, v.y as int, cl, cl);
    lemma_abs_mul_bound(v.z as int, v.z as int, cl, cl);
    crate::fixed::lemma_square_nonneg(v.x as int);
    crate::fixed::lemma_square_nonneg(v.y as int);
    crate::fixed::lemma_square_nonneg(v.z as int);
    crate::fixed::lemma_sqrt_char(v.norm2());
    let m = sqrt_of(v.norm2());
    if m > 2_000_000_000_000 {
        assert(m * m > 3_000_000_000_000_000_000_000_000) by (nonlinear_arith)
            requires
                m >= 2_000_000_000_001,
        ;
    }
}

/// A unit vector scaled by an in-range speed stays in range.
proof fn lemma_scale_unit_bounds(n: Vec3, speed: int)
    requires
        n.bounded(SCALE as int),
        0 <= speed <= 100_000_000_000,
    ensures
        -0x7fff_ffff_ffff_ffff <= n.x * speed <= 0x7fff_ffff_ffff_ffff,
        -0x7fff_ffff_ffff_ffff <= n.y * speed <= 0x7fff_ffff_ffff_ffff,
        -0x7fff_ffff_ffff_ffff <= n.z * speed <= 0x7fff_ffff_ffff_ffff,
        -100_000_000_000 <= fmul(n.x as int, speed) <= 100_000_000_000,
        -100_000_000_000 <= fmul(n.y as int, speed) <= 100_000_000_000,
        -100_000_000_000 <= fmul(n.z as int, speed) <= 100_000_000_000,
{
    lemma_abs_mul_bound(n.x as int, speed, SCALE as int, 100_000_000_000);
    lemma_abs_mul_bound(n.y as int, speed, SCALE as int, 100_000_000_000);
    lemma_abs_mul_bound(n.z as int, speed, SCALE as int, 100_000_000_000);
    lemma_tdiv_quotient_bound(n.x * speed, SCALE as int, 100_000_000_000);
    lemma_tdiv_quotient_bound(n.y * speed, SCALE as int, 100_000_000_000);
    lemma_tdiv_quotient_bound(n.z * speed, SCALE as int, 100_000_000_000);
}

/// The cross product of a unit direction with a unit-sized up vector stays
/// within a few units.
proof fn lemma_cross_unit_bound(a: Vec3, b: Vec3)
    requires
        a.bounded(SCALE as int),
        b.bounded(2 * SCALE as int),
    ensures
        v_cross(a, b).bounded(4_000_000),
{
    let sc = SCALE as int;
    lemma_abs_mul_bound(a.y as int, b.z as int, sc, 2 * sc);
    lemma_abs_mul_bound(a.z as int, b.y as int, sc, 2 * sc);
    lemma_abs_mul_bound(a.z as int, b.x as int, sc, 2 * sc);
    lemma_abs_mul_bound(a.x as int, b.z as int, sc, 2 * sc);
    lemma_abs_mul_bound(a.x as int, b.y as int, sc, 2 * sc);
    lemma_abs_mul_bound(a.y as int, b.x as int, sc, 2 * sc);
    lemma_tdiv_quotient_bound(a.y * b.z, sc, 2_000_000);
    lemma_tdiv_quotient_bound(a.z * b.y, sc, 2_000_000);
    lemma_tdiv_quotient_bound(a.z * b.x, sc, 2_000_000);
    lemma_tdiv_quotient_bound(a.x * b.z, sc, 2_000_000);
    lemma_tdiv_quotient_bound(a.x * b.y, sc, 2_000_000);
    lemma_tdiv_quotient_bound(a.y * b.x, sc, 2_000_000);
}

/// The sideways swing vector scaled by the speed stays in range.
proof fn lemma_scale_right_bounds(r: Vec3, speed: int)
    requires
        r.bounded(4_000_000),
        0 <= speed <= 100_000_000_000,
    ensures
        -0x7fff_ffff_ffff_ffff <= r.x * speed <= 0x7fff_ffff_ffff_ffff,
        -0x7fff_ffff_ffff_ffff <= r.y * speed <= 0x7fff_ffff_ffff_ffff,
        -0x7fff_ffff_ffff_ffff <= r.z * speed <= 0x7fff_ffff_ffff_ffff,
        -400_000_000_000 <= fmul(r.x as int, speed) <= 400_000_000_000,
        -400_000_000_000 <= fmul(r.y as int, speed) <= 400_000_000_000,
        -400_000_000_000 <= fmul(r.z as int, speed) <= 400_000_000_000,
{
    lemma_abs_mul_bound(r.x as int, speed, 4_000_000, 100_000_000_000);
    lemma_abs_mul_bound(r.y as int, speed, 4_000_000, 100_000_000_000);
    lemma_abs_mul_bound(r.z as int, speed, 4_000_000, 100_000_000_000);
    lemma_tdiv_quotient_bound(r.x * speed, SCALE as int, 400_000_000_000);
    lemma_tdiv_quotient_bound(r.y * speed, SCALE as int, 400_000_000_000);
    lemma_tdiv_quotient_bound(r.z * speed, SCALE as int, 400_000_000_000);
}

/// A unit vector scaled by a forward magnitude stays in range.
proof fn lemma_scale_unit_mag_bounds(n: Vec3, mag: int)
    requires
        n.bounded(SCALE as int),
        0 <= mag <= 2_000_000_000_000,
    ensures
        -0x7fff_ffff_ffff_ffff <= n.x * mag <= 0x7fff_ffff_ffff_ffff,
        -0x7fff_ffff_ffff_ffff <= n.y * mag <= 0x7fff_ffff_ffff_ffff,
        -0x7fff_ffff_ffff_ffff <= n.z * mag <= 0x7fff_ffff_ffff_ffff,
        -2_000_000_000_000 <= fmul(n.x as int, mag) <= 2_000_000_000_000,
        -2_000_000_000_000 <= fmul(n.y as int, mag) <= 2_000_000_000_000,
        -2_000_000_000_000 <= fmul(n.z as int, mag) <= 2_000_000_000_000,
{
    lemma_abs_mul_bound(n.x as int, mag, SCALE as int, 2_000_000_000_000);
    lemma_abs_mul_bound(n.y as int, mag, SCALE as int, 2_000_000_000_000);
    lemma_abs_mul_bound(n.z as int, mag, SCALE as int, 2_000_000_000_000);
    lemma_tdiv_quotient_bound(n.x * mag, SCALE as int, 2_000_000_000_000);
    lemma_tdiv_quotient_bound(n.y * mag, SCALE as int, 2_000_000_000_000);
    lemma_tdiv_quotient_bound(n.z * mag, SCALE as int, 2_000_000_000_000);
}

/// Two different points leave a nonzero difference vector.
proof fn lemma_nonzero_diff(a: Vec3, b: Vec3)
    requires
        a != b,
        a.bounded(CAMERA_LIMIT as int),
        b.bounded(CAMERA_LIMIT as int),
    ensures
        v_sub(a, b).norm2() > 0,
{
    let d = v_sub(a, b);
    crate::fixed::lemma_square_nonneg(d.x as int);
    crate::fixed::lemma_square_nonneg(d.y as int);
    crate::fixed::lemma_square_nonneg(d.z as int);
    if d.x != 0 {
        assert(d.x * d.x >= 1) by (nonlinear_arith)
            requires
                d.x != 0,
        ;
    } else if d.y != 0 {
        assert(d.y * d.y >= 1) by (nonlinear_arith)
            requires
                d.y != 0,
        ;
    } else {
        assert(d.z != 0);
        assert(d.z * d.z >= 1) by (nonlinear_arith)
            requires
                d.z != 0,
        ;
    }
}

/// All the intermediate quantities of one `update_camera` call stay within
/// the vector operations' accepted ranges.
proof fn lemma_update_bounds(c: CameraController, cam: Camera, dt: int)
    requires
        c.wf(),
        cam.wf(),
        0 <= dt <= 100_000_000,
    ensures
        -0x7fff_ffff_ffff_ffff <= c.speed * dt <= 0x7fff_ffff_ffff_ffff,
        0 <= fmul(c.speed as int, dt) <= 100_000_000_000,
{
    lemma_abs_mul_bound(c.speed as int, dt, CAMERA_SPEED_LIMIT as int, 100_000_000);
    lemma_tdiv_quotient_bound(c.speed * dt, SCALE as int, 100_000_000_000);
    vstd::arithmetic::div_mod::lemma_div_pos_is_pos(c.speed * dt, SCALE as int);
}

} // verus!
