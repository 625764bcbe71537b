//! An orbiting camera and the change of basis from camera to world space.
use vstd::prelude::*;
use crate::fixed::{add_spec, clamp_spec, fx_add, fx_clamp, fx_mul, in_range, mul_spec, ONE};
use crate::trig::{atan2_fx, atan2_spec, cos_fx, cos_spec, sin_fx, sin_spec, turn, wrap_angle};
use crate::vec3::{mk, vadd, vcross, vlength, vneg, vnormalize, vscale, vsub, Vec3};

verus! {

pub const MIN_RADIUS: i64 = 2_000_000;
pub const MAX_RADIUS: i64 = 50_000_000;
pub const MIN_HEIGHT: i64 = 500_000;
pub const MAX_HEIGHT: i64 = 30_000_000;

/// A camera that circles `center` at `orbit_radius`, at angle
/// `orbit_angle` (raw radians) and at height `orbit_height`; `eye` is
/// derived from these three.
#[derive(Clone, Copy, Debug, PartialEq, Eq, Structural)]
pub struct Camera {
    pub eye: Vec3,
    pub center: Vec3,
    pub up: Vec3,
    pub fov: i64,
    pub aspect: i64,
    pub near: i64,
    pub far: i64,
    pub orbit_radius: i64,
    pub orbit_angle: i64,
    pub orbit_height: i64,
}

/// The eye on the orbit: `center + radius (sin a, 0, cos a)`, at height `h`;
/// the angle is reduced into `[0, TWO_PI)` before its sine and cosine are
/// taken.
pub open spec fn eye_of(center: Vec3, radius: int, angle: int, height: int) -> Vec3 {
    let a = wrap_angle(angle);
    mk(
        add_spec(center.x as int, mul_spec(radius, sin_spec(a))),
        height,
        add_spec(center.z as int, mul_spec(radius, cos_spec(a))),
    )
}

pub open spec fn clamp_radius(r: int) -> int {
    clamp_spec(r, MIN_RADIUS as int, MAX_RADIUS as int)
}

pub open spec fn clamp_height(h: int) -> int {
    clamp_spec(h, MIN_HEIGHT as int, MAX_HEIGHT as int)
}

/// `c` with the given orbit state and its eye placed there.
pub open spec fn with_orbit(c: Camera, radius: int, angle: int, height: int) -> Camera {
    Camera {
        eye: eye_of(c.center, radius, angle, height),
        orbit_radius: radius as i64,
        orbit_angle: angle as i64,
        orbit_height: height as i64,
        ..c
    }
}

/// The orbit state is within its bounds and the eye sits where it says.
pub open spec fn camera_wf(c: Camera) -> bool {
    &&& MIN_RADIUS <= c.orbit_radius <= MAX_RADIUS
    &&& MIN_HEIGHT <= c.orbit_height <= MAX_HEIGHT
    &&& in_range(c.orbit_angle as int)
    &&& c.eye == eye_of(c.center, c.orbit_radius as int, c.orbit_angle as int, c.orbit_height as int)
}

pub open spec fn orbit_spec(c: Camera, delta: int) -> Camera {
    with_orbit(c, c.orbit_radius as int, add_spec(c.orbit_angle as int, delta), c.orbit_height as int)
}

pub open spec fn zoom_spec(c: Camera, delta: int) -> Camera {
    with_orbit(c, clamp_radius(add_spec(c.orbit_radius as int, delta)), c.orbit_angle as int, c.orbit_height as int)
}

pub open spec fn height_spec(c: Camera, delta: int) -> Camera {
    with_orbit(c, c.orbit_radius as int, c.orbit_angle as int, clamp_height(add_spec(c.orbit_height as int, delta)))
}

/// Camera-space `v` in world space: `right v.x + up v.y - forward v.z`, the
/// basis taken from the current eye and centre.
pub open spec fn basis_spec(c: Camera, v: Vec3) -> Vec3 {
    let forward = vnormalize(vsub(c.center, c.eye));
    let right = vnormalize(vcross(forward, c.up));
    let up = vnormalize(vcross(right, forward));
    vadd(vadd(vscale(right, v.x as int), vscale(up, v.y as int)), vscale(vneg(forward), v.z as int))
}

fn place_eye(center: &Vec3, radius: i64, angle: i64, height: i64) -> (e: Vec3)
    ensures
        e == eye_of(*center, radius as int, angle as int, height as int),
{
    let a = turn(angle, 0);
    let s = sin_fx(a);
    let c = cos_fx(a);
    Vec3::new(fx_add(center.x, fx_mul(radius, s)), height, fx_add(center.z, fx_mul(radius, c)))
}

impl Camera {
    /// A camera at `eye` looking at `center`. The orbit state is read from
    /// the eye (its distance from the centre, its angle about the vertical
    /// axis, its height), kept within bounds, and the eye put back on it.
    pub fn new(eye: Vec3, center: Vec3, up: Vec3, fov: i64, aspect: i64) -> (c: Camera)
        ensures
            camera_wf(c),
            c.center == center,
            c.up == up,
            c.fov == fov,
            c.aspect == aspect,
            c.near == ONE / 10,
            c.far == 1000 * ONE,
            c.orbit_radius == clamp_radius(vlength(vsub(eye, center))),
            c.orbit_height == clamp_height(eye.y as int),
            c.orbit_angle == atan2_spec(
                crate::fixed::sub_spec(eye.x as int, center.x as int),
                crate::fixed::sub_spec(eye.z as int, center.z as int),
            ),
    {
        let offset = eye.sub(&center);
        let radius = fx_clamp(offset.length(), MIN_RADIUS, MAX_RADIUS);
        let angle = atan2_fx(offset.x, offset.z);
        let height = fx_clamp(eye.y, MIN_HEIGHT, MAX_HEIGHT);
        Camera {
            eye: place_eye(&center, radius, angle, height),
            center,
            up,
            fov,
            aspect,
            near: ONE / 10,
            far: 1000 * ONE,
            orbit_radius: radius,
            orbit_angle: angle,
            orbit_height: height,
        }
    }

    /// Turns the camera about the centre: `delta_angle` raw radians are
    /// added to the orbit angle (saturating, as every scalar does).
    pub fn orbit(&mut self, delta_angle: i64)
        requires
            camera_wf(*old(self)),
        ensures
            final(self).orbit_angle == add_spec(old(self).orbit_angle as int, delta_angle as int),
            *final(self) == orbit_spec(*old(self), delta_angle as int),
            camera_wf(*final(self)),
    {
        self.orbit_angle = fx_add(self.orbit_angle, delta_angle);
        self.update_eye_position();
    }

    /// Moves the camera toward or away from the centre; the radius stays in
    /// `[MIN_RADIUS, MAX_RADIUS]`.
    pub fn zoom(&mut self, delta: i64)
        requires
            camera_wf(*old(self)),
        ensures
            *final(self) == zoom_spec(*old(self), delta as int),
            camera_wf(*final(self)),
    {
        self.orbit_radius = fx_clamp(fx_add(self.orbit_radius, delta), MIN_RADIUS, MAX_RADIUS);
        self.update_eye_position();
    }

    /// Raises or lowers the orbit; the height stays in
    /// `[MIN_HEIGHT, MAX_HEIGHT]`.
    pub fn change_height(&mut self, delta: i64)
        requires
            camera_wf(*old(self)),
        ensures
            *final(self) == height_spec(*old(self), delta as int),
            camera_wf(*final(self)),
    {
        self.orbit_height = fx_clamp(fx_add(self.orbit_height, delta), MIN_HEIGHT, MAX_HEIGHT);
        self.update_eye_position();
    }

    fn update_eye_position(&mut self)
        ensures
            *final(self) == with_orbit(
                *old(self),
                old(self).orbit_radius as int,
                old(self).orbit_angle as int,
                old(self).orbit_height as int,
            ),
    {
        self.eye = place_eye(&self.center, self.orbit_radius, self.orbit_angle, self.orbit_height);
    }

    /// Maps a camera-space direction into world space.
    pub fn basis_change(&self, vector: &Vec3) -> (r: Vec3)
        ensures
            r == basis_spec(*self, *vector),
    {
        let forward = self.center.sub(&self.eye).normalize();
        let right = forward.cross(&self.up).normalize();
        let up = right.cross(&forward).normalize();
        right.scale(vector.x).add(&up.scale(vector.y)).add(&forward.neg().scale(vector.z))
    }
}

/// Turning the camera by an angle and back restores it exactly, eye
/// included, as long as the turned angle stays within the scalar range.
pub proof fn lemma_orbit_round_trip(c: Camera, theta: int)
    requires
        camera_wf(c),
        in_range(c.orbit_angle + theta),
    ensures
        orbit_spec(orbit_spec(c, theta), -theta) == c,
{
}

/// Zooming and raising keep the orbit within its bounds, whatever the
/// delta.
pub proof fn lemma_orbit_bounds_kept(c: Camera, delta: int)
    requires
        camera_wf(c),
    ensures
        camera_wf(zoom_spec(c, delta)),
        camera_wf(height_spec(c, delta)),
        camera_wf(orbit_spec(c, delta)),
{
}

} // verus!
