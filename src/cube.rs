//! Axis-aligned cubes and the slab test.
use vstd::prelude::*;
use crate::fixed::{div_spec, fx_div, fx_max, fx_min, fx_mul, fx_sub, max_spec, min_spec, mul_spec, sub_spec, ONE};
use crate::intersect::{is_miss, Intersect};
use crate::material::Material;
use crate::ray::{ray_at, Ray};
use crate::vec3::{mk, vsub, Vec3};

verus! {

/// Tolerance within which a point counts as lying on a face.
pub const FACE_EPSILON: i64 = 1_000;

/// A cube of edge `size` centred on `center`.
#[derive(Clone, Copy, Debug)]
pub struct Cube {
    pub center: Vec3,
    pub size: i64,
    pub material: Material,
}

pub open spec fn half_of(c: Cube) -> int {
    mul_spec(c.size as int, (ONE / 2) as int)
}

pub open spec fn min_corner(c: Cube) -> Vec3 {
    let h = half_of(c);
    vsub(c.center, mk(h, h, h))
}

pub open spec fn max_corner(c: Cube) -> Vec3 {
    let h = half_of(c);
    crate::vec3::vadd(c.center, mk(h, h, h))
}

/// Entry parameter of the ray into the slab `[lo, hi]` along one axis.
pub open spec fn slab_enter(o: int, d: int, lo: int, hi: int) -> int {
    min_spec(div_spec(sub_spec(lo, o), d), div_spec(sub_spec(hi, o), d))
}

/// Exit parameter of the ray from the slab `[lo, hi]` along one axis.
pub open spec fn slab_exit(o: int, d: int, lo: int, hi: int) -> int {
    max_spec(div_spec(sub_spec(lo, o), d), div_spec(sub_spec(hi, o), d))
}

/// Where the ray enters the cube: the latest of the three slab entries.
#[verifier::opaque]
pub open spec fn entry_of(c: Cube, r: Ray) -> int {
    let lo = min_corner(c);
    let hi = max_corner(c);
    max_spec(
        max_spec(
            slab_enter(r.origin.x as int, r.direction.x as int, lo.x as int, hi.x as int),
            slab_enter(r.origin.y as int, r.direction.y as int, lo.y as int, hi.y as int),
        ),
        slab_enter(r.origin.z as int, r.direction.z as int, lo.z as int, hi.z as int),
    )
}

/// Where the ray leaves the cube: the earliest of the three slab exits.
#[verifier::opaque]
pub open spec fn exit_of(c: Cube, r: Ray) -> int {
    let lo = min_corner(c);
    let hi = max_corner(c);
    min_spec(
        min_spec(
            slab_exit(r.origin.x as int, r.direction.x as int, lo.x as int, hi.x as int),
            slab_exit(r.origin.y as int, r.direction.y as int, lo.y as int, hi.y as int),
        ),
        slab_exit(r.origin.z as int, r.direction.z as int, lo.z as int, hi.z as int),
    )
}

/// The ray meets the cube at or ahead of its origin.
pub open spec fn hits(c: Cube, r: Ray) -> bool {
    entry_of(c, r) <= exit_of(c, r) && entry_of(c, r) >= 0
}

/// An entry distance is a saturated scalar.
pub proof fn lemma_entry_in_range(c: Cube, r: Ray)
    ensures
        crate::fixed::in_range(entry_of(c, r)),
{
    reveal(entry_of);
}

pub open spec fn near(v: int, target: int) -> bool {
    -FACE_EPSILON < sub_spec(v, target) < FACE_EPSILON
}

/// The outward normal of the first face (in the order +x, -x, +y, -y, +z, -z)
/// that `p` lies on; `+y` when it lies on none.
pub open spec fn face_normal(c: Cube, p: Vec3) -> Vec3 {
    let h = half_of(c);
    let l = vsub(p, c.center);
    if near(l.x as int, h) {
        Vec3 { x: ONE, y: 0, z: 0 }
    } else if near(l.x as int, -h) {
        Vec3 { x: (-ONE) as i64, y: 0, z: 0 }
    } else if near(l.y as int, h) {
        Vec3 { x: 0, y: ONE, z: 0 }
    } else if near(l.y as int, -h) {
        Vec3 { x: 0, y: (-ONE) as i64, z: 0 }
    } else if near(l.z as int, h) {
        Vec3 { x: 0, y: 0, z: ONE }
    } else if near(l.z as int, -h) {
        Vec3 { x: 0, y: 0, z: (-ONE) as i64 }
    } else {
        Vec3 { x: 0, y: ONE, z: 0 }
    }
}

/// The record that `ray_intersect` gives: the entry point with its face
/// normal on a hit, a miss otherwise.
pub open spec fn intersect_spec(c: Cube, r: Ray, i: Intersect) -> bool {
    if hits(c, r) {
        &&& i.is_intersecting
        &&& i.distance == entry_of(c, r)
        &&& i.point == ray_at(r, entry_of(c, r))
        &&& i.normal == face_normal(c, ray_at(r, entry_of(c, r)))
        &&& i.material == c.material
    } else {
        is_miss(i)
    }
}

/// Entry and exit parameters of one slab, sorted.
fn slab(o: i64, d: i64, lo: i64, hi: i64) -> (r: (i64, i64))
    ensures
        r.0 == slab_enter(o as int, d as int, lo as int, hi as int),
        r.1 == slab_exit(o as int, d as int, lo as int, hi as int),
{
    let t1 = fx_div(fx_sub(lo, o), d);
    let t2 = fx_div(fx_sub(hi, o), d);
    if t1 > t2 {
        (t2, t1)
    } else {
        (t1, t2)
    }
}

fn is_near(v: i64, target: i64) -> (r: bool)
    ensures
        r == near(v as int, target as int),
{
    let d = fx_sub(v, target);
    -FACE_EPSILON < d && d < FACE_EPSILON
}

impl Cube {
    pub fn new(center: Vec3, size: i64, material: Material) -> (c: Cube)
        ensures
            c.center == center,
            c.size == size,
            c.material == material,
    {
        Cube { center, size, material }
    }

    /// Slab test: the three axes' entry/exit intervals are intersected in
    /// turn; the ray misses when they stop overlapping or when the cube lies
    /// wholly behind the origin.
    pub fn ray_intersect(&self, ray: &Ray) -> (i: Intersect)
        ensures
            intersect_spec(*self, *ray, i),
    {
        reveal(entry_of);
        reveal(exit_of);
        let half = fx_mul(self.size, ONE / 2);
        let h = Vec3::new(half, half, half);
        let min = self.center.sub(&h);
        let max = self.center.add(&h);

        let (mut tmin, mut tmax) = slab(ray.origin.x, ray.direction.x, min.x, max.x);
        let (tymin, tymax) = slab(ray.origin.y, ray.direction.y, min.y, max.y);
        if tmin > tymax || tymin > tmax {
            return Intersect::empty();
        }
        tmin = fx_max(tmin, tymin);
        tmax = fx_min(tmax, tymax);

        let (tzmin, tzmax) = slab(ray.origin.z, ray.direction.z, min.z, max.z);
        if tmin > tzmax || tzmin > tmax {
            return Intersect::empty();
        }
        tmin = fx_max(tmin, tzmin);
        tmax = fx_min(tmax, tzmax);

        if tmin < 0 {
            return Intersect::empty();
        }
        let point = ray.at(tmin);
        let normal = self.get_normal(&point);
        Intersect::new(point, normal, tmin, self.material)
    }

    /// The outward normal of the face that `point` lies on.
    pub fn get_normal(&self, point: &Vec3) -> (n: Vec3)
        ensures
            n == face_normal(*self, *point),
    {
        let half = fx_mul(self.size, ONE / 2);
        let local = point.sub(&self.center);
        if is_near(local.x, half) {
            return Vec3::new(ONE, 0, 0);
        }
        if is_near(local.x, -half) {
            return Vec3::new(-ONE, 0, 0);
        }
        if is_near(local.y, half) {
            return Vec3::new(0, ONE, 0);
        }
        if is_near(local.y, -half) {
            return Vec3::new(0, -ONE, 0);
        }
        if is_near(local.z, half) {
            return Vec3::new(0, 0, ONE);
        }
        if is_near(local.z, -half) {
            return Vec3::new(0, 0, -ONE);
        }
        Vec3::new(0, ONE, 0)
    }
}

} // verus!
