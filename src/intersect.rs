//! Hit records.
use vstd::prelude::*;
use crate::material::{material_is, Material};
use crate::vec3::Vec3;
use crate::fixed::ONE;

verus! {

/// The distance a miss carries: farther than any hit.
pub const MISS_DISTANCE: i64 = i64::MAX;

/// The outcome of a ray test: a hit with its point, unit normal, distance
/// and material, or a miss.
#[derive(Clone, Copy, Debug)]
pub struct Intersect {
    pub is_intersecting: bool,
    pub distance: i64,
    pub point: Vec3,
    pub normal: Vec3,
    pub material: Material,
}

/// Whether `i` is the record of a miss.
pub open spec fn is_miss(i: Intersect) -> bool {
    &&& !i.is_intersecting
    &&& i.distance == MISS_DISTANCE
    &&& i.point == Vec3 { x: 0, y: 0, z: 0 }
    &&& i.normal == Vec3 { x: 0, y: 0, z: 0 }
    &&& material_is(i.material, crate::color::Color { r: 0, g: 0, b: 0 }, 0, 0, 0, ONE, 0, 0)
}

impl Intersect {
    pub fn new(point: Vec3, normal: Vec3, distance: i64, material: Material) -> (i: Intersect)
        ensures
            i.is_intersecting,
            i.point == point,
            i.normal == normal,
            i.distance == distance,
            i.material == material,
    {
        Intersect { is_intersecting: true, distance, point, normal, material }
    }

    pub fn empty() -> (i: Intersect)
        ensures
            is_miss(i),
    {
        Intersect {
            is_intersecting: false,
            distance: MISS_DISTANCE,
            point: Vec3::zeros(),
            normal: Vec3::zeros(),
            material: Material::black(),
        }
    }
}

} // verus!
