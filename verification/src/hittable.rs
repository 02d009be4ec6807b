//! What a surface tells a ray: whether it is hit, and where.

use vstd::prelude::*;
use crate::ray::Ray;
use crate::scalar::Scalar;
use crate::vec3::{Point3, Vec3};

verus! {

/// An intersection of a ray with a surface.
#[derive(Clone, Copy, Debug)]
pub struct HitRecord {
    /// The point of intersection.
    pub p: Point3,
    /// The surface normal at that point.
    pub normal: Vec3,
    /// The distance along the ray, in units of its direction:
    /// `p` is the origin plus `t` times the direction.
    pub t: Scalar,
}

impl Default for HitRecord {
    /// The record of zeros.
    fn default() -> (rec: HitRecord)
        ensures
            rec.p == (Vec3 { x: Scalar { bits: 0 }, y: Scalar { bits: 0 }, z: Scalar { bits: 0 } }),
            rec.normal == rec.p,
            rec.t == (Scalar { bits: 0 }),
    {
        HitRecord { p: Vec3::default(), normal: Vec3::default(), t: Scalar { bits: 0 } }
    }
}

/// A surface that a ray can hit.
pub trait Hittable {
    /// Looks for the nearest intersection of `r` with the surface at a
    /// distance strictly between `ray_tmin` and `ray_tmax`. When it returns
    /// `true`, `rec` holds the intersection; a distance equal to either bound
    /// is never accepted. When it returns `false`, `rec` is to be ignored.
    fn hit(&self, r: &Ray, ray_tmin: Scalar, ray_tmax: Scalar, rec: &mut HitRecord) -> (found: bool)
        ensures
            found ==> final(rec).t.strictly_between(ray_tmin, ray_tmax),
    ;
}

} // verus!
