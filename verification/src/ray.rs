//! Rays: a point of origin and a direction.

use vstd::prelude::*;
use crate::scalar::Scalar;
use crate::vec3::Vec3;

verus! {

/// A half-line from `orig` along `dir`. The direction need not have unit
/// length and is not checked to differ from zero.
#[derive(Clone, Copy, Debug)]
pub struct Ray {
    orig: Vec3,
    dir: Vec3,
}

impl Ray {
    /// The point the ray starts from.
    pub closed spec fn spec_origin(self) -> Vec3 {
        self.orig
    }

    /// The direction the ray travels in.
    pub closed spec fn spec_direction(self) -> Vec3 {
        self.dir
    }

    /// The ray from `orig` along `dir`.
    pub fn new(orig: Vec3, dir: Vec3) -> (r: Ray)
        ensures
            r.spec_origin() == orig,
            r.spec_direction() == dir,
    {
        Ray { orig, dir }
    }

    /// The point the ray starts from.
    pub fn origin(&self) -> (r: &Vec3)
        ensures
            *r == self.spec_origin(),
    {
        &self.orig
    }

    /// The direction the ray travels in.
    pub fn direction(&self) -> (r: &Vec3)
        ensures
            *r == self.spec_direction(),
    {
        &self.dir
    }
}

impl Default for Ray {
    /// The ray from the zero point along the zero vector.
    fn default() -> (r: Ray)
        ensures
            r.spec_origin() == (Vec3 { x: Scalar { bits: 0 }, y: Scalar { bits: 0 }, z: Scalar { bits: 0 } }),
            r.spec_direction() == r.spec_origin(),
    {
        Ray { orig: Vec3::default(), dir: Vec3::default() }
    }
}

} // verus!
