//! Spheres, and the choice among the two places where a ray meets one.

use vstd::prelude::*;
use crate::scalar::Scalar;
use crate::vec3::Point3;

verus! {

/// A sphere. Its radius is never negative and never a NaN.
#[derive(Clone, Copy, Debug)]
pub struct Sphere {
    center: Point3,
    radius: Scalar,
}

/// The distance at which a ray is taken to hit a sphere, if at any.
///
/// The ray meets the sphere where `a t^2 - 2 h t + c = 0`. `discriminant` is
/// `h^2 - a c`; `near` and `far` are the roots `(h - sqrt(discriminant)) / a`
/// and `(h + sqrt(discriminant)) / a`. A negative discriminant means that the
/// ray misses. Otherwise the near root is taken if it lies strictly between
/// `t_min` and `t_max`, else the far root if that one does, else none.
pub open spec fn nearest_root_spec(
    discriminant: Scalar,
    near: Scalar,
    far: Scalar,
    t_min: Scalar,
    t_max: Scalar,
) -> Option<Scalar> {
    if discriminant.lt_spec(Scalar { bits: 0 }) {
        None
    } else if near.strictly_between(t_min, t_max) {
        Some(near)
    } else if far.strictly_between(t_min, t_max) {
        Some(far)
    } else {
        None
    }
}

/// Chooses the distance at which a ray hits a sphere from the discriminant
/// and the two roots of the intersection equation, within the open interval
/// from `t_min` to `t_max`.
pub fn nearest_root(
    discriminant: Scalar,
    near: Scalar,
    far: Scalar,
    t_min: Scalar,
    t_max: Scalar,
) -> (root: Option<Scalar>)
    ensures
        root == nearest_root_spec(discriminant, near, far, t_min, t_max),
        root matches Some(t) ==> t.strictly_between(t_min, t_max),
{
    if discriminant.lt(Scalar { bits: 0 }) {
        return None;
    }
    if near.is_strictly_between(t_min, t_max) {
        return Some(near);
    }
    if far.is_strictly_between(t_min, t_max) {
        return Some(far);
    }
    None
}

/// The nearest root that may be taken wins, and no other is ever taken: the
/// chosen distance is the near root whenever that one lies strictly between
/// the bounds and the discriminant is not negative; whatever is chosen is
/// one of the two roots, lies strictly between the bounds and equals
/// neither of them.
pub proof fn lemma_nearest_root_in_range(
    discriminant: Scalar,
    near: Scalar,
    far: Scalar,
    t_min: Scalar,
    t_max: Scalar,
)
    ensures
        !discriminant.lt_spec(Scalar { bits: 0 }) && near.strictly_between(t_min, t_max)
            ==> nearest_root_spec(discriminant, near, far, t_min, t_max) == Some(near),
        nearest_root_spec(discriminant, near, far, t_min, t_max) matches Some(t) ==> {
            &&& t == near || t == far
            &&& t.strictly_between(t_min, t_max)
            &&& !t.eq_value(t_min)
            &&& !t.eq_value(t_max)
        },
{
}

impl Sphere {
    /// The center of the sphere.
    pub closed spec fn spec_center(self) -> Point3 {
        self.center
    }

    /// The radius of the sphere.
    pub closed spec fn spec_radius(self) -> Scalar {
        self.radius
    }

    #[verifier::type_invariant]
    spec fn radius_not_negative(self) -> bool {
        !self.radius.nan() && !self.radius.sign_negative()
    }

    /// The sphere round `center` with the given radius. A negative radius,
    /// or one that is a NaN, is replaced by zero.
    pub fn new(center: Point3, radius: Scalar) -> (s: Sphere)
        ensures
            s.spec_center() == center,
            s.spec_radius() == radius.positive_part(),
    {
        Sphere { center, radius: radius.max_zero() }
    }

    /// The center of the sphere.
    pub fn center(&self) -> (r: &Point3)
        ensures
            *r == self.spec_center(),
    {
        &self.center
    }

    /// The radius of the sphere: zero or more, and no NaN.
    pub fn radius(&self) -> (r: Scalar)
        ensures
            r == self.spec_radius(),
            !r.nan(),
            !r.sign_negative(),
    {
        proof {
            use_type_invariant(self);
        }
        self.radius
    }
}

} // verus!
