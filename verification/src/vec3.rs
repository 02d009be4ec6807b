//! Three-component vectors of binary64 numbers.

use core::ops::{Index, IndexMut, Neg};
use vstd::pervasive::unreached;
use vstd::prelude::*;
use vstd::std_specs::cmp::PartialEqSpecImpl;
use vstd::std_specs::ops::NegSpecImpl;
use crate::scalar::Scalar;

verus! {

/// A vector of three numbers, used for directions, offsets, normals,
/// points and colors alike.
#[derive(Clone, Copy, Debug)]
pub struct Vec3 {
    pub x: Scalar,
    pub y: Scalar,
    pub z: Scalar,
}

/// The answer to a component index that names no component.
#[derive(Clone, Copy, Debug, PartialEq, Eq, Structural)]
pub struct IndexOutOfBounds {
    /// The index that was asked for.
    pub index: usize,
}

/// One of the three components of a vector.
#[derive(Clone, Copy, Debug, PartialEq, Eq, Structural)]
pub enum Axis {
    X,
    Y,
    Z,
}

impl Axis {
    /// The axis that an index names: 0 is `X`, 1 is `Y`, 2 is `Z`.
    pub open spec fn of(index: int) -> Axis
        recommends
            0 <= index < 3,
    {
        if index == 0 {
            Axis::X
        } else if index == 1 {
            Axis::Y
        } else {
            Axis::Z
        }
    }

    /// The axis that `index` names, or the error when `index` is 3 or more.
    pub fn from_index(index: usize) -> (r: Result<Axis, IndexOutOfBounds>)
        ensures
            index < 3 ==> r == Ok::<Axis, IndexOutOfBounds>(Axis::of(index as int)),
            index >= 3 ==> r == Err::<Axis, IndexOutOfBounds>(IndexOutOfBounds { index }),
    {
        if index == 0 {
            Ok(Axis::X)
        } else if index == 1 {
            Ok(Axis::Y)
        } else if index == 2 {
            Ok(Axis::Z)
        } else {
            Err(IndexOutOfBounds { index })
        }
    }
}

/// A position in space. The name documents intent; the type is `Vec3`.
pub type Point3 = Vec3;

impl Vec3 {
    /// The component on `axis`.
    pub open spec fn on(self, axis: Axis) -> Scalar {
        match axis {
            Axis::X => self.x,
            Axis::Y => self.y,
            Axis::Z => self.z,
        }
    }

    /// The component at `index`: 0 is `x`, 1 is `y`, 2 is `z`.
    pub open spec fn component(self, index: int) -> Scalar
        recommends
            0 <= index < 3,
    {
        self.on(Axis::of(index))
    }

    /// The vector with the component at `index` replaced by `value`.
    pub open spec fn with_component(self, index: int, value: Scalar) -> Vec3
        recommends
            0 <= index < 3,
    {
        if index == 0 {
            Vec3 { x: value, ..self }
        } else if index == 1 {
            Vec3 { y: value, ..self }
        } else {
            Vec3 { z: value, ..self }
        }
    }

    /// The vector with the given components.
    pub fn new(x: Scalar, y: Scalar, z: Scalar) -> (v: Vec3)
        ensures
            v == (Vec3 { x, y, z }),
    {
        Vec3 { x, y, z }
    }

    /// The first component.
    pub fn x(&self) -> (r: Scalar)
        ensures
            r == self.x,
    {
        self.x
    }

    /// The second component.
    pub fn y(&self) -> (r: Scalar)
        ensures
            r == self.y,
    {
        self.y
    }

    /// The third component.
    pub fn z(&self) -> (r: Scalar)
        ensures
            r == self.z,
    {
        self.z
    }

    /// The component at `index`, or the error when `index` is 3 or more.
    pub fn component_at(&self, index: usize) -> (r: Result<Scalar, IndexOutOfBounds>)
        ensures
            index < 3 ==> r == Ok::<Scalar, IndexOutOfBounds>(self.component(index as int)),
            index >= 3 ==> r == Err::<Scalar, IndexOutOfBounds>(IndexOutOfBounds { index }),
    {
        match Axis::from_index(index) {
            Ok(Axis::X) => Ok(self.x),
            Ok(Axis::Y) => Ok(self.y),
            Ok(Axis::Z) => Ok(self.z),
            Err(e) => Err(e),
        }
    }
}

impl Index<usize> for Vec3 {
    type Output = Scalar;

    /// The component at `index`. An index of 3 or more is a fault of the
    /// caller and is ruled out here: no other component stands in for the
    /// missing one. `component_at` answers such an index with an error.
    fn index(&self, index: usize) -> (r: &Scalar)
        ensures
            *r == self.component(index as int),
    {
        match Axis::from_index(index) {
            Ok(Axis::X) => &self.x,
            Ok(Axis::Y) => &self.y,
            Ok(Axis::Z) => &self.z,
            Err(_) => unreached(),
        }
    }
}

impl vstd::std_specs::core::IndexSpecImpl<usize> for Vec3 {
    open spec fn index_req(&self, index: &usize) -> bool {
        *index < 3
    }
}

impl IndexMut<usize> for Vec3 {
    /// The component at `index`, to be written through. The vector ends as
    /// it began but for that component, which ends as the caller leaves it.
    /// An index of 3 or more is ruled out as in `index`.
    fn index_mut(&mut self, index: usize) -> (r: &mut Scalar)
        requires
            index < 3,
        ensures
            *r == old(self).component(index as int),
            *final(self) == old(self).with_component(index as int, *final(r)),
    {
        match Axis::from_index(index) {
            Ok(Axis::X) => &mut self.x,
            Ok(Axis::Y) => &mut self.y,
            Ok(Axis::Z) => &mut self.z,
            Err(_) => unreached(),
        }
    }
}

impl Default for Vec3 {
    /// The vector of three positive zeros.
    fn default() -> (v: Vec3)
        ensures
            v == (Vec3 { x: Scalar { bits: 0 }, y: Scalar { bits: 0 }, z: Scalar { bits: 0 } }),
    {
        Vec3 { x: Scalar { bits: 0 }, y: Scalar { bits: 0 }, z: Scalar { bits: 0 } }
    }
}

impl PartialEq for Vec3 {
    /// Equality of the three pairs of numbers.
    fn eq(&self, other: &Vec3) -> (r: bool) {
        self.x == other.x && self.y == other.y && self.z == other.z
    }
}

impl PartialEqSpecImpl for Vec3 {
    open spec fn obeys_eq_spec() -> bool {
        true
    }

    open spec fn eq_spec(&self, other: &Vec3) -> bool {
        self.x.eq_value(other.x) && self.y.eq_value(other.y) && self.z.eq_value(other.z)
    }
}

impl Neg for Vec3 {
    type Output = Vec3;

    /// The opposite vector: each component with its sign turned round.
    fn neg(self) -> (r: Vec3) {
        Vec3 { x: self.x.neg(), y: self.y.neg(), z: self.z.neg() }
    }
}

impl NegSpecImpl for Vec3 {
    open spec fn obeys_neg_spec() -> bool {
        true
    }

    open spec fn neg_req(self) -> bool {
        true
    }

    open spec fn neg_spec(self) -> Vec3 {
        Vec3 { x: self.x.negated(), y: self.y.negated(), z: self.z.negated() }
    }
}

} // verus!
