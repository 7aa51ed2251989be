//! Two- and three-component vectors of single-precision numbers.

use vstd::prelude::*;
use crate::scalar::Scalar;

verus! {

/// A vector in the plane.
#[derive(Clone, Copy, Debug)]
pub struct Vec2 {
    pub x: Scalar,
    pub y: Scalar,
}

/// A vector in space.
#[derive(Clone, Copy, Debug)]
pub struct Vec3 {
    pub x: Scalar,
    pub y: Scalar,
    pub z: Scalar,
}

impl Vec2 {
    pub open spec fn spec_zero() -> Vec2 {
        Vec2 { x: Scalar::zero(), y: Scalar::zero() }
    }

    /// Both components zero.
    #[verifier::when_used_as_spec(spec_zero)]
    pub fn zero() -> (v: Vec2)
        ensures
            v == Vec2::spec_zero(),
    {
        Vec2 { x: Scalar::zero(), y: Scalar::zero() }
    }

    pub open spec fn spec_one() -> Vec2 {
        Vec2 { x: Scalar::one(), y: Scalar::one() }
    }

    /// Both components one.
    #[verifier::when_used_as_spec(spec_one)]
    pub fn one() -> (v: Vec2)
        ensures
            v == Vec2::spec_one(),
    {
        Vec2 { x: Scalar::one(), y: Scalar::one() }
    }

    /// The vector with the given components.
    pub fn new(x: Scalar, y: Scalar) -> (v: Vec2)
        ensures
            v == (Vec2 { x, y }),
    {
        Vec2 { x, y }
    }

    /// The vector whose components have the given bit patterns.
    pub fn from_bits(x: u32, y: u32) -> (v: Vec2)
        ensures
            v.x.bits == x,
            v.y.bits == y,
    {
        Vec2 { x: Scalar::from_bits(x), y: Scalar::from_bits(y) }
    }

    pub open spec fn spec_extend(self, z: Scalar) -> Vec3 {
        Vec3 { x: self.x, y: self.y, z }
    }

    /// The vector in space with this one's components and `z` as the third.
    #[verifier::when_used_as_spec(spec_extend)]
    pub fn extend(self, z: Scalar) -> (v: Vec3)
        ensures
            v == self.spec_extend(z),
    {
        Vec3 { x: self.x, y: self.y, z }
    }

    /// Numeric equality of both components.
    pub open spec fn same(self, other: Vec2) -> bool {
        self.x.same(other.x) && self.y.same(other.y)
    }
}

impl Vec3 {
    pub open spec fn spec_zero() -> Vec3 {
        Vec3 { x: Scalar::zero(), y: Scalar::zero(), z: Scalar::zero() }
    }

    /// All components zero.
    #[verifier::when_used_as_spec(spec_zero)]
    pub fn zero() -> (v: Vec3)
        ensures
            v == Vec3::spec_zero(),
    {
        Vec3 { x: Scalar::zero(), y: Scalar::zero(), z: Scalar::zero() }
    }

    pub open spec fn spec_one() -> Vec3 {
        Vec3 { x: Scalar::one(), y: Scalar::one(), z: Scalar::one() }
    }

    /// All components one.
    #[verifier::when_used_as_spec(spec_one)]
    pub fn one() -> (v: Vec3)
        ensures
            v == Vec3::spec_one(),
    {
        Vec3 { x: Scalar::one(), y: Scalar::one(), z: Scalar::one() }
    }

    /// The vector with the given components.
    pub fn new(x: Scalar, y: Scalar, z: Scalar) -> (v: Vec3)
        ensures
            v == (Vec3 { x, y, z }),
    {
        Vec3 { x, y, z }
    }

    /// The vector whose components have the given bit patterns.
    pub fn from_bits(x: u32, y: u32, z: u32) -> (v: Vec3)
        ensures
            v.x.bits == x,
            v.y.bits == y,
            v.z.bits == z,
    {
        Vec3 { x: Scalar::from_bits(x), y: Scalar::from_bits(y), z: Scalar::from_bits(z) }
    }

    pub open spec fn spec_xy(self) -> Vec2 {
        Vec2 { x: self.x, y: self.y }
    }

    /// The first two components.
    #[verifier::when_used_as_spec(spec_xy)]
    pub fn xy(self) -> (v: Vec2)
        ensures
            v == self.spec_xy(),
    {
        Vec2 { x: self.x, y: self.y }
    }

    /// Numeric equality of all components.
    pub open spec fn same(self, other: Vec3) -> bool {
        self.x.same(other.x) && self.y.same(other.y) && self.z.same(other.z)
    }
}

impl PartialEq for Vec2 {
    /// Numeric equality, component by component.
    fn eq(&self, other: &Vec2) -> (b: bool) {
        self.x.eq(&other.x) && self.y.eq(&other.y)
    }
}

impl vstd::std_specs::cmp::PartialEqSpecImpl for Vec2 {
    open spec fn obeys_eq_spec() -> bool {
        true
    }

    open spec fn eq_spec(&self, other: &Vec2) -> bool {
        self.same(*other)
    }
}

impl PartialEq for Vec3 {
    /// Numeric equality, component by component.
    fn eq(&self, other: &Vec3) -> (b: bool) {
        self.x.eq(&other.x) && self.y.eq(&other.y) && self.z.eq(&other.z)
    }
}

impl vstd::std_specs::cmp::PartialEqSpecImpl for Vec3 {
    open spec fn obeys_eq_spec() -> bool {
        true
    }

    open spec fn eq_spec(&self, other: &Vec3) -> bool {
        self.same(*other)
    }
}

} // verus!
