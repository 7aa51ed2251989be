//! The global pose of a node, read back from the host's global transform.

use vstd::prelude::*;
use crate::scalar::Scalar;
use crate::scalar::lemma_negated_zero_same;
use crate::scalar::lemma_negation_involution;
use crate::transform2::LocalTransform;
use crate::transform2::Transform2;
use crate::vector::Vec2;
use crate::vector::Vec3;

verus! {

/// What the host's math layer returns when it takes a node's global
/// transform apart: the scale along each axis, the rotation, and the
/// translation. Of the rotation only the angle about the axis orthogonal to
/// the plane is kept, as the host's Z-Y-X Euler decomposition gives it.
#[derive(Clone, Copy, Debug)]
pub struct Decomposition {
    pub scale: Vec3,
    pub euler_z: Scalar,
    pub translation: Vec3,
}

impl Decomposition {
    pub open spec fn spec_identity() -> Decomposition {
        Decomposition { scale: Vec3::one(), euler_z: Scalar::zero(), translation: Vec3::zero() }
    }

    /// The parts of the host's identity transform.
    #[verifier::when_used_as_spec(spec_identity)]
    pub fn identity() -> (d: Decomposition)
        ensures
            d == Decomposition::spec_identity(),
    {
        Decomposition { scale: Vec3::one(), euler_z: Scalar::zero(), translation: Vec3::zero() }
    }

    pub open spec fn spec_new(scale: Vec3, euler_z: Scalar, translation: Vec3) -> Decomposition {
        Decomposition { scale, euler_z, translation }
    }

    /// The given parts, in the order in which the host returns them.
    #[verifier::when_used_as_spec(spec_new)]
    pub fn new(scale: Vec3, euler_z: Scalar, translation: Vec3) -> (d: Decomposition)
        ensures
            d == Decomposition::spec_new(scale, euler_z, translation),
    {
        Decomposition { scale, euler_z, translation }
    }

    /// The parts of a local transform itself: what an exact decomposition
    /// returns for a node without a parent.
    pub open spec fn of_local(local: LocalTransform) -> Decomposition {
        Decomposition {
            scale: local.scale,
            euler_z: local.rotation_z,
            translation: local.translation,
        }
    }

    /// The pose in the plane that these parts stand for: the in-plane
    /// translation, the third coordinate as depth, the negated angle (back
    /// to the screen convention), and the in-plane scale. The scale along
    /// the orthogonal axis is dropped.
    pub open spec fn pose(self) -> Transform2 {
        Transform2 {
            translation: self.translation.xy(),
            depth: self.translation.z,
            rotation: self.euler_z.spec_neg(),
            scale: self.scale.xy(),
        }
    }
}

/// The pose of a node in world space: its own pose composed with those of
/// all its ancestors, as read back from the host's global transform. Only
/// the read-back writes it.
#[derive(Clone, Copy, Debug)]
pub struct GlobalTransform2(Transform2);

impl View for GlobalTransform2 {
    type V = Transform2;

    closed spec fn view(&self) -> Transform2 {
        self.0
    }
}

impl GlobalTransform2 {
    /// The global pose that holds `pose`.
    pub closed spec fn holding(pose: Transform2) -> GlobalTransform2 {
        GlobalTransform2(pose)
    }

    /// A global pose is its view and nothing else.
    pub proof fn lemma_holding(pose: Transform2)
        ensures
            GlobalTransform2::holding(pose)@ == pose,
    {
    }

    /// Reads the global pose back from the parts of the host's global
    /// transform.
    pub fn from_decomposition(parts: &Decomposition) -> (g: GlobalTransform2)
        ensures
            g == GlobalTransform2::holding(parts.pose()),
            g@ == parts.pose(),
    {
        GlobalTransform2(
            Transform2 {
                translation: parts.translation.xy(),
                depth: parts.translation.z,
                rotation: parts.euler_z.neg(),
                scale: parts.scale.xy(),
            },
        )
    }

    /// The pose itself.
    #[must_use]
    pub fn transform2(&self) -> (pose: &Transform2)
        ensures
            *pose == self@,
    {
        &self.0
    }

    /// The translation in world space.
    #[must_use]
    pub fn translation(&self) -> (v: Vec2)
        ensures
            v == self@.translation,
    {
        self.0.translation
    }

    /// The rotation in world space, in the screen convention.
    #[must_use]
    pub fn rotation(&self) -> (r: Scalar)
        ensures
            r == self@.rotation,
    {
        self.0.rotation
    }

    /// The scale in world space.
    #[must_use]
    pub fn scale(&self) -> (v: Vec2)
        ensures
            v == self@.scale,
    {
        self.0.scale
    }
}

impl Default for GlobalTransform2 {
    /// The identity.
    fn default() -> (g: GlobalTransform2)
        ensures
            g == GlobalTransform2::holding(Transform2::identity()),
            g@ == Transform2::identity(),
    {
        GlobalTransform2(Transform2::identity())
    }
}

impl PartialEq for GlobalTransform2 {
    /// Numeric equality of the poses.
    fn eq(&self, other: &GlobalTransform2) -> (b: bool) {
        self.0.eq(&other.0)
    }
}

impl vstd::std_specs::cmp::PartialEqSpecImpl for GlobalTransform2 {
    open spec fn obeys_eq_spec() -> bool {
        true
    }

    open spec fn eq_spec(&self, other: &GlobalTransform2) -> bool {
        self@.same(other@)
    }
}

impl From<&Decomposition> for GlobalTransform2 {
    /// The global pose that the parts stand for.
    fn from(parts: &Decomposition) -> (g: GlobalTransform2) {
        GlobalTransform2::from_decomposition(parts)
    }
}

impl vstd::std_specs::convert::FromSpecImpl<&Decomposition> for GlobalTransform2 {
    open spec fn obeys_from_spec() -> bool {
        true
    }

    open spec fn from_spec(parts: &Decomposition) -> GlobalTransform2 {
        GlobalTransform2::holding(parts.pose())
    }
}

/// Where the host hands back the very parts that a pose was converted into,
/// the read-back is that pose, bit for bit.
pub proof fn lemma_round_trip(pose: Transform2)
    ensures
        Decomposition::of_local(pose.to_local()).pose() == pose,
{
    lemma_negation_involution(pose.rotation);
}

/// The parts of the host's identity read back as the identity pose: the
/// negated zero angle is the same number as zero.
pub proof fn lemma_identity_read_back()
    ensures
        Decomposition::identity().pose().same(Transform2::identity()),
        Decomposition::of_local(LocalTransform::identity()) == Decomposition::identity(),
{
    lemma_negated_zero_same();
}

} // verus!
