//! The local pose of a node and its conversion into the host's local
//! transform.

use vstd::prelude::*;
use vstd::string::StringExecFns;
use crate::scalar::Scalar;
use crate::scalar::lemma_negated_zero_same;
use crate::vector::Vec2;
use crate::vector::Vec3;

verus! {

/// The pose that an application gives a node, relative to its parent.
///
/// `rotation` is in radians and follows the screen convention: a positive
/// angle turns towards the second axis. `depth` is the coordinate along the
/// axis orthogonal to the plane. No field depends on another.
#[derive(Clone, Copy, Debug)]
pub struct Transform2 {
    pub translation: Vec2,
    pub depth: Scalar,
    pub rotation: Scalar,
    pub scale: Vec2,
}

/// The host's local transform of a node whose rotation is about the axis
/// orthogonal to the plane: that rotation is held by its angle, in the
/// host's right-handed convention.
#[derive(Clone, Copy, Debug)]
pub struct LocalTransform {
    pub translation: Vec3,
    pub rotation_z: Scalar,
    pub scale: Vec3,
}

impl LocalTransform {
    pub open spec fn spec_identity() -> LocalTransform {
        LocalTransform { translation: Vec3::zero(), rotation_z: Scalar::zero(), scale: Vec3::one() }
    }

    /// No translation, no rotation, scale one.
    #[verifier::when_used_as_spec(spec_identity)]
    pub fn identity() -> (t: LocalTransform)
        ensures
            t == LocalTransform::spec_identity(),
    {
        LocalTransform { translation: Vec3::zero(), rotation_z: Scalar::zero(), scale: Vec3::one() }
    }

    /// Numeric equality of all fields.
    pub open spec fn same(self, other: LocalTransform) -> bool {
        self.translation.same(other.translation) && self.rotation_z.same(other.rotation_z)
            && self.scale.same(other.scale)
    }
}

impl Transform2 {
    pub open spec fn spec_identity() -> Transform2 {
        Transform2 {
            translation: Vec2::zero(),
            depth: Scalar::zero(),
            rotation: Scalar::zero(),
            scale: Vec2::one(),
        }
    }

    /// The pose that changes nothing: no translation, depth zero, no
    /// rotation, scale one.
    #[verifier::when_used_as_spec(spec_identity)]
    pub fn identity() -> (t: Transform2)
        ensures
            t == Transform2::spec_identity(),
    {
        Transform2 {
            translation: Vec2::zero(),
            depth: Scalar::zero(),
            rotation: Scalar::zero(),
            scale: Vec2::one(),
        }
    }

    pub open spec fn spec_from_translation(translation: Vec2) -> Transform2 {
        Transform2 { translation, ..Transform2::identity() }
    }

    /// The identity moved by `translation`.
    #[must_use]
    #[verifier::when_used_as_spec(spec_from_translation)]
    pub fn from_translation(translation: Vec2) -> (t: Transform2)
        ensures
            t == Transform2::spec_from_translation(translation),
    {
        Transform2 { translation, ..Transform2::identity() }
    }

    pub open spec fn spec_from_translation_depth(translation: Vec2, depth: Scalar) -> Transform2 {
        Transform2 { translation, depth, ..Transform2::identity() }
    }

    /// The identity moved by `translation` and set at `depth`.
    #[must_use]
    #[verifier::when_used_as_spec(spec_from_translation_depth)]
    pub fn from_translation_depth(translation: Vec2, depth: Scalar) -> (t: Transform2)
        ensures
            t == Transform2::spec_from_translation_depth(translation, depth),
    {
        Transform2 { translation, depth, ..Transform2::identity() }
    }

    pub open spec fn spec_from_rotation(rotation: Scalar) -> Transform2 {
        Transform2 { rotation, ..Transform2::identity() }
    }

    /// The identity turned by `rotation`.
    #[must_use]
    #[verifier::when_used_as_spec(spec_from_rotation)]
    pub fn from_rotation(rotation: Scalar) -> (t: Transform2)
        ensures
            t == Transform2::spec_from_rotation(rotation),
    {
        Transform2 { rotation, ..Transform2::identity() }
    }

    pub open spec fn spec_from_scale(scale: Vec2) -> Transform2 {
        Transform2 { scale, ..Transform2::identity() }
    }

    /// The identity scaled by `scale`.
    #[must_use]
    #[verifier::when_used_as_spec(spec_from_scale)]
    pub fn from_scale(scale: Vec2) -> (t: Transform2)
        ensures
            t == Transform2::spec_from_scale(scale),
    {
        Transform2 { scale, ..Transform2::identity() }
    }

    pub open spec fn spec_from_depth(depth: Scalar) -> Transform2 {
        Transform2 { depth, ..Transform2::identity() }
    }

    /// The identity set at `depth`.
    #[must_use]
    #[verifier::when_used_as_spec(spec_from_depth)]
    pub fn from_depth(depth: Scalar) -> (t: Transform2)
        ensures
            t == Transform2::spec_from_depth(depth),
    {
        Transform2 { depth, ..Transform2::identity() }
    }

    pub open spec fn spec_with_translation(self, translation: Vec2) -> Transform2 {
        Transform2 { translation, ..self }
    }

    /// This pose with its translation replaced.
    #[must_use]
    #[verifier::when_used_as_spec(spec_with_translation)]
    pub fn with_translation(self, translation: Vec2) -> (t: Transform2)
        ensures
            t == self.spec_with_translation(translation),
    {
        Transform2 { translation, ..self }
    }

    pub open spec fn spec_with_rotation(self, rotation: Scalar) -> Transform2 {
        Transform2 { rotation, ..self }
    }

    /// This pose with its rotation replaced.
    #[must_use]
    #[verifier::when_used_as_spec(spec_with_rotation)]
    pub fn with_rotation(self, rotation: Scalar) -> (t: Transform2)
        ensures
            t == self.spec_with_rotation(rotation),
    {
        Transform2 { rotation, ..self }
    }

    pub open spec fn spec_with_depth(self, depth: Scalar) -> Transform2 {
        Transform2 { depth, ..self }
    }

    /// This pose with its depth replaced.
    #[must_use]
    #[verifier::when_used_as_spec(spec_with_depth)]
    pub fn with_depth(self, depth: Scalar) -> (t: Transform2)
        ensures
            t == self.spec_with_depth(depth),
    {
        Transform2 { depth, ..self }
    }

    pub open spec fn spec_with_scale(self, scale: Vec2) -> Transform2 {
        Transform2 { scale, ..self }
    }

    /// This pose with its scale replaced.
    #[must_use]
    #[verifier::when_used_as_spec(spec_with_scale)]
    pub fn with_scale(self, scale: Vec2) -> (t: Transform2)
        ensures
            t == self.spec_with_scale(scale),
    {
        Transform2 { scale, ..self }
    }

    /// Numeric equality of all fields.
    pub open spec fn same(self, other: Transform2) -> bool {
        self.translation.same(other.translation) && self.depth.same(other.depth)
            && self.rotation.same(other.rotation) && self.scale.same(other.scale)
    }

    /// The host's local transform of a node with this pose: the translation
    /// extended by the depth, the negated angle (the host turns the other
    /// way), and the scale extended by one.
    pub open spec fn spec_to_local(&self) -> LocalTransform {
        LocalTransform {
            translation: self.translation.extend(self.depth),
            rotation_z: self.rotation.spec_neg(),
            scale: self.scale.extend(Scalar::one()),
        }
    }

    /// Converts this pose into the host's local transform.
    #[verifier::when_used_as_spec(spec_to_local)]
    pub fn to_local(&self) -> (local: LocalTransform)
        ensures
            local == self.spec_to_local(),
    {
        LocalTransform {
            translation: self.translation.extend(self.depth),
            rotation_z: self.rotation.neg(),
            scale: self.scale.extend(Scalar::one()),
        }
    }
}

impl Default for Transform2 {
    /// The identity.
    fn default() -> (t: Transform2)
        ensures
            t == Transform2::identity(),
    {
        Transform2::identity()
    }
}

impl PartialEq for Transform2 {
    /// Numeric equality, field by field.
    fn eq(&self, other: &Transform2) -> (b: bool) {
        self.translation.eq(&other.translation) && self.depth.eq(&other.depth) && self.rotation.eq(
            &other.rotation,
        ) && self.scale.eq(&other.scale)
    }
}

impl vstd::std_specs::cmp::PartialEqSpecImpl for Transform2 {
    open spec fn obeys_eq_spec() -> bool {
        true
    }

    open spec fn eq_spec(&self, other: &Transform2) -> bool {
        self.same(*other)
    }
}

impl PartialEq for LocalTransform {
    /// Numeric equality, field by field.
    fn eq(&self, other: &LocalTransform) -> (b: bool) {
        self.translation.eq(&other.translation) && self.rotation_z.eq(&other.rotation_z)
            && self.scale.eq(&other.scale)
    }
}

impl vstd::std_specs::cmp::PartialEqSpecImpl for LocalTransform {
    open spec fn obeys_eq_spec() -> bool {
        true
    }

    open spec fn eq_spec(&self, other: &LocalTransform) -> bool {
        self.same(*other)
    }
}

impl From<&Transform2> for LocalTransform {
    /// The host's local transform of a node with the given pose.
    fn from(pose: &Transform2) -> (local: LocalTransform) {
        pose.to_local()
    }
}

impl vstd::std_specs::convert::FromSpecImpl<&Transform2> for LocalTransform {
    open spec fn obeys_from_spec() -> bool {
        true
    }

    open spec fn from_spec(pose: &Transform2) -> LocalTransform {
        pose.spec_to_local()
    }
}

/// The canonical text of a pose whose six numbers read `tx`, `ty`, `depth`,
/// `rotation`, `sx` and `sy`.
pub open spec fn pose_text(
    tx: Seq<char>,
    ty: Seq<char>,
    depth: Seq<char>,
    rotation: Seq<char>,
    sx: Seq<char>,
    sy: Seq<char>,
) -> Seq<char> {
    "{T["@ + tx + ", "@ + ty + "], D["@ + depth + "], R["@ + rotation + "], S["@ + sx + ", "@ + sy
        + "]}"@
}

/// Writes the canonical text of a pose from the texts of its six numbers:
/// translation, depth, rotation and scale, in that order.
pub fn display_text(tx: &str, ty: &str, depth: &str, rotation: &str, sx: &str, sy: &str) -> (text:
    String)
    ensures
        text@ == pose_text(tx@, ty@, depth@, rotation@, sx@, sy@),
{
    let mut text = String::from_str("{T[");
    text.append(tx);
    text.append(", ");
    text.append(ty);
    text.append("], D[");
    text.append(depth);
    text.append("], R[");
    text.append(rotation);
    text.append("], S[");
    text.append(sx);
    text.append(", ");
    text.append(sy);
    text.append("]}");
    text
}

/// The identity pose converts into the host's identity: the negated zero
/// angle is the same number as zero.
pub proof fn lemma_identity_to_local()
    ensures
        Transform2::identity().to_local().same(LocalTransform::identity()),
{
    lemma_negated_zero_same();
}

/// A pose built from a translation, then given a depth and a rotation, has
/// exactly those three and the identity's scale.
pub proof fn lemma_builders_compose(translation: Vec2, depth: Scalar, rotation: Scalar)
    ensures
        Transform2::from_translation(translation).with_depth(depth).with_rotation(rotation) == (Transform2 {
            translation,
            depth,
            rotation,
            scale: Vec2::one(),
        }),
{
}

} // verus!
