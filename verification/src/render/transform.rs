//! Rigid placements: a rotation followed by a translation.

use vstd::prelude::*;
use crate::math::affine3::{lengths, pivot, pivot_of};
use crate::math::quaternion::Quaternion;
use crate::math::vector3::Vector3;
use crate::number::{Number, Zero};
use crate::unit::{Angle, Dimension, Length};

verus! {

/// A placement in space: turn by `rotation`, then shift by `translation`.
#[derive(Debug, Copy, Clone)]
pub struct Transform {
    pub translation: Vector3<Length>,
    pub rotation: Quaternion,
}

impl Transform {
    /// The placement that moves nothing.
    pub open spec fn identity_value() -> Transform {
        Transform {
            translation: lengths(Length::zero_spec(), Length::zero_spec(), Length::zero_spec()),
            rotation: Quaternion::identity_value(),
        }
    }

    /// The placement shifted by `by`.
    pub open spec fn shifted(self, by: Vector3<Length>) -> Transform {
        Transform { translation: self.translation.sum(by), rotation: self.rotation }
    }

    /// The placement with `rotation` applied before its own rotation.
    pub open spec fn spun(self, rotation: Quaternion) -> Transform {
        Transform { translation: self.translation, rotation: self.rotation.product(rotation) }
    }

    /// The placement turned by `rotation` about the point `origin`: the
    /// translation is moved by minus the origin, turned and moved back.
    pub open spec fn turned(self, rotation: Quaternion, origin: Vector3<Length>) -> Transform {
        Transform {
            translation: self.translation.difference(origin).rotated(rotation).sum(origin),
            rotation: self.rotation.product(rotation),
        }
    }

    /// The placement of a child within its parent, seen from outside the
    /// parent: `self ∘ child`.  The child's translation is turned by the
    /// parent's rotation and shifted by the parent's translation; the
    /// rotations multiply.
    pub open spec fn composed(self, child: Transform) -> Transform {
        Transform {
            translation: self.translation.sum(child.translation.rotated(self.rotation)),
            rotation: self.rotation.product(child.rotation),
        }
    }

    pub fn identity() -> (r: Transform)
        ensures
            r == Transform::identity_value(),
    {
        Transform {
            translation: Vector3::new(Length::zero(), Length::zero(), Length::zero()),
            rotation: Quaternion::identity(),
        }
    }

    pub fn apply_translation(self, translation: Vector3<Length>) -> (r: Transform)
        ensures
            r == self.shifted(translation),
    {
        Transform { translation: self.translation.add_vector(translation), rotation: self.rotation }
    }

    pub fn translate(self, x: Length, y: Length, z: Length) -> (r: Transform)
        ensures
            r == self.shifted(lengths(x, y, z)),
    {
        self.apply_translation(Vector3::new(x, y, z))
    }

    pub fn apply_rotation(self, rotation: Quaternion) -> (r: Transform)
        ensures
            r == self.spun(rotation),
    {
        Transform { translation: self.translation, rotation: self.rotation.multiply(rotation) }
    }

    /// Turns the placement by `angle` about the line through `origin` along
    /// `axis`; the origin of space where none is given.
    pub fn rotate(self, axis: Vector3<Number>, angle: Angle, origin: Option<Vector3<Length>>) -> (r:
        Transform)
        ensures
            r == self.turned(Quaternion::axis_angle(axis, angle.canonical_spec()), pivot(origin)),
    {
        let origin = pivot_of(origin);
        let rotation = Quaternion::from_axis_angle(axis, angle.canonical());
        Transform {
            translation: self.translation.sub_vector(origin).multiply_quaternion(rotation).add_vector(
                origin,
            ),
            rotation: self.rotation.multiply(rotation),
        }
    }

    /// The placement of `child`, given within this one, seen from outside.
    pub fn compose(&self, child: &Transform) -> (r: Transform)
        ensures
            r == self.composed(*child),
    {
        Transform {
            translation: self.translation.add_vector(child.translation.multiply_quaternion(self.rotation)),
            rotation: self.rotation.multiply(child.rotation),
        }
    }
}

impl Default for Transform {
    fn default() -> (r: Transform)
        ensures
            r == Transform::identity_value(),
    {
        Transform::identity()
    }
}

} // verus!
