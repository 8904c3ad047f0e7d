//! An affine transform that is changed in place.

use vstd::prelude::*;
use crate::math::affine3::Affine3;
use crate::math::matrix3::Matrix3;
use crate::math::quaternion::Quaternion;
use crate::math::vector3::Vector3;
use crate::number::Number;
use crate::unit::Length;

verus! {

/// A 3-D affine transform: a unitless linear part and a translation in
/// lengths.
#[derive(Debug, Copy, Clone)]
pub struct Transform3 {
    pub linear: Matrix3,
    pub translation: Vector3<Length>,
}

impl Transform3 {
    /// The same transform as a value of [`Affine3`].
    pub open spec fn affine(self) -> Affine3 {
        Affine3 { matrix: self.linear, translation: self.translation }
    }

    /// Scale first, then rotation, then translation.
    pub fn from_translation_rotation_scale(
        translation: Vector3<Length>,
        rotation: Quaternion,
        scale: Vector3<Number>,
    ) -> (r: Transform3)
        ensures
            r.affine() == Affine3::composed(translation, rotation, scale),
    {
        let rot_matrix = Matrix3::from_quaternion(rotation);
        let scale_matrix = Matrix3::from_diagonal(scale);
        let linear = rot_matrix.mul_matrix3(scale_matrix);
        Transform3 { linear, translation }
    }

    /// Splits the transform into translation, rotation and scale.
    ///
    /// The scale of an axis is the length of its column, negated for the
    /// first axis where the determinant is below zero; the rotation is the
    /// quaternion of what is left once the scale is divided out, a column
    /// without length becoming zero.
    pub fn to_translation_rotation_scale(&self) -> (r: (Vector3<Length>, Quaternion, Vector3<Number>))
        ensures
            r.0 == self.translation,
            r.1 == self.linear.unscaled().quaternion(),
            r.2 == self.linear.scales(),
            self.linear.x_axis.is_zero() ==> r.2.x.is_zero(),
            self.linear.y_axis.is_zero() ==> r.2.y.is_zero(),
            self.linear.z_axis.is_zero() ==> r.2.z.is_zero(),
    {
        let (quaternion, scale) = self.linear.to_rotation_scale();
        (self.translation, quaternion, scale)
    }

    /// Turns the transform by `angle` radians about the line through
    /// `origin` along `direction`: moves `origin` to the origin, turns
    /// translation and linear part, and moves back.
    pub fn rotate_on_axis(&mut self, origin: Vector3<Length>, direction: Vector3<Number>, angle: Number)
        ensures
            final(self).affine() == old(self).affine().turned(
                Matrix3::rotation(Quaternion::axis_angle(direction, angle)),
                origin,
            ),
    {
        self.translation = self.translation.sub_vector(origin);
        let rot = Matrix3::from_axis_angle(direction, angle);
        self.translation = rot.apply(self.translation);
        self.linear = rot.mul_matrix3(self.linear);
        self.translation = self.translation.add_vector(origin);
    }
}

} // verus!
