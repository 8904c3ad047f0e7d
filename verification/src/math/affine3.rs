//! Affine transforms of space: a unitless linear part and a translation in
//! lengths.

use vstd::prelude::*;
use crate::math::matrix3::{finite_lengths, same_lengths, Matrix3};
use crate::number::laws::lemma_same_value_transitive;
use crate::math::quaternion::Quaternion;
use crate::math::vector3::Vector3;
use crate::number::{Number, Zero};
use crate::unit::Length;

verus! {

/// The vector of three lengths.
pub open spec fn lengths(x: Length, y: Length, z: Length) -> Vector3<Length> {
    Vector3 { x, y, z }
}

/// The point that a rotation turns about where none is given: the origin.
pub open spec fn pivot(origin: Option<Vector3<Length>>) -> Vector3<Length> {
    match origin {
        Some(p) => p,
        None => lengths(Length::zero_spec(), Length::zero_spec(), Length::zero_spec()),
    }
}

pub(crate) fn pivot_of(origin: Option<Vector3<Length>>) -> (r: Vector3<Length>)
    ensures
        r == pivot(origin),
{
    match origin {
        Some(p) => p,
        None => Vector3::new(Length::zero(), Length::zero(), Length::zero()),
    }
}

/// A 3-D affine transform: rotation, scale and shear in `matrix`, then a
/// translation.
#[derive(Debug, Copy, Clone)]
pub struct Affine3 {
    pub matrix: Matrix3,
    pub translation: Vector3<Length>,
}

impl Affine3 {
    /// Whether every entry of the linear part and every component of the
    /// translation is finite.
    pub open spec fn is_finite(self) -> bool {
        self.matrix.is_finite() && finite_lengths(self.translation)
    }

    /// Whether linear part and translation are numerically equal, entry by
    /// entry.
    pub open spec fn same_value(self, other: Affine3) -> bool {
        self.matrix.same_value(other.matrix) && same_lengths(self.translation, other.translation)
    }

    /// The transform that changes nothing.
    pub open spec fn identity_value() -> Affine3 {
        Affine3 {
            matrix: Matrix3::identity_value(),
            translation: lengths(Length::zero_spec(), Length::zero_spec(), Length::zero_spec()),
        }
    }

    /// Scale first, then rotation, then translation.
    pub open spec fn composed(translation: Vector3<Length>, rotation: Quaternion, scale: Vector3<Number>) -> Affine3 {
        Affine3 { matrix: Matrix3::rotation(rotation).product(Matrix3::diagonal(scale)), translation }
    }

    /// The transform followed by a shift of `(x, y, z)`.
    pub open spec fn moved(self, x: Length, y: Length, z: Length) -> Affine3 {
        Affine3 { matrix: self.matrix, translation: self.translation.sum(lengths(x, y, z)) }
    }

    /// The transform followed by the rotation `rot` about the point
    /// `origin`: the translation is moved by minus the origin, turned and
    /// moved back, and the linear part is turned.
    pub open spec fn turned(self, rot: Matrix3, origin: Vector3<Length>) -> Affine3 {
        Affine3 {
            matrix: rot.product(self.matrix),
            translation: rot.applied(self.translation.difference(origin)).sum(origin),
        }
    }

    /// The transform read in the coordinates of `basis`: the linear part is
    /// conjugated, `basisᵗ · M · basis`, and the translation becomes
    /// `basisᵗ · v`.
    pub open spec fn rebased(self, basis: Matrix3) -> Affine3 {
        Affine3 {
            matrix: basis.transposed().product(self.matrix).product(basis),
            translation: basis.transposed().applied(self.translation),
        }
    }

    pub fn identity() -> (r: Affine3)
        ensures
            r == Affine3::identity_value(),
    {
        Affine3 {
            matrix: Matrix3::identity(),
            translation: Vector3::new(Length::zero(), Length::zero(), Length::zero()),
        }
    }

    pub fn from_translation_rotation_scale(
        translation: Vector3<Length>,
        rotation: Quaternion,
        scale: Vector3<Number>,
    ) -> (r: Affine3)
        ensures
            r == Affine3::composed(translation, rotation, scale),
    {
        let rot_matrix = Matrix3::from_quaternion(rotation);
        let scale_matrix = Matrix3::from_diagonal(scale);
        let matrix = rot_matrix.mul_matrix3(scale_matrix);
        Affine3 { matrix, translation }
    }

    /// Splits the transform into translation, rotation and scale; see
    /// [`Matrix3::to_rotation_scale`].
    pub fn to_translation_rotation_scale(self) -> (r: (Vector3<Length>, Quaternion, Vector3<Number>))
        ensures
            r.0 == self.translation,
            r.1 == self.matrix.unscaled().quaternion(),
            r.2 == self.matrix.scales(),
    {
        let (rotation, scale) = self.matrix.to_rotation_scale();
        (self.translation, rotation, scale)
    }

    pub fn translate(self, x: Length, y: Length, z: Length) -> (r: Affine3)
        ensures
            r == self.moved(x, y, z),
    {
        Affine3 { translation: self.translation.add_vector(Vector3::new(x, y, z)), matrix: self.matrix }
    }

    /// The rotation of `quaternion` first, the transform after it.
    pub fn rotate_with_quaternion(self, quaternion: Quaternion) -> (r: Affine3)
        ensures
            r.matrix == self.matrix.product(Matrix3::rotation(quaternion)),
            r.translation == self.translation,
    {
        Affine3 {
            matrix: self.matrix.mul_matrix3(Matrix3::from_quaternion(quaternion)),
            translation: self.translation,
        }
    }

    /// The scaling by `scale` first, the transform after it.
    pub fn scale(self, scale: Vector3<Number>) -> (r: Affine3)
        ensures
            r.matrix == self.matrix.product(Matrix3::diagonal(scale)),
            r.translation == self.translation,
    {
        Affine3 { matrix: self.matrix.mul_matrix3(Matrix3::from_diagonal(scale)), translation: self.translation }
    }

    /// Turns the transform by `angle` radians about the line through
    /// `origin` along `axis`; the origin of space where none is given.
    pub fn rotate(self, axis: Vector3<Number>, angle: Number, origin: Option<Vector3<Length>>) -> (r:
        Affine3)
        ensures
            r == self.turned(Matrix3::rotation(Quaternion::axis_angle(axis, angle)), pivot(origin)),
    {
        let origin = pivot_of(origin);
        let rotation = Matrix3::from_axis_angle(axis, angle);
        let translation = rotation.apply(self.translation.sub_vector(origin)).add_vector(origin);
        let matrix = rotation.mul_matrix3(self.matrix);
        Affine3 { translation, matrix }
    }

    /// Reads the transform in the coordinates of another orthonormal basis.
    /// In the basis of the coordinate axes a finite transform reads as it
    /// is.
    pub fn change_basis(self, basis: Matrix3) -> (r: Affine3)
        ensures
            r == self.rebased(basis),
            basis == Matrix3::identity_value() && self.is_finite() ==> r.is_finite() && r.same_value(self),
    {
        let inverse = basis.transpose();
        let turned = inverse.mul_matrix3(self.matrix);
        let matrix = turned.mul_matrix3(basis);
        proof {
            if basis == Matrix3::identity_value() && self.is_finite() {
                assert(inverse == Matrix3::identity_value());
                lemma_same_value_transitive(matrix.x_axis.x, turned.x_axis.x, self.matrix.x_axis.x);
                lemma_same_value_transitive(matrix.x_axis.y, turned.x_axis.y, self.matrix.x_axis.y);
                lemma_same_value_transitive(matrix.x_axis.z, turned.x_axis.z, self.matrix.x_axis.z);
                lemma_same_value_transitive(matrix.y_axis.x, turned.y_axis.x, self.matrix.y_axis.x);
                lemma_same_value_transitive(matrix.y_axis.y, turned.y_axis.y, self.matrix.y_axis.y);
                lemma_same_value_transitive(matrix.y_axis.z, turned.y_axis.z, self.matrix.y_axis.z);
                lemma_same_value_transitive(matrix.z_axis.x, turned.z_axis.x, self.matrix.z_axis.x);
                lemma_same_value_transitive(matrix.z_axis.y, turned.z_axis.y, self.matrix.z_axis.y);
                lemma_same_value_transitive(matrix.z_axis.z, turned.z_axis.z, self.matrix.z_axis.z);
            }
        }
        Affine3 { translation: inverse.mul_lengths(self.translation), matrix }
    }

    /// Reflects the linear part across the plane whose normal is `axis`.
    pub fn mirror(self, axis: Vector3<Number>) -> (r: Affine3)
        ensures
            r.matrix == Matrix3::mirror(axis).product(self.matrix),
            r.translation == self.translation,
    {
        Affine3 { matrix: Matrix3::from_mirror_axis(axis).mul_matrix3(self.matrix), translation: self.translation }
    }
}

impl Default for Affine3 {
    fn default() -> (r: Affine3)
        ensures
            r == Affine3::identity_value(),
    {
        Affine3::identity()
    }
}

} // verus!
