//! 3×3 matrices over plain numbers, held as three column vectors.

use vstd::prelude::*;
use vstd::std_specs::ops::{AddSpec, MulSpec};
use vstd::std_specs::convert::FromSpecImpl;
use core::ops::{Add, Mul, Sub};
use crate::math::quaternion::Quaternion;
use crate::math::vector3::Vector3;
use crate::number::laws::{
    lemma_one_times, lemma_same_as_zero, lemma_same_value_transitive, lemma_zero_times,
};
use crate::number::Number;
use crate::unit::{Dimension, Length};

verus! {

/// A 3×3 matrix: the images of the three basis vectors, as columns.
#[derive(Debug, Copy, Clone)]
pub struct Matrix3 {
    pub x_axis: Vector3<Number>,
    pub y_axis: Vector3<Number>,
    pub z_axis: Vector3<Number>,
}

/// The vector of three numbers.
pub open spec fn triple(x: Number, y: Number, z: Number) -> Vector3<Number> {
    Vector3 { x, y, z }
}

/// Whether all three components are finite.
pub open spec fn finite_triple(v: Vector3<Number>) -> bool {
    v.x.is_finite() && v.y.is_finite() && v.z.is_finite()
}

/// Whether the components are numerically equal, one by one.
pub open spec fn same_triple(a: Vector3<Number>, b: Vector3<Number>) -> bool {
    a.x.same_value(b.x) && a.y.same_value(b.y) && a.z.same_value(b.z)
}

/// Whether all three lengths are finite.
pub open spec fn finite_lengths(v: Vector3<Length>) -> bool {
    v.x.raw().is_finite() && v.y.raw().is_finite() && v.z.raw().is_finite()
}

/// Whether the lengths are numerically equal, one by one.
pub open spec fn same_lengths(a: Vector3<Length>, b: Vector3<Length>) -> bool {
    a.x.raw().same_value(b.x.raw()) && a.y.raw().same_value(b.y.raw()) && a.z.raw().same_value(b.z.raw())
}

/// The sum of three numbers from the left.  Where two of them are zeros and
/// the third is finite, the sum equals the third.
fn sum_of_three(a: Number, b: Number, c: Number) -> (r: Number)
    ensures
        r == a.plus(b).plus(c),
        a.is_finite() && b.is_zero() && c.is_zero() ==> r.is_finite() && r.same_value(a),
        a.is_zero() && b.is_finite() && c.is_zero() ==> r.is_finite() && r.same_value(b),
        a.is_zero() && b.is_zero() && c.is_finite() ==> r.is_finite() && r.same_value(c),
{
    let first = Number::add(a, b);
    let r = Number::add(first, c);
    proof {
        if a.is_finite() && b.is_zero() && c.is_zero() {
            lemma_same_value_transitive(r, first, a);
        }
        if a.is_zero() && b.is_finite() && c.is_zero() {
            lemma_same_value_transitive(r, first, b);
        }
        if a.is_zero() && b.is_zero() && c.is_finite() {
            lemma_same_as_zero(first, a);
        }
    }
    r
}

/// `a·v.x + b·v.y + c·v.z`, summed from the left.  Where the factors on one
/// side are a one and two zeros, and those on the other side are finite, the
/// result equals the factor that meets the one.
fn row_times(a: Number, b: Number, c: Number, v: Vector3<Number>) -> (r: Number)
    ensures
        r == a.times(v.x).plus(b.times(v.y)).plus(c.times(v.z)),
        finite_triple(v) && a == Number::one_value() && b == Number::zero_value() && c
            == Number::zero_value() ==> r.is_finite() && r.same_value(v.x),
        finite_triple(v) && a == Number::zero_value() && b == Number::one_value() && c
            == Number::zero_value() ==> r.is_finite() && r.same_value(v.y),
        finite_triple(v) && a == Number::zero_value() && b == Number::zero_value() && c
            == Number::one_value() ==> r.is_finite() && r.same_value(v.z),
        finite_triple(triple(a, b, c)) && v == triple(
            Number::one_value(),
            Number::zero_value(),
            Number::zero_value(),
        ) ==> r.is_finite() && r.same_value(a),
        finite_triple(triple(a, b, c)) && v == triple(
            Number::zero_value(),
            Number::one_value(),
            Number::zero_value(),
        ) ==> r.is_finite() && r.same_value(b),
        finite_triple(triple(a, b, c)) && v == triple(
            Number::zero_value(),
            Number::zero_value(),
            Number::one_value(),
        ) ==> r.is_finite() && r.same_value(c),
{
    proof {
        if finite_triple(v) {
            lemma_one_times(v.x);
            lemma_one_times(v.y);
            lemma_one_times(v.z);
            lemma_zero_times(v.x);
            lemma_zero_times(v.y);
            lemma_zero_times(v.z);
        }
        if finite_triple(triple(a, b, c)) {
            lemma_one_times(a);
            lemma_one_times(b);
            lemma_one_times(c);
            lemma_zero_times(a);
            lemma_zero_times(b);
            lemma_zero_times(c);
        }
    }
    sum_of_three(Number::mul(a, v.x), Number::mul(b, v.y), Number::mul(c, v.z))
}

/// One over `scale`, or zero where the scale has no magnitude above zero.
pub open spec fn inverse_scale(scale: Number) -> Number {
    if Number::zero_value().below(scale.magnitude()) {
        Number::one_value().over(scale)
    } else {
        Number::zero_value()
    }
}

fn invert_scale(scale: Number) -> (r: Number)
    ensures
        r == inverse_scale(scale),
{
    if Number::zero().less_than(&scale.absolute()) {
        Number::one() / scale
    } else {
        Number::zero()
    }
}

impl Matrix3 {
    /// Whether all nine entries are finite.
    pub open spec fn is_finite(self) -> bool {
        finite_triple(self.x_axis) && finite_triple(self.y_axis) && finite_triple(self.z_axis)
    }

    /// Whether the entries are numerically equal, one by one.
    pub open spec fn same_value(self, other: Matrix3) -> bool {
        &&& same_triple(self.x_axis, other.x_axis)
        &&& same_triple(self.y_axis, other.y_axis)
        &&& same_triple(self.z_axis, other.z_axis)
    }

    /// The matrix with the given rows.
    pub open spec fn rows(row1: Vector3<Number>, row2: Vector3<Number>, row3: Vector3<Number>) -> Matrix3 {
        Matrix3 {
            x_axis: triple(row1.x, row2.x, row3.x),
            y_axis: triple(row1.y, row2.y, row3.y),
            z_axis: triple(row1.z, row2.z, row3.z),
        }
    }

    /// The matrix with the given diagonal and zeros elsewhere.
    pub open spec fn diagonal(d: Vector3<Number>) -> Matrix3 {
        let o = Number::zero_value();
        Matrix3 { x_axis: triple(d.x, o, o), y_axis: triple(o, d.y, o), z_axis: triple(o, o, d.z) }
    }

    pub open spec fn zero_value() -> Matrix3 {
        let o = Number::zero_value();
        Matrix3 { x_axis: triple(o, o, o), y_axis: triple(o, o, o), z_axis: triple(o, o, o) }
    }

    pub open spec fn identity_value() -> Matrix3 {
        let o = Number::zero_value();
        let i = Number::one_value();
        Matrix3 { x_axis: triple(i, o, o), y_axis: triple(o, i, o), z_axis: triple(o, o, i) }
    }

    /// The entrywise sum.
    pub open spec fn sum(self, other: Matrix3) -> Matrix3 {
        Matrix3 {
            x_axis: self.x_axis.sum(other.x_axis),
            y_axis: self.y_axis.sum(other.y_axis),
            z_axis: self.z_axis.sum(other.z_axis),
        }
    }

    /// The entrywise difference.
    pub open spec fn difference(self, other: Matrix3) -> Matrix3 {
        Matrix3 {
            x_axis: self.x_axis.difference(other.x_axis),
            y_axis: self.y_axis.difference(other.y_axis),
            z_axis: self.z_axis.difference(other.z_axis),
        }
    }

    /// Each entry times `n`.
    pub open spec fn scaled(self, n: Number) -> Matrix3 {
        Matrix3 { x_axis: self.x_axis.scaled(n), y_axis: self.y_axis.scaled(n), z_axis: self.z_axis.scaled(n) }
    }

    /// The matrix applied to a vector of any scalar: component `i` is
    /// `m[i][0]·v.x + m[i][1]·v.y + m[i][2]·v.z`, summed from the left.
    pub open spec fn applied<N>(self, v: Vector3<N>) -> Vector3<N> where
        N: Add<N, Output = N>,
        Number: Mul<N, Output = N>,
     {
        Vector3 {
            x: self.x_axis.x.mul_spec(v.x).add_spec(self.y_axis.x.mul_spec(v.y)).add_spec(
                self.z_axis.x.mul_spec(v.z),
            ),
            y: self.x_axis.y.mul_spec(v.x).add_spec(self.y_axis.y.mul_spec(v.y)).add_spec(
                self.z_axis.y.mul_spec(v.z),
            ),
            z: self.x_axis.z.mul_spec(v.x).add_spec(self.y_axis.z.mul_spec(v.y)).add_spec(
                self.z_axis.z.mul_spec(v.z),
            ),
        }
    }

    /// What the scalar's operators ask of a vector that the matrix is applied
    /// to.
    pub open spec fn applies<N>(self, v: Vector3<N>) -> bool where
        N: Add<N, Output = N>,
        Number: Mul<N, Output = N>,
     {
        &&& <Number as MulSpec<N>>::obeys_mul_spec()
        &&& N::obeys_add_spec()
        &&& forall|m: Number, c: N| #[trigger] m.mul_req(c)
        &&& forall|a: N, b: N| #[trigger] a.add_req(b)
    }

    /// The matrix product `self · other`: `other` first, `self` after it.
    pub open spec fn product(self, other: Matrix3) -> Matrix3 {
        Matrix3 {
            x_axis: self.applied(other.x_axis),
            y_axis: self.applied(other.y_axis),
            z_axis: self.applied(other.z_axis),
        }
    }

    /// Row `index`, counted from zero.
    pub open spec fn row_spec(self, index: int) -> Vector3<Number> {
        if index == 0 {
            triple(self.x_axis.x, self.y_axis.x, self.z_axis.x)
        } else if index == 1 {
            triple(self.x_axis.y, self.y_axis.y, self.z_axis.y)
        } else {
            triple(self.x_axis.z, self.y_axis.z, self.z_axis.z)
        }
    }

    /// Rows and columns exchanged.
    pub open spec fn transposed(self) -> Matrix3 {
        Matrix3::rows(self.x_axis, self.y_axis, self.z_axis)
    }

    /// The rotation matrix of a unit quaternion.
    pub open spec fn rotation(q: Quaternion) -> Matrix3 {
        let one = Number::one_value();
        let two = Number::two_value();
        let xx = q.x.times(q.x);
        let yy = q.y.times(q.y);
        let zz = q.z.times(q.z);
        let xy = q.x.times(q.y);
        let xz = q.x.times(q.z);
        let yz = q.y.times(q.z);
        let wx = q.w.times(q.x);
        let wy = q.w.times(q.y);
        let wz = q.w.times(q.z);
        Matrix3 {
            x_axis: triple(
                one.minus(two.times(yy.plus(zz))),
                two.times(xy.plus(wz)),
                two.times(xz.minus(wy)),
            ),
            y_axis: triple(
                two.times(xy.minus(wz)),
                one.minus(two.times(xx.plus(zz))),
                two.times(yz.plus(wx)),
            ),
            z_axis: triple(
                two.times(xz.plus(wy)),
                two.times(yz.minus(wx)),
                one.minus(two.times(xx.plus(yy))),
            ),
        }
    }

    /// The outer product `a ⊗ b`: entry `(i, j)` is `a[i]·b[j]`.
    pub open spec fn outer(a: Vector3<Number>, b: Vector3<Number>) -> Matrix3 {
        Matrix3 { x_axis: a.scaled(b.x), y_axis: a.scaled(b.y), z_axis: a.scaled(b.z) }
    }

    /// The reflection across the plane through the origin whose normal is
    /// `axis`: the identity less twice the outer product of the normalized
    /// axis with itself.
    pub open spec fn mirror(axis: Vector3<Number>) -> Matrix3 {
        let unit = axis.normalized();
        Matrix3::identity_value().difference(Matrix3::outer(unit, unit).scaled(Number::two_value()))
    }

    /// The determinant: the first column dotted with the cross product of
    /// the other two.
    pub open spec fn determinant_spec(self) -> Number {
        self.x_axis.dot_spec(self.y_axis.cross_spec(self.z_axis))
    }

    /// The inverse: the cofactor rows over the determinant; the zero matrix
    /// where the determinant is zero.
    pub open spec fn inverse_spec(self) -> Matrix3 {
        let det = self.determinant_spec();
        if det.same_value(Number::zero_value()) {
            Matrix3::zero_value()
        } else {
            let inv = Number::one_value().over(det);
            Matrix3::rows(
                self.y_axis.cross_spec(self.z_axis).scaled(inv),
                self.z_axis.cross_spec(self.x_axis).scaled(inv),
                self.x_axis.cross_spec(self.y_axis).scaled(inv),
            )
        }
    }

    /// The trace.
    pub open spec fn trace(self) -> Number {
        self.x_axis.x.plus(self.y_axis.y).plus(self.z_axis.z)
    }

    /// Which of the four formulas turns the matrix into a quaternion: 0 where
    /// the trace is above zero, else the index of the largest diagonal
    /// entry, counted from 1.
    pub open spec fn quaternion_branch(self) -> int {
        let m00 = self.x_axis.x;
        let m11 = self.y_axis.y;
        let m22 = self.z_axis.z;
        if Number::zero_value().below(self.trace()) {
            0
        } else if m11.below(m00) && m22.below(m00) {
            1
        } else if m22.below(m11) {
            2
        } else {
            3
        }
    }

    /// Four times the square of the component that the branch solves for.
    pub open spec fn quaternion_pivot(self) -> Number {
        let one = Number::one_value();
        let m00 = self.x_axis.x;
        let m11 = self.y_axis.y;
        let m22 = self.z_axis.z;
        let b = self.quaternion_branch();
        if b == 0 {
            one.plus(m00).plus(m11).plus(m22)
        } else if b == 1 {
            one.plus(m00).minus(m11).minus(m22)
        } else if b == 2 {
            one.minus(m00).plus(m11).minus(m22)
        } else {
            one.minus(m00).minus(m11).plus(m22)
        }
    }

    /// The quaternion of the branch before it is brought to unit length.
    pub open spec fn quaternion_raw(self) -> Quaternion {
        let m10 = self.x_axis.y;
        let m20 = self.x_axis.z;
        let m01 = self.y_axis.x;
        let m21 = self.y_axis.z;
        let m02 = self.z_axis.x;
        let m12 = self.z_axis.y;
        let t = self.quaternion_pivot();
        let b = self.quaternion_branch();
        if b == 0 {
            Quaternion { x: m21.minus(m12), y: m02.minus(m20), z: m10.minus(m01), w: t }
        } else if b == 1 {
            Quaternion { x: t, y: m01.plus(m10), z: m02.plus(m20), w: m21.minus(m12) }
        } else if b == 2 {
            Quaternion { x: m01.plus(m10), y: t, z: m12.plus(m21), w: m02.minus(m20) }
        } else {
            Quaternion { x: m02.plus(m20), y: m12.plus(m21), z: t, w: m10.minus(m01) }
        }
    }

    /// The quaternion of a rotation matrix: the branch's quaternion times
    /// one half over the square root of its pivot.
    pub open spec fn quaternion(self) -> Quaternion {
        self.quaternion_raw().scaled(Number::half_value().over(self.quaternion_pivot().root()))
    }

    /// The scale of each axis: the length of its column, negated for the
    /// first axis where the determinant is below zero.
    pub open spec fn scales(self) -> Vector3<Number> {
        let sx = self.x_axis.length_spec();
        Vector3 {
            x: if self.determinant_spec().below(Number::zero_value()) {
                sx.negated()
            } else {
                sx
            },
            y: self.y_axis.length_spec(),
            z: self.z_axis.length_spec(),
        }
    }

    /// The matrix with the scale divided out of each column.
    pub open spec fn unscaled(self) -> Matrix3 {
        let s = self.scales();
        Matrix3 {
            x_axis: self.x_axis.scaled(inverse_scale(s.x)),
            y_axis: self.y_axis.scaled(inverse_scale(s.y)),
            z_axis: self.z_axis.scaled(inverse_scale(s.z)),
        }
    }

    pub fn from_cols(x_axis: Vector3<Number>, y_axis: Vector3<Number>, z_axis: Vector3<Number>) -> (r:
        Matrix3)
        ensures
            r == (Matrix3 { x_axis, y_axis, z_axis }),
    {
        Matrix3 { x_axis, y_axis, z_axis }
    }

    pub fn from_rows(row1: Vector3<Number>, row2: Vector3<Number>, row3: Vector3<Number>) -> (r:
        Matrix3)
        ensures
            r == Matrix3::rows(row1, row2, row3),
    {
        Matrix3 {
            x_axis: Vector3::new(row1.x, row2.x, row3.x),
            y_axis: Vector3::new(row1.y, row2.y, row3.y),
            z_axis: Vector3::new(row1.z, row2.z, row3.z),
        }
    }

    pub fn from_diagonal(diagonal: Vector3<Number>) -> (r: Matrix3)
        ensures
            r == Matrix3::diagonal(diagonal),
    {
        Matrix3::from_rows(
            Vector3::new(diagonal.x, Number::zero(), Number::zero()),
            Vector3::new(Number::zero(), diagonal.y, Number::zero()),
            Vector3::new(Number::zero(), Number::zero(), diagonal.z),
        )
    }

    /// The outer product of two vectors.
    pub fn from_outer(a: Vector3<Number>, b: Vector3<Number>) -> (r: Matrix3)
        ensures
            r == Matrix3::outer(a, b),
    {
        Matrix3 { x_axis: a * b.x, y_axis: a * b.y, z_axis: a * b.z }
    }

    /// The reflection whose normal is `axis`; the axis need not have unit
    /// length.
    pub fn from_mirror_axis(axis: Vector3<Number>) -> (r: Matrix3)
        ensures
            r == Matrix3::mirror(axis),
    {
        let unit = axis.normalize();
        let outer_product = Matrix3::from_outer(unit, unit);
        Matrix3::identity().sub_matrix3(outer_product.mul_number(Number::two()))
    }

    pub fn zero() -> (r: Matrix3)
        ensures
            r == Matrix3::zero_value(),
    {
        Matrix3::from_cols(
            Vector3::new(Number::zero(), Number::zero(), Number::zero()),
            Vector3::new(Number::zero(), Number::zero(), Number::zero()),
            Vector3::new(Number::zero(), Number::zero(), Number::zero()),
        )
    }

    pub fn identity() -> (r: Matrix3)
        ensures
            r == Matrix3::identity_value(),
    {
        Matrix3::from_rows(
            Vector3::new(Number::one(), Number::zero(), Number::zero()),
            Vector3::new(Number::zero(), Number::one(), Number::zero()),
            Vector3::new(Number::zero(), Number::zero(), Number::one()),
        )
    }

    pub fn add_matrix3(self, other: Matrix3) -> (r: Matrix3)
        ensures
            r == self.sum(other),
    {
        Matrix3 {
            x_axis: self.x_axis + other.x_axis,
            y_axis: self.y_axis + other.y_axis,
            z_axis: self.z_axis + other.z_axis,
        }
    }

    pub fn sub_matrix3(self, other: Matrix3) -> (r: Matrix3)
        ensures
            r == self.difference(other),
    {
        Matrix3 {
            x_axis: self.x_axis - other.x_axis,
            y_axis: self.y_axis - other.y_axis,
            z_axis: self.z_axis - other.z_axis,
        }
    }

    pub fn mul_number(&self, other: Number) -> (r: Matrix3)
        ensures
            r == self.scaled(other),
    {
        Matrix3 { x_axis: self.x_axis * other, y_axis: self.y_axis * other, z_axis: self.z_axis * other }
    }

    /// Applies the matrix to a vector of numbers or of quantities.
    pub fn apply<N>(&self, v: Vector3<N>) -> (r: Vector3<N>) where
        N: Copy + Add<N, Output = N>,
        Number: Mul<N, Output = N>,

        requires
            self.applies(v),
        ensures
            r == self.applied(v),
    {
        Vector3::new(
            self.x_axis.x * v.x + self.y_axis.x * v.y + self.z_axis.x * v.z,
            self.x_axis.y * v.x + self.y_axis.y * v.y + self.z_axis.y * v.z,
            self.x_axis.z * v.x + self.y_axis.z * v.y + self.z_axis.z * v.z,
        )
    }

    /// The matrix applied to a vector.  The identity gives a finite vector
    /// back, and a finite matrix gives its columns for the unit vectors.
    pub fn mul_vector3(&self, other: Vector3<Number>) -> (r: Vector3<Number>)
        ensures
            r == self.applied(other),
            *self == Matrix3::identity_value() && finite_triple(other) ==> finite_triple(r) && same_triple(
                r,
                other,
            ),
            self.is_finite() && other == triple(
                Number::one_value(),
                Number::zero_value(),
                Number::zero_value(),
            ) ==> finite_triple(r) && same_triple(r, self.x_axis),
            self.is_finite() && other == triple(
                Number::zero_value(),
                Number::one_value(),
                Number::zero_value(),
            ) ==> finite_triple(r) && same_triple(r, self.y_axis),
            self.is_finite() && other == triple(
                Number::zero_value(),
                Number::zero_value(),
                Number::one_value(),
            ) ==> finite_triple(r) && same_triple(r, self.z_axis),
    {
        Vector3::new(
            row_times(self.x_axis.x, self.y_axis.x, self.z_axis.x, other),
            row_times(self.x_axis.y, self.y_axis.y, self.z_axis.y, other),
            row_times(self.x_axis.z, self.y_axis.z, self.z_axis.z, other),
        )
    }

    /// The matrix applied to a vector of lengths.  The identity gives finite
    /// lengths back.
    pub fn mul_lengths(&self, other: Vector3<Length>) -> (r: Vector3<Length>)
        ensures
            r == self.applied(other),
            *self == Matrix3::identity_value() && finite_lengths(other) ==> finite_lengths(r)
                && same_lengths(r, other),
    {
        broadcast use {Length::raw_of, Length::of_raw};

        let plain = Vector3::new(other.x.canonical(), other.y.canonical(), other.z.canonical());
        let x = row_times(self.x_axis.x, self.y_axis.x, self.z_axis.x, plain);
        let y = row_times(self.x_axis.y, self.y_axis.y, self.z_axis.y, plain);
        let z = row_times(self.x_axis.z, self.y_axis.z, self.z_axis.z, plain);
        Vector3::new(Length::from_canonical(x), Length::from_canonical(y), Length::from_canonical(z))
    }

    /// The matrix product.  The identity on either side gives a finite
    /// matrix back.
    pub fn mul_matrix3(self, other: Matrix3) -> (r: Matrix3)
        ensures
            r == self.product(other),
            self == Matrix3::identity_value() && other.is_finite() ==> r.is_finite() && r.same_value(other),
            other == Matrix3::identity_value() && self.is_finite() ==> r.is_finite() && r.same_value(self),
    {
        Matrix3 {
            x_axis: self.mul_vector3(other.x_axis),
            y_axis: self.mul_vector3(other.y_axis),
            z_axis: self.mul_vector3(other.z_axis),
        }
    }

    pub fn row(&self, index: usize) -> (r: Vector3<Number>)
        requires
            index < 3,
        ensures
            r == self.row_spec(index as int),
    {
        if index == 0 {
            Vector3::new(self.x_axis.x, self.y_axis.x, self.z_axis.x)
        } else if index == 1 {
            Vector3::new(self.x_axis.y, self.y_axis.y, self.z_axis.y)
        } else {
            Vector3::new(self.x_axis.z, self.y_axis.z, self.z_axis.z)
        }
    }

    pub fn set(&mut self, matrix: Matrix3)
        ensures
            *final(self) == matrix,
    {
        self.x_axis = matrix.x_axis;
        self.y_axis = matrix.y_axis;
        self.z_axis = matrix.z_axis;
    }

    pub fn transpose(&self) -> (r: Matrix3)
        ensures
            r == self.transposed(),
    {
        Matrix3::from_rows(self.x_axis, self.y_axis, self.z_axis)
    }

    /// The rotation matrix of a unit quaternion.
    pub fn from_quaternion(q: Quaternion) -> (r: Matrix3)
        ensures
            r == Matrix3::rotation(q),
    {
        let one = Number::one();
        let two = Number::two();

        let xx = q.x * q.x;
        let yy = q.y * q.y;
        let zz = q.z * q.z;
        let xy = q.x * q.y;
        let xz = q.x * q.z;
        let yz = q.y * q.z;
        let wx = q.w * q.x;
        let wy = q.w * q.y;
        let wz = q.w * q.z;

        let m00 = one - two * (yy + zz);
        let m01 = two * (xy - wz);
        let m02 = two * (xz + wy);

        let m10 = two * (xy + wz);
        let m11 = one - two * (xx + zz);
        let m12 = two * (yz - wx);

        let m20 = two * (xz - wy);
        let m21 = two * (yz + wx);
        let m22 = one - two * (xx + yy);

        Matrix3 {
            x_axis: Vector3::new(m00, m10, m20),
            y_axis: Vector3::new(m01, m11, m21),
            z_axis: Vector3::new(m02, m12, m22),
        }
    }

    /// The rotation by `angle` radians about `axis`.
    pub fn from_axis_angle(axis: Vector3<Number>, angle: Number) -> (r: Matrix3)
        ensures
            r == Matrix3::rotation(Quaternion::axis_angle(axis, angle)),
    {
        let q = Quaternion::from_axis_angle(axis, angle);
        Matrix3::from_quaternion(q)
    }

    pub fn determinant(&self) -> (r: Number)
        ensures
            r == self.determinant_spec(),
    {
        self.x_axis.dot(&self.y_axis.cross(&self.z_axis))
    }

    pub fn inverse(&self) -> (r: Matrix3)
        ensures
            r == self.inverse_spec(),
    {
        let determinant = self.determinant();

        if determinant.equals(&Number::zero()) {
            return Matrix3::zero();
        }
        let determinant_inverse = Number::one() / determinant;

        let cofactor_1 = self.y_axis.cross(&self.z_axis);
        let cofactor_2 = self.z_axis.cross(&self.x_axis);
        let cofactor_3 = self.x_axis.cross(&self.y_axis);

        Matrix3::from_rows(
            cofactor_1 * determinant_inverse,
            cofactor_2 * determinant_inverse,
            cofactor_3 * determinant_inverse,
        )
    }

    /// The quaternion of a rotation matrix.  The formula is chosen so that
    /// the divisor is the largest of the four candidates: by the trace where
    /// it is above zero, else by the largest diagonal entry.
    pub fn to_quaternion(&self) -> (r: Quaternion)
        ensures
            r == self.quaternion(),
    {
        let one = Number::one();

        let m00 = self.x_axis.x;
        let m10 = self.x_axis.y;
        let m20 = self.x_axis.z;

        let m01 = self.y_axis.x;
        let m11 = self.y_axis.y;
        let m21 = self.y_axis.z;

        let m02 = self.z_axis.x;
        let m12 = self.z_axis.y;
        let m22 = self.z_axis.z;

        let trace = m00 + m11 + m22;
        let t: Number;
        let q: Quaternion;
        if Number::zero().less_than(&trace) {
            t = one + m00 + m11 + m22;
            q = Quaternion::new(m21 - m12, m02 - m20, m10 - m01, t);
        } else if m11.less_than(&m00) && m22.less_than(&m00) {
            t = one + m00 - m11 - m22;
            q = Quaternion::new(t, m01 + m10, m02 + m20, m21 - m12);
        } else if m22.less_than(&m11) {
            t = one - m00 + m11 - m22;
            q = Quaternion::new(m01 + m10, t, m12 + m21, m02 - m20);
        } else {
            t = one - m00 - m11 + m22;
            q = Quaternion::new(m02 + m20, m12 + m21, t, m10 - m01);
        }
        q.multipy_scalar(Number::half() / t.square_root())
    }

    /// Splits the matrix into a rotation and a scale per axis.
    ///
    /// The scale of an axis is the length of its column; where the
    /// determinant is below zero the scale of the first axis is negated, so
    /// that what is left is a proper rotation.  The scale is divided out of
    /// each column, a column without length becoming zero, and the rest is
    /// turned into a quaternion.
    pub fn to_rotation_scale(&self) -> (r: (Quaternion, Vector3<Number>))
        ensures
            r.0 == self.unscaled().quaternion(),
            r.1 == self.scales(),
            self.x_axis.is_zero() ==> r.1.x.is_zero(),
            self.y_axis.is_zero() ==> r.1.y.is_zero(),
            self.z_axis.is_zero() ==> r.1.z.is_zero(),
    {
        let sx = self.x_axis.length();
        let sy = self.y_axis.length();
        let sz = self.z_axis.length();
        proof {
            if self.x_axis.is_zero() {
                self.x_axis.law_zero_vector_has_no_length();
            }
            if self.y_axis.is_zero() {
                self.y_axis.law_zero_vector_has_no_length();
            }
            if self.z_axis.is_zero() {
                self.z_axis.law_zero_vector_has_no_length();
            }
        }

        let det = self.determinant();
        let sx = if det.less_than(&Number::zero()) {
            sx.negate()
        } else {
            sx
        };

        let inv_sx = invert_scale(sx);
        let inv_sy = invert_scale(sy);
        let inv_sz = invert_scale(sz);

        let rot_x = self.x_axis * inv_sx;
        let rot_y = self.y_axis * inv_sy;
        let rot_z = self.z_axis * inv_sz;

        let rot_matrix = Matrix3::from_cols(rot_x, rot_y, rot_z);
        let quaternion = rot_matrix.to_quaternion();

        let scale = Vector3::new(sx, sy, sz);

        (quaternion, scale)
    }
}

impl vstd::std_specs::ops::AddSpecImpl<Matrix3> for Matrix3 {
    open spec fn obeys_add_spec() -> bool {
        true
    }

    open spec fn add_req(self, rhs: Matrix3) -> bool {
        true
    }

    open spec fn add_spec(self, rhs: Matrix3) -> Matrix3 {
        self.sum(rhs)
    }
}

impl Add<Matrix3> for Matrix3 {
    type Output = Matrix3;

    fn add(self, rhs: Matrix3) -> (r: Matrix3) {
        self.add_matrix3(rhs)
    }
}

impl vstd::std_specs::ops::SubSpecImpl<Matrix3> for Matrix3 {
    open spec fn obeys_sub_spec() -> bool {
        true
    }

    open spec fn sub_req(self, rhs: Matrix3) -> bool {
        true
    }

    open spec fn sub_spec(self, rhs: Matrix3) -> Matrix3 {
        self.difference(rhs)
    }
}

impl Sub<Matrix3> for Matrix3 {
    type Output = Matrix3;

    fn sub(self, rhs: Matrix3) -> (r: Matrix3) {
        self.sub_matrix3(rhs)
    }
}

impl vstd::std_specs::ops::MulSpecImpl<Number> for Matrix3 {
    open spec fn obeys_mul_spec() -> bool {
        true
    }

    open spec fn mul_req(self, rhs: Number) -> bool {
        true
    }

    open spec fn mul_spec(self, rhs: Number) -> Matrix3 {
        self.scaled(rhs)
    }
}

impl Mul<Number> for Matrix3 {
    type Output = Matrix3;

    fn mul(self, rhs: Number) -> (r: Matrix3) {
        self.mul_number(rhs)
    }
}

impl vstd::std_specs::ops::MulSpecImpl<Matrix3> for Number {
    open spec fn obeys_mul_spec() -> bool {
        true
    }

    open spec fn mul_req(self, rhs: Matrix3) -> bool {
        true
    }

    open spec fn mul_spec(self, rhs: Matrix3) -> Matrix3 {
        rhs.scaled(self)
    }
}

impl Mul<Matrix3> for Number {
    type Output = Matrix3;

    fn mul(self, rhs: Matrix3) -> (r: Matrix3) {
        rhs.mul_number(self)
    }
}

impl vstd::std_specs::ops::MulSpecImpl<Matrix3> for Matrix3 {
    open spec fn obeys_mul_spec() -> bool {
        true
    }

    open spec fn mul_req(self, rhs: Matrix3) -> bool {
        true
    }

    open spec fn mul_spec(self, rhs: Matrix3) -> Matrix3 {
        self.product(rhs)
    }
}

impl Mul<Matrix3> for Matrix3 {
    type Output = Matrix3;

    fn mul(self, rhs: Matrix3) -> (r: Matrix3) {
        self.mul_matrix3(rhs)
    }
}

impl Default for Matrix3 {
    fn default() -> (r: Matrix3)
        ensures
            r == Matrix3::identity_value(),
    {
        Matrix3::identity()
    }
}

impl FromSpecImpl<Matrix3> for Quaternion {
    open spec fn obeys_from_spec() -> bool {
        true
    }

    open spec fn from_spec(m: Matrix3) -> Quaternion {
        m.quaternion()
    }
}

impl From<Matrix3> for Quaternion {
    fn from(m: Matrix3) -> (r: Quaternion) {
        m.to_quaternion()
    }
}

} // verus!
