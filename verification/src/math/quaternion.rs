//! Quaternions over plain numbers.

use vstd::prelude::*;
use vstd::std_specs::ops::MulSpecImpl;
use core::ops::Mul;
use crate::math::vector3::Vector3;
use crate::number::laws::lemma_same_as_zero;
use crate::number::Number;

verus! {

/// A quaternion `x·i + y·j + z·k + w`, of any length.
#[derive(Debug, Copy, Clone)]
pub struct Quaternion {
    pub x: Number,
    pub y: Number,
    pub z: Number,
    pub w: Number,
}

impl Quaternion {
    /// The rotation by no angle: `(0, 0, 0, 1)`.
    pub open spec fn identity_value() -> Quaternion {
        Quaternion {
            x: Number::zero_value(),
            y: Number::zero_value(),
            z: Number::zero_value(),
            w: Number::one_value(),
        }
    }

    /// The rotation by `angle` radians about `axis`: the normalized axis times
    /// the sine of half the angle, with the cosine of half the angle as `w`.
    pub open spec fn axis_angle(axis: Vector3<Number>, angle: Number) -> Quaternion {
        let unit = axis.normalized();
        let half = Number::half_value().times(angle);
        Quaternion {
            x: unit.x.times(half.sine()),
            y: unit.y.times(half.sine()),
            z: unit.z.times(half.sine()),
            w: half.cosine(),
        }
    }

    /// The Hamilton product `self · other`: as a rotation, `other` first and
    /// `self` after it.
    pub open spec fn product(self, other: Quaternion) -> Quaternion {
        let (a, b) = (self, other);
        Quaternion {
            x: a.x.times(b.w).plus(a.y.times(b.z)).minus(a.z.times(b.y)).plus(a.w.times(b.x)),
            y: a.x.negated().times(b.z).plus(a.y.times(b.w)).plus(a.z.times(b.x)).plus(a.w.times(b.y)),
            z: a.x.times(b.y).minus(a.y.times(b.x)).plus(a.z.times(b.w)).plus(a.w.times(b.z)),
            w: a.x.negated().times(b.x).minus(a.y.times(b.y)).minus(a.z.times(b.z)).plus(a.w.times(b.w)),
        }
    }

    /// Each component times `n`.
    pub open spec fn scaled(self, n: Number) -> Quaternion {
        Quaternion { x: self.x.times(n), y: self.y.times(n), z: self.z.times(n), w: self.w.times(n) }
    }

    /// The square root of the sum of the squared components.
    pub open spec fn norm(self) -> Number {
        self.x.times(self.x).plus(self.y.times(self.y)).plus(self.z.times(self.z)).plus(
            self.w.times(self.w),
        ).root()
    }

    /// The quaternion over its norm; the identity where the norm is zero.
    pub open spec fn normalized(self) -> Quaternion {
        if self.norm().same_value(Number::zero_value()) {
            Quaternion::identity_value()
        } else {
            Quaternion {
                x: self.x.over(self.norm()),
                y: self.y.over(self.norm()),
                z: self.z.over(self.norm()),
                w: self.w.over(self.norm()),
            }
        }
    }

    /// Whether all four components are zeros.
    pub open spec fn is_zero(self) -> bool {
        self.x.is_zero() && self.y.is_zero() && self.z.is_zero() && self.w.is_zero()
    }

    /// Componentwise numeric equality.
    pub open spec fn same_value(self, other: Quaternion) -> bool {
        &&& self.x.same_value(other.x)
        &&& self.y.same_value(other.y)
        &&& self.z.same_value(other.z)
        &&& self.w.same_value(other.w)
    }

    pub fn new(x: Number, y: Number, z: Number, w: Number) -> (r: Quaternion)
        ensures
            r == (Quaternion { x, y, z, w }),
    {
        Quaternion { x, y, z, w }
    }

    pub fn identity() -> (r: Quaternion)
        ensures
            r == Quaternion::identity_value(),
    {
        Quaternion { x: Number::zero(), y: Number::zero(), z: Number::zero(), w: Number::one() }
    }

    pub fn from_axis_angle(axis: Vector3<Number>, angle: Number) -> (r: Quaternion)
        ensures
            r == Quaternion::axis_angle(axis, angle),
    {
        let axis = axis.normalize();
        let half_angle = Number::half() * angle;
        let s = half_angle.sine_value();
        Quaternion { x: axis.x * s, y: axis.y * s, z: axis.z * s, w: half_angle.cosine_value() }
    }

    pub fn multiply(self, other: Quaternion) -> (r: Quaternion)
        ensures
            r == self.product(other),
    {
        let (q1, q2) = (self, other);
        let x = q1.x * q2.w + q1.y * q2.z - q1.z * q2.y + q1.w * q2.x;
        let y = q1.x.negate() * q2.z + q1.y * q2.w + q1.z * q2.x + q1.w * q2.y;
        let z = q1.x * q2.y - q1.y * q2.x + q1.z * q2.w + q1.w * q2.z;
        let w = q1.x.negate() * q2.x - q1.y * q2.y - q1.z * q2.z + q1.w * q2.w;
        Quaternion { x, y, z, w }
    }

    /// `other · self`.
    pub fn premultiply(self, other: Quaternion) -> (r: Quaternion)
        ensures
            r == other.product(self),
    {
        other.multiply(self)
    }

    pub fn multipy_scalar(self, n: Number) -> (r: Quaternion)
        ensures
            r == self.scaled(n),
    {
        let Quaternion { x, y, z, w } = self;
        Quaternion::new(x * n, y * n, z * n, w * n)
    }

    /// The norm.  That of the zero quaternion is a zero.
    pub fn length(self) -> (r: Number)
        ensures
            r == self.norm(),
            self.is_zero() ==> r.is_zero(),
    {
        let Quaternion { x, y, z, w } = self;
        let xx = Number::mul(x, x);
        let yy = Number::mul(y, y);
        let zz = Number::mul(z, z);
        let ww = Number::mul(w, w);
        let first = Number::add(xx, yy);
        let second = Number::add(first, zz);
        let sum = Number::add(second, ww);
        proof {
            if self.is_zero() {
                lemma_same_as_zero(first, xx);
                lemma_same_as_zero(second, first);
                lemma_same_as_zero(sum, second);
            }
        }
        sum.square_root()
    }

    /// The quaternion over its norm; the identity where the norm is zero,
    /// as that of the zero quaternion is.
    pub fn normalize(self) -> (r: Quaternion)
        ensures
            r == self.normalized(),
            self.is_zero() ==> r == Quaternion::identity_value(),
    {
        let length = self.length();
        if length.equals(&Number::zero()) {
            Quaternion::identity()
        } else {
            Quaternion {
                x: self.x / length,
                y: self.y / length,
                z: self.z / length,
                w: self.w / length,
            }
        }
    }

    /// Componentwise numeric equality.
    pub fn equals(&self, other: &Quaternion) -> (r: bool)
        ensures
            r == self.same_value(*other),
    {
        self.x.equals(&other.x) && self.y.equals(&other.y) && self.z.equals(&other.z) && self.w.equals(
            &other.w,
        )
    }
}

impl Default for Quaternion {
    fn default() -> (r: Quaternion)
        ensures
            r == Quaternion::identity_value(),
    {
        Quaternion::identity()
    }
}

impl MulSpecImpl for Quaternion {
    open spec fn obeys_mul_spec() -> bool {
        true
    }

    open spec fn mul_req(self, rhs: Quaternion) -> bool {
        true
    }

    open spec fn mul_spec(self, rhs: Quaternion) -> Quaternion {
        self.product(rhs)
    }
}

impl Mul for Quaternion {
    type Output = Quaternion;

    fn mul(self, rhs: Quaternion) -> (r: Quaternion) {
        self.multiply(rhs)
    }
}

} // verus!
