//! Three-component vectors over any scalar: plain numbers, quantities or
//! machine integers.
//!
//! The operations are generic in the scalar.  What an operator of the scalar
//! needs of its operands is asked of the components, and what it returns is
//! said with the scalar's own spec functions.

use vstd::prelude::*;
use vstd::std_specs::cmp::{PartialEqSpec, PartialEqSpecImpl};
use vstd::std_specs::ops::{AddSpec, DivSpec, MulSpec, SubSpec};
use core::ops::{Add, Div, Mul, Sub};
use crate::math::quaternion::Quaternion;
use crate::number::laws::{lemma_same_as_zero, lemma_zero_squared, lemma_zeros_add_to_zero};
use crate::number::{ApproxEq, Number, One, Sqrt};
use crate::unit::{Area, Dimension, Length};

verus! {

/// A vector of three components of one type.
#[derive(Debug, Copy, Clone, Default)]
pub struct Vector3<N> {
    pub x: N,
    pub y: N,
    pub z: N,
}

impl<N> Vector3<N> {
    pub fn new(x: N, y: N, z: N) -> (r: Vector3<N>)
        ensures
            r == (Vector3 { x, y, z }),
    {
        Vector3 { x, y, z }
    }
}

impl<N: PartialEq> PartialEqSpecImpl for Vector3<N> {
    open spec fn obeys_eq_spec() -> bool {
        N::obeys_eq_spec()
    }

    open spec fn eq_spec(&self, other: &Vector3<N>) -> bool {
        self.x.eq_spec(&other.x) && self.y.eq_spec(&other.y) && self.z.eq_spec(&other.z)
    }
}

impl<N: PartialEq> PartialEq for Vector3<N> {
    fn eq(&self, other: &Vector3<N>) -> (r: bool) {
        self.x == other.x && self.y == other.y && self.z == other.z
    }
}

impl<N> Vector3<N> where N: Add<N, Output = N> {
    /// The componentwise sum.
    pub open spec fn sum(self, rhs: Vector3<N>) -> Vector3<N> {
        Vector3 { x: self.x.add_spec(rhs.x), y: self.y.add_spec(rhs.y), z: self.z.add_spec(rhs.z) }
    }

    /// What the scalar's sum asks of the components.
    pub open spec fn sums(self, rhs: Vector3<N>) -> bool {
        self.x.add_req(rhs.x) && self.y.add_req(rhs.y) && self.z.add_req(rhs.z)
    }

    pub fn add_vector(self, rhs: Vector3<N>) -> (r: Vector3<N>)
        requires
            self.sums(rhs),
        ensures
            N::obeys_add_spec() ==> r == self.sum(rhs),
    {
        Vector3::new(self.x + rhs.x, self.y + rhs.y, self.z + rhs.z)
    }
}

impl<N> vstd::std_specs::ops::AddSpecImpl for Vector3<N> where N: Add<N, Output = N> {
    open spec fn obeys_add_spec() -> bool {
        N::obeys_add_spec()
    }

    open spec fn add_req(self, rhs: Vector3<N>) -> bool {
        self.sums(rhs)
    }

    open spec fn add_spec(self, rhs: Vector3<N>) -> Vector3<N> {
        self.sum(rhs)
    }
}

impl<N> Add for Vector3<N> where N: Add<N, Output = N> {
    type Output = Vector3<N>;

    fn add(self, rhs: Vector3<N>) -> (r: Vector3<N>) {
        self.add_vector(rhs)
    }
}

impl<N> Vector3<N> where N: Sub<N, Output = N> {
    /// The componentwise difference.
    pub open spec fn difference(self, rhs: Vector3<N>) -> Vector3<N> {
        Vector3 { x: self.x.sub_spec(rhs.x), y: self.y.sub_spec(rhs.y), z: self.z.sub_spec(rhs.z) }
    }

    /// What the scalar's difference asks of the components.
    pub open spec fn subtracts(self, rhs: Vector3<N>) -> bool {
        self.x.sub_req(rhs.x) && self.y.sub_req(rhs.y) && self.z.sub_req(rhs.z)
    }

    pub fn sub_vector(self, rhs: Vector3<N>) -> (r: Vector3<N>)
        requires
            self.subtracts(rhs),
        ensures
            N::obeys_sub_spec() ==> r == self.difference(rhs),
    {
        Vector3::new(self.x - rhs.x, self.y - rhs.y, self.z - rhs.z)
    }
}

impl<N> vstd::std_specs::ops::SubSpecImpl for Vector3<N> where N: Sub<N, Output = N> {
    open spec fn obeys_sub_spec() -> bool {
        N::obeys_sub_spec()
    }

    open spec fn sub_req(self, rhs: Vector3<N>) -> bool {
        self.subtracts(rhs)
    }

    open spec fn sub_spec(self, rhs: Vector3<N>) -> Vector3<N> {
        self.difference(rhs)
    }
}

impl<N> Sub for Vector3<N> where N: Sub<N, Output = N> {
    type Output = Vector3<N>;

    fn sub(self, rhs: Vector3<N>) -> (r: Vector3<N>) {
        self.sub_vector(rhs)
    }
}

impl<N> Vector3<N> where N: Mul<Number, Output = N> {
    /// Each component times `n`.
    pub open spec fn scaled(self, n: Number) -> Vector3<N> {
        Vector3 { x: self.x.mul_spec(n), y: self.y.mul_spec(n), z: self.z.mul_spec(n) }
    }

    /// What the scalar's product asks of the components.
    pub open spec fn scales(self, n: Number) -> bool {
        self.x.mul_req(n) && self.y.mul_req(n) && self.z.mul_req(n)
    }

    pub fn multiply_scalar(self, n: Number) -> (r: Vector3<N>)
        requires
            self.scales(n),
        ensures
            N::obeys_mul_spec() ==> r == self.scaled(n),
    {
        Vector3::new(self.x * n, self.y * n, self.z * n)
    }
}

impl<N> vstd::std_specs::ops::MulSpecImpl<Number> for Vector3<N> where N: Mul<Number, Output = N> {
    open spec fn obeys_mul_spec() -> bool {
        N::obeys_mul_spec()
    }

    open spec fn mul_req(self, rhs: Number) -> bool {
        self.scales(rhs)
    }

    open spec fn mul_spec(self, rhs: Number) -> Vector3<N> {
        self.scaled(rhs)
    }
}

impl<N> Mul<Number> for Vector3<N> where N: Mul<Number, Output = N> {
    type Output = Vector3<N>;

    fn mul(self, rhs: Number) -> (r: Vector3<N>) {
        self.multiply_scalar(rhs)
    }
}

impl<N> vstd::std_specs::ops::MulSpecImpl<Vector3<N>> for Number where N: Mul<Number, Output = N> {
    open spec fn obeys_mul_spec() -> bool {
        N::obeys_mul_spec()
    }

    open spec fn mul_req(self, rhs: Vector3<N>) -> bool {
        rhs.scales(self)
    }

    open spec fn mul_spec(self, rhs: Vector3<N>) -> Vector3<N> {
        rhs.scaled(self)
    }
}

impl<N> Mul<Vector3<N>> for Number where N: Mul<Number, Output = N> {
    type Output = Vector3<N>;

    fn mul(self, rhs: Vector3<N>) -> (r: Vector3<N>) {
        rhs.multiply_scalar(self)
    }
}

impl<N> Vector3<N> where N: Div<Number, Output = N> {
    /// Each component over `n`.
    pub open spec fn shrunk(self, n: Number) -> Vector3<N> {
        Vector3 { x: self.x.div_spec(n), y: self.y.div_spec(n), z: self.z.div_spec(n) }
    }

    /// What the scalar's quotient asks of the components.
    pub open spec fn shrinks(self, n: Number) -> bool {
        self.x.div_req(n) && self.y.div_req(n) && self.z.div_req(n)
    }

    pub fn divide_scalar(self, n: Number) -> (r: Vector3<N>)
        requires
            self.shrinks(n),
        ensures
            N::obeys_div_spec() ==> r == self.shrunk(n),
    {
        Vector3::new(self.x / n, self.y / n, self.z / n)
    }
}

impl<N> vstd::std_specs::ops::DivSpecImpl<Number> for Vector3<N> where N: Div<Number, Output = N> {
    open spec fn obeys_div_spec() -> bool {
        N::obeys_div_spec()
    }

    open spec fn div_req(self, rhs: Number) -> bool {
        self.shrinks(rhs)
    }

    open spec fn div_spec(self, rhs: Number) -> Vector3<N> {
        self.shrunk(rhs)
    }
}

impl<N> Div<Number> for Vector3<N> where N: Div<Number, Output = N> {
    type Output = Vector3<N>;

    fn div(self, rhs: Number) -> (r: Vector3<N>) {
        self.divide_scalar(rhs)
    }
}

impl<N> ApproxEq for Vector3<N> where N: ApproxEq {
    open spec fn approx_eq_spec(&self, rhs: &Vector3<N>) -> bool {
        self.x.approx_eq_spec(&rhs.x) && self.y.approx_eq_spec(&rhs.y) && self.z.approx_eq_spec(&rhs.z)
    }

    fn approx_eq(&self, rhs: &Vector3<N>) -> (r: bool) {
        self.x.approx_eq(&rhs.x) && self.y.approx_eq(&rhs.y) && self.z.approx_eq(&rhs.z)
    }
}

impl<A> Vector3<A> {
    /// The dot product: `x·x' + y·y' + z·z'`, summed from the left.
    pub open spec fn dot_spec<B>(self, other: Vector3<B>) -> <A as Mul<B>>::Output where
        A: Mul<B>,
        <A as Mul<B>>::Output: Add<Output = <A as Mul<B>>::Output>,
     {
        self.x.mul_spec(other.x).add_spec(self.y.mul_spec(other.y)).add_spec(self.z.mul_spec(other.z))
    }

    /// What the scalar's operators ask of the operands of a dot product.
    pub open spec fn dot_req<B>(self, other: Vector3<B>) -> bool where
        A: Mul<B>,
        <A as Mul<B>>::Output: Add<Output = <A as Mul<B>>::Output>,
     {
        &&& A::obeys_mul_spec()
        &&& <A as Mul<B>>::Output::obeys_add_spec()
        &&& self.x.mul_req(other.x)
        &&& self.y.mul_req(other.y)
        &&& self.z.mul_req(other.z)
        &&& self.x.mul_spec(other.x).add_req(self.y.mul_spec(other.y))
        &&& self.x.mul_spec(other.x).add_spec(self.y.mul_spec(other.y)).add_req(self.z.mul_spec(other.z))
    }

    pub fn dot<B>(&self, other: &Vector3<B>) -> (r: <A as Mul<B>>::Output) where
        B: Copy,
        A: Copy + Mul<B>,
        <A as Mul<B>>::Output: Add<Output = <A as Mul<B>>::Output>,

        requires
            self.dot_req(*other),
        ensures
            r == self.dot_spec(*other),
    {
        self.x * other.x + self.y * other.y + self.z * other.z
    }

    /// The cross product.
    pub open spec fn cross_spec<B>(self, other: Vector3<B>) -> Vector3<<A as Mul<B>>::Output> where
        A: Mul<B>,
        <A as Mul<B>>::Output: Sub<Output = <A as Mul<B>>::Output>,
     {
        Vector3 {
            x: self.y.mul_spec(other.z).sub_spec(self.z.mul_spec(other.y)),
            y: self.z.mul_spec(other.x).sub_spec(self.x.mul_spec(other.z)),
            z: self.x.mul_spec(other.y).sub_spec(self.y.mul_spec(other.x)),
        }
    }

    /// What the scalar's operators ask of the operands of a cross product.
    pub open spec fn cross_req<B>(self, other: Vector3<B>) -> bool where
        A: Mul<B>,
        <A as Mul<B>>::Output: Sub<Output = <A as Mul<B>>::Output>,
     {
        &&& A::obeys_mul_spec()
        &&& <A as Mul<B>>::Output::obeys_sub_spec()
        &&& self.y.mul_req(other.z)
        &&& self.z.mul_req(other.y)
        &&& self.z.mul_req(other.x)
        &&& self.x.mul_req(other.z)
        &&& self.x.mul_req(other.y)
        &&& self.y.mul_req(other.x)
        &&& self.y.mul_spec(other.z).sub_req(self.z.mul_spec(other.y))
        &&& self.z.mul_spec(other.x).sub_req(self.x.mul_spec(other.z))
        &&& self.x.mul_spec(other.y).sub_req(self.y.mul_spec(other.x))
    }

    pub fn cross<B>(&self, other: &Vector3<B>) -> (r: Vector3<<A as Mul<B>>::Output>) where
        B: Copy,
        A: Copy + Mul<B>,
        <A as Mul<B>>::Output: Sub<Output = <A as Mul<B>>::Output>,

        requires
            self.cross_req(*other),
        ensures
            r == self.cross_spec(*other),
    {
        Vector3::new(
            self.y * other.z - self.z * other.y,
            self.z * other.x - self.x * other.z,
            self.x * other.y - self.y * other.x,
        )
    }
}

impl<N> Vector3<N> where
    N: Copy + Add<Output = N> + Mul,
    <N as Mul>::Output: Add<Output = <N as Mul>::Output> + Sqrt<Output = N>,
 {
    /// The Euclidean length: the square root of the dot product with itself.
    pub open spec fn length_spec(self) -> N {
        self.dot_spec(self).sqrt_spec()
    }

    pub fn length(self) -> (r: N)
        requires
            self.dot_req(self),
        ensures
            r == self.length_spec(),
    {
        let Vector3 { x, y, z } = self;
        (x * x + y * y + z * z).sqrt()
    }
}

impl<N> Vector3<N> where
    N: Copy + Add<Output = N> + Mul + One + Div<N, Output = Number> + Div<Number, Output = N>,
    <N as Mul>::Output: Add<Output = <N as Mul>::Output> + Sqrt<Output = N>,
 {
    /// The length as a plain number: the length over the unit of the scalar.
    pub open spec fn plain_length(self) -> Number {
        DivSpec::<N>::div_spec(self.length_spec(), N::one_spec())
    }

    /// The vector over its length; the vector itself where its length is
    /// zero.
    pub open spec fn normalized(self) -> Vector3<N> {
        if self.plain_length().same_value(Number::zero_value()) {
            self
        } else {
            self.shrunk(self.plain_length())
        }
    }
}

impl<N> Vector3<N> where
    N: Copy + Add<N, Output = N> + Sub<N, Output = N>,
    Number: Mul<N, Output = N>,
 {
    /// Each component with `n` as the left factor.
    pub open spec fn weighted(self, n: Number) -> Vector3<N> {
        Vector3 { x: n.mul_spec(self.x), y: n.mul_spec(self.y), z: n.mul_spec(self.z) }
    }

    /// The vector turned by the rotation of `q`, which is brought to unit
    /// length first: `v + w·t + u × t` with `t = 2·(u × v)`, where `u` is the
    /// vector part of the unit quaternion and `w` its scalar part.
    pub open spec fn rotated(self, q: Quaternion) -> Vector3<N> {
        let unit = q.normalized();
        let u = Vector3 { x: unit.x, y: unit.y, z: unit.z };
        let t = u.cross_spec(self).weighted(Number::two_value());
        self.sum(t.weighted(unit.w)).sum(u.cross_spec(t))
    }

    /// What the scalar's operators ask of the components of a vector that
    /// is to be turned.
    pub open spec fn rotates() -> bool {
        &&& <Number as MulSpec<N>>::obeys_mul_spec()
        &&& <N as AddSpec<N>>::obeys_add_spec()
        &&& <N as SubSpec<N>>::obeys_sub_spec()
        &&& forall|m: Number, c: N| #[trigger] m.mul_req(c)
        &&& forall|a: N, b: N| #[trigger] a.add_req(b)
        &&& forall|a: N, b: N| #[trigger] a.sub_req(b)
    }

    fn weigh(self, n: Number) -> (r: Vector3<N>)
        requires
            Self::rotates(),
        ensures
            r == self.weighted(n),
    {
        Vector3::new(n * self.x, n * self.y, n * self.z)
    }

    pub fn multiply_quaternion(self, q: Quaternion) -> (r: Vector3<N>)
        requires
            Self::rotates(),
        ensures
            r == self.rotated(q),
    {
        let q = q.normalize();
        let q_xyz = Vector3::new(q.x, q.y, q.z);
        let t = q_xyz.cross(&self).weigh(Number::two());
        self.add_vector(t.weigh(q.w)).add_vector(q_xyz.cross(&t))
    }
}

/// The square root of `x² + y² + z²`, summed from the left.  Where all three
/// are zeros, so is the result.
fn root_of_squares(x: Number, y: Number, z: Number) -> (r: Number)
    ensures
        r == x.times(x).plus(y.times(y)).plus(z.times(z)).root(),
        x.is_zero() && y.is_zero() && z.is_zero() ==> r.is_zero(),
{
    let xx = Number::mul(x, x);
    let yy = Number::mul(y, y);
    let zz = Number::mul(z, z);
    let first = Number::add(xx, yy);
    let sum = Number::add(first, zz);
    proof {
        if x.is_zero() && y.is_zero() && z.is_zero() {
            lemma_same_as_zero(first, xx);
            lemma_same_as_zero(sum, first);
        }
    }
    sum.square_root()
}

impl Vector3<Number> {
    /// Whether all three components are zeros.
    pub open spec fn is_zero(self) -> bool {
        self.x.is_zero() && self.y.is_zero() && self.z.is_zero()
    }

    /// The vector of zeros has the length zero.
    pub proof fn law_zero_vector_has_no_length(self)
        requires
            self.is_zero(),
        ensures
            self.length_spec().is_zero(),
    {
        lemma_zero_squared(self.x);
        lemma_zero_squared(self.y);
        lemma_zero_squared(self.z);
        let first = self.x.times(self.x).plus(self.y.times(self.y));
        lemma_zeros_add_to_zero(self.x.times(self.x), self.y.times(self.y));
        lemma_zeros_add_to_zero(first, self.z.times(self.z));
    }

    /// The vector over its length; the vector itself where its length is
    /// zero, as that of the zero vector is.
    pub fn normalize(self) -> (r: Vector3<Number>)
        ensures
            r == self.normalized(),
            self.is_zero() ==> r == self,
    {
        let length = Number::div(root_of_squares(self.x, self.y, self.z), Number::one());
        if length.equals(&Number::zero()) {
            self
        } else {
            self.divide_scalar(length)
        }
    }
}

impl Vector3<Length> {
    /// Whether all three components are zero lengths.
    pub open spec fn is_zero(self) -> bool {
        self.x.raw().is_zero() && self.y.raw().is_zero() && self.z.raw().is_zero()
    }

    /// The vector over its length in metres; the vector itself where its
    /// length is zero, as that of the zero vector is.
    pub fn normalize(self) -> (r: Vector3<Length>)
        ensures
            r == self.normalized(),
            self.is_zero() ==> r == self,
    {
        broadcast use {Length::raw_of, Length::of_raw, Area::raw_of, Area::of_raw};

        let length = Number::div(
            root_of_squares(self.x.canonical(), self.y.canonical(), self.z.canonical()),
            Number::one(),
        );
        if length.equals(&Number::zero()) {
            self
        } else {
            self.divide_scalar(length)
        }
    }
}

} // verus!
