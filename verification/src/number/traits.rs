//! The capabilities that quantities and vectors ask of a scalar.
//!
//! Each capability pairs an executable method with the spec function that
//! says what it returns, so that generic code can be verified against it.

use vstd::prelude::*;
use vstd::std_specs::cmp::PartialOrdSpec;
use vstd::std_specs::ops::SubSpec;
use core::cmp::Ordering;
use core::ops::Sub;
use crate::number::{decimal, Number};

verus! {

/// A type with a zero.
pub trait Zero: Sized {
    spec fn zero_spec() -> Self;

    fn zero() -> (r: Self)
        ensures
            r == Self::zero_spec(),
    ;
}

/// A type with a one.
pub trait One: Sized {
    spec fn one_spec() -> Self;

    fn one() -> (r: Self)
        ensures
            r == Self::one_spec(),
    ;
}

/// A type with a square root, possibly of another type.
pub trait Sqrt: Sized {
    type Output;

    spec fn sqrt_spec(self) -> Self::Output;

    fn sqrt(self) -> (r: Self::Output)
        ensures
            r == self.sqrt_spec(),
    ;
}

/// A type with an absolute value.
pub trait Abs: Sized {
    type Output;

    spec fn abs_spec(self) -> Self::Output;

    fn abs(self) -> (r: Self::Output)
        ensures
            r == self.abs_spec(),
    ;
}

/// The positive difference: zero where `self` is not above `other`.
pub trait AbsSub: Sized {
    type Output;

    spec fn abs_sub_req(self, other: Self) -> bool;

    spec fn abs_sub_spec(self, other: Self) -> Self::Output;

    fn abs_sub(self, other: Self) -> (r: Self::Output)
        requires
            self.abs_sub_req(other),
        ensures
            r == self.abs_sub_spec(other),
    ;
}

impl<T> AbsSub for T where T: Zero + PartialOrd + Sub<T, Output = T> {
    type Output = T;

    open spec fn abs_sub_req(self, other: T) -> bool {
        &&& T::obeys_partial_cmp_spec()
        &&& T::obeys_sub_spec()
        &&& self.sub_req(other)
    }

    open spec fn abs_sub_spec(self, other: T) -> T {
        if self.partial_cmp_spec(&other) matches Some(Ordering::Less | Ordering::Equal) {
            T::zero_spec()
        } else {
            self.sub_spec(other)
        }
    }

    fn abs_sub(self, other: T) -> (r: T) {
        if self.le(&other) {
            T::zero()
        } else {
            self - other
        }
    }
}

/// Equality up to a tolerance.
pub trait ApproxEq {
    spec fn approx_eq_spec(&self, rhs: &Self) -> bool;

    fn approx_eq(&self, rhs: &Self) -> (r: bool)
        ensures
            r == self.approx_eq_spec(rhs),
    ;
}

/// The trigonometric functions and their inverses.
pub trait Trig: Sized {
    type Output;

    spec fn hypot_spec(&self, other: Self) -> Self::Output;

    spec fn sin_spec(&self) -> Self::Output;

    spec fn cos_spec(&self) -> Self::Output;

    spec fn tan_spec(&self) -> Self::Output;

    spec fn asin_spec(&self) -> Self::Output;

    spec fn acos_spec(&self) -> Self::Output;

    spec fn atan_spec(&self) -> Self::Output;

    spec fn atan2_spec(&self, other: Self) -> Self::Output;

    spec fn sin_cos_spec(&self) -> (Self::Output, Self::Output);

    fn hypot(&self, other: Self) -> (r: Self::Output)
        ensures
            r == self.hypot_spec(other),
    ;

    fn sin(&self) -> (r: Self::Output)
        ensures
            r == self.sin_spec(),
    ;

    fn cos(&self) -> (r: Self::Output)
        ensures
            r == self.cos_spec(),
    ;

    fn tan(&self) -> (r: Self::Output)
        ensures
            r == self.tan_spec(),
    ;

    fn asin(&self) -> (r: Self::Output)
        ensures
            r == self.asin_spec(),
    ;

    fn acos(&self) -> (r: Self::Output)
        ensures
            r == self.acos_spec(),
    ;

    fn atan(&self) -> (r: Self::Output)
        ensures
            r == self.atan_spec(),
    ;

    fn atan2(&self, other: Self) -> (r: Self::Output)
        ensures
            r == self.atan2_spec(other),
    ;

    fn sin_cos(&self) -> (r: (Self::Output, Self::Output))
        ensures
            r == self.sin_cos_spec(),
    ;
}

/// The hyperbolic functions and their inverses.
pub trait Hyp {
    type Output;

    fn sinh(&self) -> Self::Output;

    fn cosh(&self) -> Self::Output;

    fn tanh(&self) -> Self::Output;

    fn asinh(&self) -> Self::Output;

    fn acosh(&self) -> Self::Output;

    fn atanh(&self) -> Self::Output;
}

impl Zero for Number {
    open spec fn zero_spec() -> Number {
        Number::zero_value()
    }

    fn zero() -> (r: Number) {
        Number::Finite { negative: false, digits: 0, scale: 0 }
    }
}

impl One for Number {
    open spec fn one_spec() -> Number {
        Number::one_value()
    }

    fn one() -> (r: Number) {
        Number::Finite { negative: false, digits: 1, scale: 0 }
    }
}

impl Sqrt for Number {
    type Output = Number;

    open spec fn sqrt_spec(self) -> Number {
        self.root()
    }

    fn sqrt(self) -> (r: Number) {
        self.square_root()
    }
}

impl Abs for Number {
    type Output = Number;

    open spec fn abs_spec(self) -> Number {
        self.magnitude()
    }

    fn abs(self) -> (r: Number) {
        self.absolute()
    }
}

impl ApproxEq for Number {
    open spec fn approx_eq_spec(&self, rhs: &Number) -> bool {
        self.close_to(*rhs)
    }

    fn approx_eq(&self, rhs: &Number) -> (r: bool) {
        if self.equals(rhs) {
            return true;
        }
        let gap = Number::sub(*self, *rhs).absolute();
        !Number::epsilon().less_than(&gap)
    }
}

impl Trig for Number {
    type Output = Number;

    open spec fn hypot_spec(&self, other: Number) -> Number {
        self.hypotenuse(other)
    }

    open spec fn sin_spec(&self) -> Number {
        self.sine()
    }

    open spec fn cos_spec(&self) -> Number {
        self.cosine()
    }

    open spec fn tan_spec(&self) -> Number {
        self.tangent()
    }

    open spec fn asin_spec(&self) -> Number {
        decimal::arcsine_of(*self)
    }

    open spec fn acos_spec(&self) -> Number {
        self.arccosine()
    }

    open spec fn atan_spec(&self) -> Number {
        decimal::arctangent_of(*self)
    }

    open spec fn atan2_spec(&self, other: Number) -> Number {
        self.arctangent2(other)
    }

    open spec fn sin_cos_spec(&self) -> (Number, Number) {
        self.sine_cosine()
    }

    fn hypot(&self, other: Number) -> (r: Number) {
        self.hypotenuse_value(&other)
    }

    fn sin(&self) -> (r: Number) {
        self.sine_value()
    }

    fn cos(&self) -> (r: Number) {
        self.cosine_value()
    }

    fn tan(&self) -> (r: Number) {
        self.tangent_value()
    }

    fn asin(&self) -> (r: Number) {
        decimal::asin(self)
    }

    fn acos(&self) -> (r: Number) {
        self.arccosine_value()
    }

    fn atan(&self) -> (r: Number) {
        decimal::atan(self)
    }

    fn atan2(&self, other: Number) -> (r: Number) {
        self.arctangent2_value(&other)
    }

    fn sin_cos(&self) -> (r: (Number, Number)) {
        self.sine_cosine_value()
    }
}

} // verus!
