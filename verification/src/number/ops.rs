//! The arithmetic operators on numbers.

use vstd::prelude::*;
use vstd::std_specs::ops::{AddSpecImpl, DivSpecImpl, MulSpecImpl, NegSpecImpl, SubSpecImpl};
use core::ops::{Add, Div, Mul, Neg, Sub};
use crate::number::Number;

verus! {

impl AddSpecImpl for Number {
    open spec fn obeys_add_spec() -> bool {
        true
    }

    open spec fn add_req(self, rhs: Number) -> bool {
        true
    }

    open spec fn add_spec(self, rhs: Number) -> Number {
        self.plus(rhs)
    }
}

impl Add for Number {
    type Output = Number;

    fn add(self, rhs: Number) -> (r: Number) {
        Number::add(self, rhs)
    }
}

impl SubSpecImpl for Number {
    open spec fn obeys_sub_spec() -> bool {
        true
    }

    open spec fn sub_req(self, rhs: Number) -> bool {
        true
    }

    open spec fn sub_spec(self, rhs: Number) -> Number {
        self.minus(rhs)
    }
}

impl Sub for Number {
    type Output = Number;

    fn sub(self, rhs: Number) -> (r: Number) {
        Number::sub(self, rhs)
    }
}

impl MulSpecImpl for Number {
    open spec fn obeys_mul_spec() -> bool {
        true
    }

    open spec fn mul_req(self, rhs: Number) -> bool {
        true
    }

    open spec fn mul_spec(self, rhs: Number) -> Number {
        self.times(rhs)
    }
}

impl Mul for Number {
    type Output = Number;

    fn mul(self, rhs: Number) -> (r: Number) {
        Number::mul(self, rhs)
    }
}

impl DivSpecImpl for Number {
    open spec fn obeys_div_spec() -> bool {
        true
    }

    open spec fn div_req(self, rhs: Number) -> bool {
        true
    }

    open spec fn div_spec(self, rhs: Number) -> Number {
        self.over(rhs)
    }
}

impl Div for Number {
    type Output = Number;

    fn div(self, rhs: Number) -> (r: Number) {
        Number::div(self, rhs)
    }
}

impl NegSpecImpl for Number {
    open spec fn obeys_neg_spec() -> bool {
        true
    }

    open spec fn neg_req(self) -> bool {
        true
    }

    open spec fn neg_spec(self) -> Number {
        self.negated()
    }
}

impl Neg for Number {
    type Output = Number;

    fn neg(self) -> (r: Number) {
        self.negate()
    }
}

} // verus!
