//! The three coordinate axes.

use vstd::prelude::*;
use crate::math::matrix3::triple;
use crate::math::vector3::Vector3;
use crate::number::Number;

verus! {

pub open spec fn x_axis_value() -> Vector3<Number> {
    triple(Number::one_value(), Number::zero_value(), Number::zero_value())
}

pub open spec fn y_axis_value() -> Vector3<Number> {
    triple(Number::zero_value(), Number::one_value(), Number::zero_value())
}

pub open spec fn z_axis_value() -> Vector3<Number> {
    triple(Number::zero_value(), Number::zero_value(), Number::one_value())
}

/// The unit vector along x.
pub fn x_axis() -> (r: Vector3<Number>)
    ensures
        r == x_axis_value(),
{
    Vector3::new(Number::one(), Number::zero(), Number::zero())
}

/// The unit vector along y.
pub fn y_axis() -> (r: Vector3<Number>)
    ensures
        r == y_axis_value(),
{
    Vector3::new(Number::zero(), Number::one(), Number::zero())
}

/// The unit vector along z.
pub fn z_axis() -> (r: Vector3<Number>)
    ensures
        r == z_axis_value(),
{
    Vector3::new(Number::zero(), Number::zero(), Number::one())
}

} // verus!
