//! Affine transforms of the plane.

use vstd::prelude::*;
use crate::math::matrix2::Matrix2;
use crate::math::vector2::Vector2;
use crate::number::{Number, Zero};

verus! {

/// A linear map of the plane followed by a translation.
#[derive(Debug, Copy, Clone)]
pub struct Affine2<N> {
    pub matrix2: Matrix2,
    pub translation: Vector2<N>,
}

impl<N> Affine2<N> where N: Zero {
    /// The scaling by `scale`, without translation.
    pub open spec fn scaling(scale: Vector2<Number>) -> Affine2<N> {
        Affine2 {
            matrix2: Matrix2::diagonal(scale),
            translation: Vector2 { x: N::zero_spec(), y: N::zero_spec() },
        }
    }

    pub fn from_scale(scale: Vector2<Number>) -> (r: Affine2<N>)
        ensures
            r == Affine2::<N>::scaling(scale),
    {
        Affine2 { matrix2: Matrix2::from_diagonal(scale), translation: Vector2::new(N::zero(), N::zero()) }
    }

    pub fn identity() -> (r: Affine2<N>)
        ensures
            r == Affine2::<N>::scaling(Vector2 { x: Number::one_value(), y: Number::one_value() }),
    {
        Affine2::from_scale(Vector2::new(Number::one(), Number::one()))
    }
}

} // verus!
