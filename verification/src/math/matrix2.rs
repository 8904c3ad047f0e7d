//! 2×2 matrices over plain numbers, held as two column vectors.

use vstd::prelude::*;
use crate::math::vector2::Vector2;
use crate::number::Number;

verus! {

/// A 2×2 matrix: the images of the two basis vectors, as columns.
#[derive(Debug, Copy, Clone)]
pub struct Matrix2 {
    pub x_axis: Vector2<Number>,
    pub y_axis: Vector2<Number>,
}

impl Matrix2 {
    /// The matrix with the given rows.
    pub open spec fn rows(row_1: Vector2<Number>, row_2: Vector2<Number>) -> Matrix2 {
        Matrix2 {
            x_axis: Vector2 { x: row_1.x, y: row_2.x },
            y_axis: Vector2 { x: row_1.y, y: row_2.y },
        }
    }

    /// The matrix with the given diagonal and zeros elsewhere.
    pub open spec fn diagonal(d: Vector2<Number>) -> Matrix2 {
        Matrix2 {
            x_axis: Vector2 { x: d.x, y: Number::zero_value() },
            y_axis: Vector2 { x: Number::zero_value(), y: d.y },
        }
    }

    pub open spec fn identity_value() -> Matrix2 {
        Matrix2::diagonal(Vector2 { x: Number::one_value(), y: Number::one_value() })
    }

    pub fn from_cols(x_axis: Vector2<Number>, y_axis: Vector2<Number>) -> (r: Matrix2)
        ensures
            r == (Matrix2 { x_axis, y_axis }),
    {
        Matrix2 { x_axis, y_axis }
    }

    pub fn from_rows(row_1: Vector2<Number>, row_2: Vector2<Number>) -> (r: Matrix2)
        ensures
            r == Matrix2::rows(row_1, row_2),
    {
        Matrix2 { x_axis: Vector2::new(row_1.x, row_2.x), y_axis: Vector2::new(row_1.y, row_2.y) }
    }

    pub fn from_diagonal(diagonal: Vector2<Number>) -> (r: Matrix2)
        ensures
            r == Matrix2::diagonal(diagonal),
    {
        Matrix2::from_rows(
            Vector2::new(diagonal.x, Number::zero()),
            Vector2::new(Number::zero(), diagonal.y),
        )
    }

    pub fn identity() -> (r: Matrix2)
        ensures
            r == Matrix2::identity_value(),
    {
        Matrix2::from_diagonal(Vector2::new(Number::one(), Number::one()))
    }
}

} // verus!
