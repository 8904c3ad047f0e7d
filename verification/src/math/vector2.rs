//! Two-component vectors.

use vstd::prelude::*;

verus! {

/// A vector of two components of one type.
#[derive(Debug, Copy, Clone, Default)]
pub struct Vector2<N> {
    pub x: N,
    pub y: N,
}

impl<N> Vector2<N> {
    pub fn new(x: N, y: N) -> (r: Vector2<N>)
        ensures
            r.x == x,
            r.y == y,
    {
        Vector2 { x, y }
    }
}

} // verus!
