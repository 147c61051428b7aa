//! A record generic over two placeholder types, and a method mixing
//! coordinates from two differently-typed points.

use vstd::prelude::*;

verus! {

/// A point whose coordinates may have two different types.
pub struct Point<X1, Y1> {
    pub x: X1,
    pub y: Y1,
}

impl<X1, Y1> Point<X1, Y1> {
    /// Combine this point's x with another point's y, whatever the
    /// other point's types.
    pub fn mixup<X2, Y2>(self, other: Point<X2, Y2>) -> (mixed: Point<X1, Y2>)
        ensures
            mixed.x == self.x,
            mixed.y == other.y,
    {
        Point { x: self.x, y: other.y }
    }
}

} // verus!
