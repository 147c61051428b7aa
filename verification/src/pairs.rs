//! A generic pair with an unconditional constructor. For member types
//! that can be displayed and ordered, the larger member can also be
//! compared and printed; printing is outside this library.

use vstd::prelude::*;

verus! {

/// Two values of one type.
pub struct Pair<T> {
    pub x: T,
    pub y: T,
}

impl<T> Pair<T> {
    /// Pair two values.
    pub fn new(x: T, y: T) -> (pair: Self)
        ensures
            pair.x == x,
            pair.y == y,
    {
        Self { x, y }
    }
}

} // verus!
