//! The same computation with the dimensions grouped in a tuple.

use vstd::prelude::*;

verus! {

/// The area of a rectangle given as a (width, height) tuple.
pub fn area(dimensions: (u32, u32)) -> (a: u32)
    requires
        dimensions.0 * dimensions.1 <= u32::MAX,
    ensures
        a == dimensions.0 * dimensions.1,
{
    dimensions.0 * dimensions.1
}

} // verus!
