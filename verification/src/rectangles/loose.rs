//! The most naive form: width and height as two unrelated values.

use vstd::prelude::*;

verus! {

/// The area of a rectangle given as two loose dimensions.
pub fn area(width: u32, height: u32) -> (a: u32)
    requires
        width * height <= u32::MAX,
    ensures
        a == width * height,
{
    width * height
}

} // verus!
