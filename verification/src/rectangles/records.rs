//! The named-record form, with the area computation as a free function
//! and as a method, plus the comparison method and the square
//! constructor.

use vstd::prelude::*;

verus! {

/// A rectangle with named dimensions.
#[derive(Debug)]
pub struct Rectangle {
    pub width: u32,
    pub height: u32,
}

/// The area of a borrowed rectangle.
pub fn area(rectangle: &Rectangle) -> (a: u32)
    requires
        rectangle.width * rectangle.height <= u32::MAX,
    ensures
        a == rectangle.width * rectangle.height,
{
    rectangle.width * rectangle.height
}

impl Rectangle {
    /// The area of this rectangle.
    pub fn area(&self) -> (a: u32)
        requires
            self.width * self.height <= u32::MAX,
        ensures
            a == self.width * self.height,
    {
        self.width * self.height
    }

    /// Whether `other` fits strictly inside this rectangle, allowing
    /// for a quarter-turn rotation of `other`.
    pub fn can_hold(&self, other: &Rectangle) -> (fits: bool)
        ensures
            fits == ((self.width > other.width && self.height > other.height) || (self.width
                > other.height && self.height > other.width)),
    {
        (self.width > other.width && self.height > other.height) || (self.width > other.height
            && self.height > other.width)
    }

    /// A square of the given side length.
    pub fn square(size: u32) -> (square: Self)
        ensures
            square.width == size,
            square.height == size,
    {
        Self { width: size, height: size }
    }
}

} // verus!
