//! Encoding a validity constraint into a wrapper type: a guess is
//! always between 1 and 100, established once by the constructor and
//! relied on ever after.

use vstd::prelude::*;

verus! {

/// A number guessed in the guessing game, guaranteed in range.
pub struct Guess {
    value: i32,
}

impl Guess {
    /// The number this guess holds.
    pub closed spec fn spec_value(&self) -> int {
        self.value as int
    }

    /// The constraint the constructor establishes and no method ever
    /// breaks.
    pub closed spec fn is_valid(&self) -> bool {
        1 <= self.value <= 100
    }

    /// Wrap a value as a guess. A value out of range is excluded by
    /// the precondition, so no run-time abort is ever needed.
    pub fn new(value: i32) -> (guess: Guess)
        requires
            1 <= value <= 100,
        ensures
            guess.spec_value() == value,
            guess.is_valid(),
    {
        Guess { value }
    }

    /// The getter for the private field. A guess built by `new` also
    /// hands its range guarantee on to the caller.
    pub fn value(&self) -> (value: i32)
        ensures
            value == self.spec_value(),
            self.is_valid() ==> 1 <= value <= 100,
    {
        self.value
    }
}

} // verus!
