//! Whole-number conversion between the Fahrenheit and Celsius scales.
//!
//! Both directions use truncating integer division, so converting one way
//! and back does not always return to the starting value.

use vstd::prelude::*;

verus! {

/// Integer division that truncates toward zero, as Rust's `/` does,
/// stated for a positive divisor. (The spec-mode `/` is Euclidean, which
/// differs on negative dividends.)
pub open spec fn div_trunc(a: int, b: int) -> int {
    if a >= 0 {
        a / b
    } else {
        -((-a) / b)
    }
}

/// What the cold-to-hot conversion computes: `(c * 9 / 5) + 32`,
/// multiplication first, division truncating toward zero.
pub open spec fn spec_celsius_to_fahrenheit(celsius: int) -> int {
    div_trunc(celsius * 9, 5) + 32
}

/// What the hot-to-cold conversion computes: `(f - 32) * 5 / 9`,
/// subtraction first, division truncating toward zero.
pub open spec fn spec_fahrenheit_to_celsius(fahrenheit: int) -> int {
    div_trunc((fahrenheit - 32) * 5, 9)
}

/// Convert a whole-number Celsius temperature to Fahrenheit.
pub fn celsius_to_fahrenheit(celsius: i32) -> (fahrenheit: i32)
    requires
        i32::MIN <= celsius * 9 <= i32::MAX,
    ensures
        fahrenheit == spec_celsius_to_fahrenheit(celsius as int),
{
    (celsius * 9 / 5) + 32
}

/// Convert a whole-number Fahrenheit temperature to Celsius.
pub fn fahrenheit_to_celsius(fahrenheit: i32) -> (celsius: i32)
    requires
        i32::MIN <= (fahrenheit - 32) * 5 <= i32::MAX,
    ensures
        celsius == spec_fahrenheit_to_celsius(fahrenheit as int),
{
    (fahrenheit - 32) * 5 / 9
}

} // verus!
