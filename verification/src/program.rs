//! The demonstration run: the three computed lines for the fixed
//! literal inputs (Celsius 44, Fahrenheit 91, sequence position 10),
//! followed by the complete verse output.
//!
//! Everything printable is produced here as plain lines; writing them
//! to the console is left to the caller.

use crate::carol::{carol_lines, spec_carol_lines};
use crate::decimal::{decimal_string, spec_decimal};
use crate::fibonacci::{nth_fib, spec_nth_fib};
use crate::temperature::{
    celsius_to_fahrenheit, fahrenheit_to_celsius, spec_celsius_to_fahrenheit,
    spec_fahrenheit_to_celsius,
};
use vstd::prelude::*;
use vstd::string::StringExecFns;

verus! {

/// Every line the demonstration prints, in order: the two labelled
/// conversion results, the labelled sequence term, then the verses.
pub open spec fn spec_program_lines() -> Seq<Seq<char>> {
    seq![
        spec_decimal(44) + "c to f: "@ + spec_decimal(spec_celsius_to_fahrenheit(44) as nat),
        spec_decimal(91) + "f to c: "@ + spec_decimal(spec_fahrenheit_to_celsius(91) as nat),
        "The "@ + spec_decimal(10) + "th fibonacci number is: "@ + spec_decimal(spec_nth_fib(10)),
    ] + spec_carol_lines()
}

/// The demonstration prints its three labelled results and then the
/// 88 verse lines: 91 lines in all, with nothing after them.
pub proof fn lemma_program_line_count()
    ensures
        spec_program_lines().len() == 91,
{
    crate::carol::lemma_carol_line_count();
}

/// Run the whole demonstration on its fixed inputs and return the
/// lines it would print.
pub fn program_lines() -> (lines: Vec<String>)
    ensures
        lines@.len() == spec_program_lines().len(),
        forall|i: int| 0 <= i < lines@.len() ==> lines@[i]@ == spec_program_lines()[i],
{
    let celsius: i32 = 44;
    let fahrenheit: i32 = 91;
    let n: u32 = 10;

    let converted_f = celsius_to_fahrenheit(celsius);
    let converted_c = fahrenheit_to_celsius(fahrenheit);
    proof {
        assert(spec_celsius_to_fahrenheit(44) == 111);
        assert(spec_fahrenheit_to_celsius(91) == 32);
        reveal_with_fuel(crate::fibonacci::fib, 12);
        assert(spec_nth_fib(10) == 34);
    }
    let term = nth_fib(n);

    let mut first = decimal_string(celsius as u32);
    first.append("c to f: ");
    let f_digits = decimal_string(converted_f as u32);
    first.append(f_digits.as_str());

    let mut second = decimal_string(fahrenheit as u32);
    second.append("f to c: ");
    let c_digits = decimal_string(converted_c as u32);
    second.append(c_digits.as_str());

    let mut third = String::from_str("The ");
    let n_digits = decimal_string(n);
    third.append(n_digits.as_str());
    third.append("th fibonacci number is: ");
    let term_digits = decimal_string(term);
    third.append(term_digits.as_str());

    let mut lines: Vec<String> = Vec::new();
    proof {
        assert(first@ =~= spec_program_lines()[0]);
        assert(second@ =~= spec_program_lines()[1]);
        assert(third@ =~= spec_program_lines()[2]);
    }
    lines.push(first);
    lines.push(second);
    lines.push(third);
    let mut verses = carol_lines();
    lines.append(&mut verses);
    lines
}

} // verus!
