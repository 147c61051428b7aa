//! Returning the longer of two borrowed text slices, with one named
//! validity duration relating both parameters to the result.

use vstd::prelude::*;
use vstd::string::StringSliceAdditionalSpecFns;

verus! {

/// The longer of the two slices, measured in bytes; ties go to the
/// second.
pub fn longest<'a>(x: &'a str, y: &'a str) -> (longer: &'a str)
    ensures
        x.spec_bytes().len() > y.spec_bytes().len() ==> longer@ == x@,
        x.spec_bytes().len() <= y.spec_bytes().len() ==> longer@ == y@,
{
    if x.as_bytes().len() > y.as_bytes().len() {
        x
    } else {
        y
    }
}

} // verus!
