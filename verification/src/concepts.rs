//! Function basics: a function whose body is a tail expression
//! returning a constant.

use vstd::prelude::*;

verus! {

/// Return the constant five; the bare tail expression is the return
/// value.
pub fn five() -> (n: i32)
    ensures
        n == 5,
{
    5
}

} // verus!
