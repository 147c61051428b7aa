//! The vegetable the garden grows.

use vstd::prelude::*;

verus! {

/// A marker record with no fields.
#[derive(Debug)]
pub struct Asparagus {}

} // verus!
