//! The contrasting constraint form: one shared placeholder type for
//! both parameters, so the two items must have the same type.

use crate::summaries::Summary;
use vstd::prelude::*;

verus! {

/// Take two summarizable items of one and the same type.
pub fn notify<T: Summary>(item1: &T, item2: &T) {
}

} // verus!
