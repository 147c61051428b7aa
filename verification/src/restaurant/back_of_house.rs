//! The kitchen side: fixing an order reaches a sibling of this
//! module's parent through `super`.

use vstd::prelude::*;

verus! {

/// Remake a wrong dish, then hand it off through the parent module's
/// delivery function.
pub fn fix_incorrect_order() {
    cook_order();
    super::deliver_order();
}

/// Prepare a dish; the body is deliberately empty.
pub fn cook_order() {
}

} // verus!
