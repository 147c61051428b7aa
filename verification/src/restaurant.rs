//! The restaurant module tree: front of house and back of house as
//! child modules, a public function calling into them by absolute and
//! relative path, and a re-export shortening the hosting path for
//! callers.

pub mod back_of_house;
pub mod front_of_house;

pub use crate::restaurant::front_of_house::hosting;

use vstd::prelude::*;

verus! {

/// Hand a finished order to its table; the body is deliberately
/// empty.
pub fn deliver_order() {
}

/// Reach the waitlist twice: once by absolute path from the crate
/// root, once by path relative to this module.
pub fn eat_at_restaurant() {
    crate::restaurant::front_of_house::hosting::add_to_waitlist();
    front_of_house::hosting::add_to_waitlist();
}

} // verus!
