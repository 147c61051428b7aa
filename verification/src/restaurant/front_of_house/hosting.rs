//! Greeting and seating customers. The functions stand for the work;
//! their bodies are deliberately empty, the module tree being the
//! point.

use vstd::prelude::*;

verus! {

/// Put a waiting party on the list.
pub fn add_to_waitlist() {
}

/// Walk a party to its table.
pub fn seat_at_table() {
}

} // verus!
