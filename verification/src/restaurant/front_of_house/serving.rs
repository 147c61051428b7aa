//! Taking and delivering orders. The functions stand for the work;
//! their bodies are deliberately empty, the module tree being the
//! point.

use vstd::prelude::*;

verus! {

/// Write down what a table wants.
pub fn take_order() {
}

/// Bring the food out.
pub fn serve_order() {
}

/// Settle the bill.
pub fn take_payment() {
}

} // verus!
