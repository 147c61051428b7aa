//! The rectangle-area computation, refactored three ways: loose
//! variables, a tuple, and a named record with methods.

pub mod loose;
pub mod records;
pub mod tupled;
