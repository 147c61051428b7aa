//! The backyard-garden example of a module chain: the crate root
//! reaches `Asparagus` through this module and its child.

pub mod vegetables;
