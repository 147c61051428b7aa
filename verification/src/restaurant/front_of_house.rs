//! Everything a customer sees: hosting and serving, as sibling child
//! modules.

pub mod hosting;
pub mod serving;
