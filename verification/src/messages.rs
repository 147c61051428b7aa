//! One enum whose variants carry no data, a named-field payload, a
//! single value, and a positional tuple — all grouped under one type.

use vstd::prelude::*;

verus! {

/// A message in any of its four shapes.
pub enum Message {
    Quit,
    Move { x: i32, y: i32 },
    Write(String),
    ChangeColor(i32, i32, i32),
}

impl Message {
    /// A method on the enum as a whole; the body is deliberately
    /// empty, the point being that one method serves every variant.
    pub fn call(&self) {
    }
}

} // verus!
