//! A record holding borrowed data, annotated with the validity
//! duration of what it borrows.

use vstd::prelude::*;

verus! {

/// A borrowed excerpt of a longer text.
pub struct ImportantExcerpt<'a> {
    pub part: &'a str,
}

impl<'a> ImportantExcerpt<'a> {
    /// The fixed level of any excerpt.
    pub fn level(&self) -> (level: i32)
        ensures
            level == 3,
    {
        3
    }
}

} // verus!
