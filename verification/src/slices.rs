//! A non-owning view into text: the first word of a slice, returned
//! as a slice of the same text so it can never outlive it.

use vstd::prelude::*;
use vstd::string::StrSliceExecFns;

verus! {

/// The leading run of non-space characters of `s`: everything before
/// the first space, or all of `s` when no space occurs.
pub fn first_word<'a>(s: &'a str) -> (word: &'a str)
    ensures
        word@.len() <= s@.len(),
        word@ == s@.subrange(0, word@.len() as int),
        forall|j: int| 0 <= j < word@.len() ==> s@[j] != ' ',
        word@.len() < s@.len() ==> s@[word@.len() as int] == ' ',
{
    let n = s.unicode_len();
    let mut i: usize = 0;
    while i < n
        invariant
            i <= n,
            n == s@.len(),
            forall|j: int| 0 <= j < i ==> s@[j] != ' ',
        decreases n - i,
    {
        if s.get_char(i) == ' ' {
            return s.substring_char(0, i);
        }
        i = i + 1;
    }
    s
}

} // verus!
