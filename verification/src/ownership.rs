//! Borrowing and slices: finding the first word of a text by scanning
//! its bytes for a space.

use vstd::prelude::*;
use vstd::slice::slice_index_get;
use vstd::string::StringSliceAdditionalSpecFns;
use vstd::utf8::encode_utf8;

verus! {

/// The byte index just past the first word of `s`: the index of the
/// first space byte, or the byte length when no space occurs.
pub fn first_word(s: &String) -> (i: usize)
    ensures
        ({
            let bytes = encode_utf8(s@);
            &&& i <= bytes.len()
            &&& forall|j: int| 0 <= j < i ==> bytes[j] != 32
            &&& i < bytes.len() ==> bytes[i as int] == 32
        }),
{
    let bytes: &[u8] = s.as_str().as_bytes();
    let mut i: usize = 0;
    while i < bytes.len()
        invariant
            i <= bytes@.len(),
            bytes@ == encode_utf8(s@),
            forall|j: int| 0 <= j < i ==> bytes@[j] != 32,
        decreases bytes@.len() - i,
    {
        if *slice_index_get(bytes, i) == 32 {
            return i;
        }
        i = i + 1;
    }
    i
}

} // verus!
