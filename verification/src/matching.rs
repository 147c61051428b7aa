//! Matching on an optional value, and the catch-all arms of the
//! dice-roll example.

use vstd::prelude::*;

verus! {

/// Add one inside the optional: `None` stays `None`.
pub fn plus_one(x: Option<i32>) -> (incremented: Option<i32>)
    requires
        match x {
            Some(i) => i < i32::MAX,
            None => true,
        },
    ensures
        match x {
            Some(i) => incremented == Some((i + 1) as i32),
            None => incremented is None,
        },
{
    match x {
        None => None,
        Some(i) => Some(i + 1),
    }
}

/// The reward on rolling a three.
pub fn add_fancy_hat() {
}

/// The penalty on rolling a seven.
pub fn remove_fancy_hat() {
}

/// What any other roll does: the catch-all arm binds the roll and
/// passes it here.
pub fn move_player(num_spaces: u8) {
}

/// What a wildcard arm does instead: no value is bound.
pub fn reroll() {
}

} // verus!
