//! Handling an optional number, and the arms of a dice-roll match.

use vstd::prelude::*;

verus! {

/// Returns the successor of the number inside the option, if any.
pub fn plus_one(x: Option<i32>) -> (r: Option<i32>)
    requires
        x matches Some(i) ==> i < i32::MAX,
    ensures
        match x {
            None => r is None,
            Some(i) => r == Some((i + 1) as i32),
        },
{
    match x {
        None => None,
        Some(i) => Some(i + 1),
    }
}

/// One of the dice-roll outcomes; nothing to do.
pub fn add_fancy_hat() {
}

/// One of the dice-roll outcomes; nothing to do.
pub fn remove_fancy_hat() {
}

/// The catch-all dice-roll outcome; nothing to do.
pub fn reroll() {
}

} // verus!
