//! Moving, borrowing, and handing values back.

use vstd::prelude::*;
use vstd::utf8::encode_utf8;

verus! {

/// Makes a string and hands its ownership to the caller.
pub fn gives_ownership() -> (r: String)
    ensures
        r@ == "yours"@,
{
    let some_string = String::from_str("yours");
    some_string
}

/// Takes ownership of a string and hands the very same string back.
pub fn takes_and_gives_back(a_string: String) -> (r: String)
    ensures
        r@ == a_string@,
{
    a_string
}

/// Reads the borrowed string's length in bytes, leaving the string with
/// its owner.
pub fn calculate_length(s: &String) -> (r: usize)
    ensures
        r == encode_utf8(s@).len() as usize,
{
    s.as_str().len()
}

/// Borrows the string immutably; nothing about it can change.
pub fn modify_reference(_s: &String) {
}

/// Appends through a mutable borrow; the caller sees the longer string.
pub fn modify_mutable_reference(s: &mut String)
    ensures
        final(s)@ == old(s)@ + ", World"@,
{
    s.append(", World");
}

} // verus!
