//! Small arithmetic helpers.

use vstd::prelude::*;

verus! {

/// Adds two numbers.
pub fn add(left: usize, right: usize) -> (r: usize)
    requires
        left + right <= usize::MAX,
    ensures
        r == left + right,
{
    left + right
}

/// Adds two to the given number.
pub fn add_two(a: i32) -> (r: i32)
    requires
        a + 2 <= i32::MAX,
    ensures
        r == a + 2,
{
    a + 2
}

/// Returns the number five.
pub fn five() -> (r: i32)
    ensures
        r == 5,
{
    5
}

/// Returns the successor of the given number.
pub fn plus_one(x: i32) -> (r: i32)
    requires
        x < i32::MAX,
    ensures
        r == x + 1,
{
    x + 1
}

} // verus!
