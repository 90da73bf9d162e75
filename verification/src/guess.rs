//! A guess in a number-guessing game, kept within 1..=100 by construction.

use rand::Rng;
use vstd::prelude::*;

verus! {

/// A number between 1 and 100, inclusive.
#[derive(Debug, PartialEq, Eq, PartialOrd, Ord)]
pub struct Guess {
    value: i32,
}

/// What a guess is in relation to the invariant its constructor keeps.
pub open spec fn guess_in_range(value: i32) -> bool {
    1 <= value <= 100
}

/// Relies on rand::Rng::gen_range on an inclusive range: it returns a
/// value of the range, and panics only when the range is empty.
#[verifier::external_body]
fn random_in_range(low: i32, high: i32) -> (r: i32)
    requires
        low <= high,
    ensures
        low <= r <= high,
{
    rand::thread_rng().gen_range(low..=high)
}

impl Guess {
    /// The number a guess holds; constructors keep it between 1 and 100.
    pub closed spec fn spec_value(&self) -> i32 {
        self.value
    }

    /// Wraps a value, which must lie between 1 and 100 inclusive.
    pub fn new(value: i32) -> (r: Guess)
        requires
            guess_in_range(value),
        ensures
            r.spec_value() == value,
    {
        Guess { value }
    }

    /// The wrapped value.
    pub fn value(&self) -> (r: i32)
        ensures
            r == self.spec_value(),
    {
        self.value
    }

    /// Draws a fresh secret guess; whatever number comes back lies in range.
    pub fn random() -> (r: Guess)
        ensures
            guess_in_range(r.spec_value()),
    {
        Guess::new(random_in_range(1, 100))
    }
}

} // verus!
