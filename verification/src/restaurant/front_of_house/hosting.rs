//! Greeting and seating the guests.

use vstd::prelude::*;

verus! {

/// Puts the party on the waitlist; the list itself lies beyond this exercise.
pub fn add_to_waitlist() {
}

/// Walks the party to a table; nothing to record.
pub fn seat_at_table() {
}

} // verus!
