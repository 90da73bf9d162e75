//! Waiting on the tables.

use vstd::prelude::*;

verus! {

/// Writes the order down; nothing to record.
pub fn take_order() {
}

/// Carries the order out; nothing to record.
pub fn serve_order() {
}

/// Settles the bill; nothing to record.
pub fn take_payment() {
}

} // verus!
