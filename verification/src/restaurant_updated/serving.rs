//! Waiting on the tables.

use vstd::prelude::*;

verus! {

/// Carries the order out; nothing to record.
pub fn serve_order() {
}

} // verus!
