//! The same restaurant, reorganised: each service area is its own file,
//! re-exported for the callers' convenience.

pub mod hosting;
pub mod meals;
pub mod serving;

use vstd::prelude::*;

verus! {

/// Walks in: the host puts the party on the waitlist.
pub fn eat_at_restaurant() {
    hosting::add_to_waitlist();
}

/// The waiter carries the order out.
pub fn serve_customer() {
    serving::serve_order();
}

/// Orders the summer breakfast on wholemeal toast.
pub fn prepare_breakfast() -> (r: meals::Breakfast)
    ensures
        r.spec_toast() == "Wholemeal"@,
{
    meals::Breakfast::summer("Wholemeal")
}

} // verus!
