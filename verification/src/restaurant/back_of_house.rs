//! The kitchen's side of the restaurant.

use vstd::prelude::*;

verus! {

/// A breakfast order; the customer picks the toast, the chef picks the
/// fruit that is in season.
pub struct Breakfast {
    pub toast: String,
    seasonal_fruit: String,
}

/// A starter; a soup names its kind.
pub enum Appetizer {
    Soup(String),
    Salad,
}

impl Breakfast {
    /// What toast the order carries; the rest of the plate stays the
    /// kitchen's business.
    pub closed spec fn spec_toast(&self) -> Seq<char> {
        self.toast@
    }

    /// Puts together the summer breakfast with the chosen toast.
    pub fn summer(toast: &str) -> (r: Breakfast)
        ensures
            r.spec_toast() == toast@,
    {
        Breakfast { toast: String::from_str(toast), seasonal_fruit: String::from_str("peaches") }
    }
}

} // verus!
