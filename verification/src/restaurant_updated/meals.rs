//! What the kitchen can put on a plate.

use vstd::prelude::*;

verus! {

/// A starter; a soup names its kind.
pub enum Appetizer {
    Soup(String),
    Salad,
}

/// A breakfast order; the customer picks the toast, the chef picks the
/// fruit that is in season.
pub struct Breakfast {
    pub toast: String,
    _seasonal_fruit: String,
}

impl Breakfast {
    /// What toast the order carries; the rest of the plate stays the
    /// kitchen's business.
    pub closed spec fn spec_toast(&self) -> Seq<char> {
        self.toast@
    }

    /// Puts together the summer breakfast with the chosen toast.
    pub fn summer(toast: &str) -> (r: Breakfast)
        ensures
            r.spec_toast() == toast@,
    {
        Breakfast { toast: String::from_str(toast), _seasonal_fruit: String::from_str("peaches") }
    }
}

} // verus!
