//! A restaurant, laid out as nested modules for its front and back of house.

pub mod back_of_house;
pub mod front_of_house;

pub use back_of_house::Appetizer;

use vstd::prelude::*;

verus! {

/// Walks in and joins the waitlist, reaching the host along the absolute
/// path once and along the relative path twice.
pub fn eat_at_restaurant() {
    crate::restaurant::front_of_house::hosting::add_to_waitlist();
    front_of_house::hosting::add_to_waitlist();
    front_of_house::hosting::add_to_waitlist();
}

} // verus!
