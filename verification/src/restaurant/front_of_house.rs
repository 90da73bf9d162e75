//! The dining room's side of the restaurant.

pub mod hosting;
pub mod serving;
