//! A small library of classic introductory Rust exercises, with each
//! function's behaviour pinned down by a contract and verified.

pub mod arithmetic;
pub mod coins;
pub mod colors;
pub mod config;
pub mod cons_list;
pub mod files;
pub mod greetings;
pub mod guess;
pub mod inventory;
pub mod largest;
pub mod lifetimes;
pub mod options;
pub mod ownership;
pub mod rectangles;
pub mod restaurant;
pub mod restaurant_updated;
pub mod shoes;
pub mod slices;
pub mod summaries;
pub mod users;
