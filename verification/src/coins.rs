//! Coins and their value in cents.

use vstd::prelude::*;

verus! {

/// The states a quarter may come from.
#[derive(Debug)]
pub enum UsState {
    Alabama,
    Alaska,
}

/// An American coin.
pub enum Coin {
    Penny,
    Nickel,
    Dime,
    Quarter(UsState),
}

/// The worth of each coin, in cents.
pub open spec fn coin_value(coin: Coin) -> u8 {
    match coin {
        Coin::Penny => 1,
        Coin::Nickel => 5,
        Coin::Dime => 10,
        Coin::Quarter(_) => 25,
    }
}

/// Returns how many cents the given coin is worth.
pub fn value_in_cents(coin: Coin) -> (r: u8)
    ensures
        r == coin_value(coin),
{
    match coin {
        Coin::Penny => 1,
        Coin::Nickel => 5,
        Coin::Dime => 10,
        Coin::Quarter(_state) => 25,
    }
}

} // verus!
