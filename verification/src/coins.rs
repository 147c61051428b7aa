//! A closed set of coin variants and an exhaustive match giving each
//! its value in cents.

use vstd::prelude::*;

verus! {

/// One United States coin.
pub enum Coin {
    Penny,
    Nickel,
    Dime,
    Quarter,
}

/// The value of each coin in cents.
pub open spec fn spec_coin_value(coin: Coin) -> u32 {
    match coin {
        Coin::Penny => 1u32,
        Coin::Nickel => 5u32,
        Coin::Dime => 10u32,
        Coin::Quarter => 25u32,
    }
}

/// Sort a coin to its value in cents.
pub fn value_in_cents(coin: Coin) -> (value: u32)
    ensures
        value == spec_coin_value(coin),
{
    match coin {
        Coin::Penny => 1,
        Coin::Nickel => 5,
        Coin::Dime => 10,
        Coin::Quarter => 25,
    }
}

} // verus!
