//! The coin sorter extended with state quarters: the quarter variant
//! carries the minting state, which a pattern arm can bind and use.
//!
//! Announcing the bound state on the console is left to the caller,
//! which can match on the coin before handing it over.

use vstd::prelude::*;

verus! {

/// A state commemorated on a quarter.
#[derive(Debug)]
pub enum UsState {
    Alabama,
    Alaska,
}

/// One United States coin, with the quarter carrying its state.
pub enum Coin {
    Penny,
    Nickel,
    Dime,
    Quarter(UsState),
}

/// The value of each coin in cents; every quarter is worth 25
/// whatever its state.
pub open spec fn spec_coin_value(coin: Coin) -> u32 {
    match coin {
        Coin::Penny => 1u32,
        Coin::Nickel => 5u32,
        Coin::Dime => 10u32,
        Coin::Quarter(_) => 25u32,
    }
}

/// Sort a coin to its value in cents.
pub fn value_in_cents(coin: Coin) -> (value: u32)
    ensures
        value == spec_coin_value(coin),
{
    match coin {
        Coin::Penny => 1,
        Coin::Nickel => 5,
        Coin::Dime => 10,
        Coin::Quarter(_) => 25,
    }
}

} // verus!
