//! Coins and their value in cents.

use vstd::prelude::*;

verus! {

/// The province stamped on a quarter.
#[derive(Clone, Copy, Debug, PartialEq, Eq)]
pub enum ChinaProvince {
    GuangZhou,
    BeiJing,
}

/// A coin; quarters carry a province.
#[derive(Clone, Copy, Debug, PartialEq, Eq)]
pub enum Coin {
    Penny,
    Nickel,
    Dime,
    Quarter(ChinaProvince),
}

/// What a coin is worth, in cents.
pub open spec fn cents(coin: Coin) -> u8 {
    match coin {
        Coin::Penny => 1,
        Coin::Nickel => 5,
        Coin::Dime => 10,
        Coin::Quarter(_) => 25,
    }
}

/// Returns a coin's value in cents, whichever province a quarter carries.
pub fn value_in_cents(coin: Coin) -> (v: u8)
    ensures
        v == cents(coin),
{
    match coin {
        Coin::Penny => 1,
        Coin::Nickel => 5,
        Coin::Dime => 10,
        Coin::Quarter(_) => 25,
    }
}

} // verus!
