//! Coins and what each is worth.

use vstd::prelude::*;

verus! {

/// The four coins in everyday use.
#[derive(Clone, Copy, Debug, PartialEq, Eq, Structural)]
pub enum Coin {
    Penny,
    Nickel,
    Dime,
    Quarter,
}

impl Coin {
    /// Face value of the coin, in cents.
    pub open spec fn cents(self) -> nat {
        match self {
            Coin::Penny => 1,
            Coin::Nickel => 5,
            Coin::Dime => 10,
            Coin::Quarter => 25,
        }
    }
}

/// Looks up the face value of `coin`, in cents.
pub fn value_in_cents(coin: Coin) -> (cents: u8)
    ensures
        cents == coin.cents(),
{
    match coin {
        Coin::Penny => 1,
        Coin::Nickel => 5,
        Coin::Dime => 10,
        Coin::Quarter => 25,
    }
}

} // verus!
