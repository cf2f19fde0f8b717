use soroban_sdk::{Address, Env};
use vstd::prelude::*;

verus! {

/// The host environment of a contract call; only carried through here.
#[verifier::external_type_specification]
#[verifier::external_body]
pub struct ExEnv(Env);

/// A Stellar account or contract address; only carried through here.
#[verifier::external_type_specification]
#[verifier::external_body]
pub struct ExAddress(Address);

/// The number of price units in one US dollar (seven decimal places).
pub const PRICE_SCALE: i128 = 10_000_000;

/// The price that the oracle quotes: 0.95 USD.
pub const MOCK_PRICE: i128 = 9_500_000;

/// An oracle that quotes the same price for every token.
pub struct MockOracle;

impl MockOracle {
    /// Returns the price of `_token`: always `Some(9_500_000)`, that is
    /// 0.95 USD, whatever the environment and the token.
    pub fn get_price(_env: Env, _token: Address) -> (price: Option<i128>)
        ensures
            price == Some(MOCK_PRICE),
    {
        Some(MOCK_PRICE)
    }
}

} // verus!
