//! Fixtures for a Stellar fiat bridge: a price oracle that quotes one fixed
//! price, and the clients of a Stellar asset registered on a test ledger.
//!
//! Prices are fixed-point numbers with seven decimal places: `10_000_000`
//! stands for one US dollar.

pub mod asset;
pub mod oracle;

pub use asset::asset_clients;
pub use oracle::MockOracle;
