# stellar_contracts

Verified fixtures for a Stellar fiat bridge built on `soroban-sdk`.

- `src/oracle.rs`: `MockOracle::get_price`, an oracle that quotes 0.95 USD
  (`9_500_000` at seven decimals) for every token.
- `src/asset.rs`: `asset_clients`, which turns a Stellar Asset Contract
  registered on a test ledger into its address, a token client and an admin
  client bound to that address.
- `app/lib.rs`: the oracle as a Soroban contract, and `create_token`, which
  registers an asset on the test ledger and hands it to `asset_clients`.
- `tests/`: tests that run the library against the real SDK.
