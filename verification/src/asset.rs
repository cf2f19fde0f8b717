use soroban_sdk::testutils::StellarAssetContract;
use soroban_sdk::token::{StellarAssetClient, TokenClient};
use soroban_sdk::{Address, Env};
use vstd::prelude::*;

verus! {

/// A client for the standard token interface of a contract; opaque here.
#[verifier::external_type_specification]
#[verifier::external_body]
pub struct ExTokenClient<'a>(TokenClient<'a>);

/// A client for the admin interface of a Stellar Asset Contract; opaque here.
#[verifier::external_type_specification]
#[verifier::external_body]
pub struct ExStellarAssetClient<'a>(StellarAssetClient<'a>);

/// What the test ledger hands back when a Stellar Asset Contract is
/// registered; opaque here.
#[verifier::external_type_specification]
#[verifier::external_body]
pub struct ExStellarAssetContract(StellarAssetContract);

/// The contract address held by a registered Stellar Asset Contract.
///
/// The outside types named here have no view, so the names below take them
/// as values.
pub uninterp spec fn asset_contract_address(sac: StellarAssetContract) -> Address;

/// The fresh token client that `TokenClient::new` builds for an environment
/// and an address: bound to them, with no authorization settings of its own.
pub uninterp spec fn token_client_for(env: Env, address: Address) -> TokenClient<'static>;

/// The fresh admin client that `StellarAssetClient::new` builds for an
/// environment and an address: bound to them, with no authorization settings
/// of its own.
pub uninterp spec fn asset_client_for(env: Env, address: Address) -> StellarAssetClient<'static>;

/// `StellarAssetContract::address` returns a clone of the contract address
/// that the registration stored: the address named
/// `asset_contract_address(sac)`.
pub assume_specification[StellarAssetContract::address](sac: &StellarAssetContract) -> (a:
    Address)
    ensures
        a == asset_contract_address(*sac),
;

/// The contract address of the registered asset `sac`.
fn asset_address(sac: &StellarAssetContract) -> (a: Address)
    ensures
        a == asset_contract_address(*sac),
{
    sac.address()
}

/// `TokenClient::new` stores clones of `env` and `address` and no
/// authorization settings of its own (no set or mocked authorizations): its
/// result is the fresh client named `token_client_for(env, address)`.
pub assume_specification<'a>[TokenClient::<'a>::new](env: &Env, address: &Address) -> (c:
    TokenClient<'a>)
    ensures
        c == token_client_for(*env, *address),
;

/// `StellarAssetClient::new` stores clones of `env` and `address` and no
/// authorization settings of its own: its result is the fresh client named
/// `asset_client_for(env, address)`.
pub assume_specification<'a>[StellarAssetClient::<'a>::new](env: &Env, address: &Address) -> (c:
    StellarAssetClient<'a>)
    ensures
        c == asset_client_for(*env, *address),
;

/// A token client for `address` in `e`, as the SDK constructor builds it,
/// with no authorization settings added: every call through it is
/// authorized exactly as the environment's own auth mode decides.
fn token_client_new<'a>(e: &Env, address: &Address) -> (c: TokenClient<'a>)
    ensures
        c == token_client_for(*e, *address),
{
    TokenClient::new(e, address)
}

/// An admin client for `address` in `e`, as the SDK constructor builds it,
/// with no authorization settings added.
fn asset_client_new<'a>(e: &Env, address: &Address) -> (c: StellarAssetClient<'a>)
    ensures
        c == asset_client_for(*e, *address),
{
    StellarAssetClient::new(e, address)
}

/// Given a Stellar Asset Contract registered on the ledger of `e`, returns
/// its contract address with a token client and an admin client, both bound
/// to that address in `e`.
pub fn asset_clients<'a>(e: &Env, sac: &StellarAssetContract) -> (r: (
    Address,
    TokenClient<'a>,
    StellarAssetClient<'a>,
))
    ensures
        r.0 == asset_contract_address(*sac),
        r.1 == token_client_for(*e, r.0),
        r.2 == asset_client_for(*e, r.0),
{
    let addr = asset_address(sac);
    let token = token_client_new(e, &addr);
    let admin_client = asset_client_new(e, &addr);
    (addr, token, admin_client)
}

/// Law: the clients that `asset_clients` hands out rest on nothing but the
/// environment and the asset's contract address. Two calls whose
/// registrations hold the same address give the same address and the same
/// fresh clients, so neither call can carry authorization settings or any
/// other state of its own, and the token client and the admin client of one
/// call are bound to the same address in the same environment.
pub proof fn law_asset_clients_rest_on_env_and_address(
    e: Env,
    sac1: StellarAssetContract,
    sac2: StellarAssetContract,
    r1: (Address, TokenClient<'static>, StellarAssetClient<'static>),
    r2: (Address, TokenClient<'static>, StellarAssetClient<'static>),
)
    requires
        r1.0 == asset_contract_address(sac1),
        r1.1 == token_client_for(e, r1.0),
        r1.2 == asset_client_for(e, r1.0),
        r2.0 == asset_contract_address(sac2),
        r2.1 == token_client_for(e, r2.0),
        r2.2 == asset_client_for(e, r2.0),
        asset_contract_address(sac1) == asset_contract_address(sac2),
    ensures
        r1 == r2,
        r1.1 == token_client_for(e, asset_contract_address(sac2)),
        r1.2 == asset_client_for(e, asset_contract_address(sac2)),
{
}

} // verus!
