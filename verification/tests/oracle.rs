use soroban_sdk::{Address, Env};
use stellar_contracts::oracle::{MOCK_PRICE, PRICE_SCALE};
use stellar_contracts::MockOracle;
use soroban_sdk::testutils::EnvTestConfig;

/// A test ledger that writes no snapshot file when dropped.
fn test_env() -> Env {
    Env::new_with_config(EnvTestConfig {
        capture_snapshot_at_drop: false,
    })
}

const ACCOUNT: &str = "GAAAAAAAAAAAAAAAAAAAAAAAAAAAAAAAAAAAAAAAAAAAAAAAAAAAAWHF";
const CONTRACT: &str = "CAAQCAIBAEAQCAIBAEAQCAIBAEAQCAIBAEAQCAIBAEAQCAIBAEAQC526";

#[test]
fn quote_for_an_account_token_is_fixed() {
    let env = test_env();
    let token = Address::from_str(&env, ACCOUNT);
    assert_eq!(MockOracle::get_price(env, token), Some(9_500_000));
}

#[test]
fn quote_for_a_contract_token_is_fixed() {
    let env = test_env();
    let token = Address::from_str(&env, CONTRACT);
    assert_eq!(MockOracle::get_price(env, token), Some(9_500_000));
}

#[test]
fn quote_does_not_depend_on_the_token() {
    let env = test_env();
    let a = Address::from_str(&env, ACCOUNT);
    let b = Address::from_str(&env, CONTRACT);
    let pa = MockOracle::get_price(env.clone(), a);
    let pb = MockOracle::get_price(env, b);
    assert_eq!(pa, pb);
}

#[test]
fn quote_does_not_depend_on_the_environment() {
    let env1 = test_env();
    let env2 = test_env();
    let a = Address::from_str(&env1, ACCOUNT);
    let b = Address::from_str(&env2, ACCOUNT);
    assert_eq!(MockOracle::get_price(env1, a), MockOracle::get_price(env2, b));
}

#[test]
fn quote_is_ninety_five_cents() {
    assert_eq!(MOCK_PRICE, 9_500_000);
    assert_eq!(PRICE_SCALE, 10_000_000);
    assert_eq!(MOCK_PRICE * 100, PRICE_SCALE * 95);
}

#[test]
fn quote_is_five_hundred_bps_below_one_dollar() {
    let env = test_env();
    let token = Address::from_str(&env, ACCOUNT);
    let price = MockOracle::get_price(env, token).unwrap();
    let expected: i128 = 10_000_000;
    let drop_bps = (expected - price) * 10_000 / expected;
    assert_eq!(drop_bps, 500);
    assert!(drop_bps > 100);
    assert!(drop_bps <= 600);
}
