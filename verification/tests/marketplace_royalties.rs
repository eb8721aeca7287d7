//! Marketplace royalties: configuration and the royalty split.

use soroban_forge::errors::ForgeError;
use soroban_forge::ledger::{Address, Invocation};
use soroban_forge::marketplace_royalties::{MarketplaceRoyalties, RoyaltyStatus};

fn user1() -> Address {
    Address::account(0, 1)
}
fn user2() -> Address {
    Address::account(0, 2)
}
fn user3() -> Address {
    Address::account(0, 3)
}
fn arbiter() -> Address {
    Address::account(0, 4)
}
fn validator() -> Address {
    Address::account(0, 5)
}

fn inv() -> Invocation {
    Invocation::new(0, Address::contract(7, 7), true)
}

/// A contract with a registered royalty config (500 bps = 5%) for the
/// `arbiter` collection.
fn setup() -> MarketplaceRoyalties {
    let mut m = MarketplaceRoyalties::new();
    m.set_royalty(&mut inv(), arbiter(), user2(), 500).unwrap();
    m
}

#[test]
fn set_royalty_stores_config() {
    let m = setup();
    let royalty = m.get_royalty(arbiter()).unwrap();
    assert_eq!(royalty.recipient, user2());
    assert_eq!(royalty.bps, 500);
    assert_eq!(royalty.status, RoyaltyStatus::Active);
}

#[test]
fn set_royalty_update_in_place() {
    let mut m = setup();
    m.set_royalty(&mut inv(), arbiter(), user3(), 1_000).unwrap();
    let royalty = m.get_royalty(arbiter()).unwrap();
    assert_eq!(royalty.recipient, user3());
    assert_eq!(royalty.bps, 1_000);
}

#[test]
fn set_royalty_rejects_bps_over_100_percent() {
    let mut m = setup();
    assert_eq!(m.set_royalty(&mut inv(), arbiter(), user2(), 10_001), Err(ForgeError::InvalidInput));
}

#[test]
fn distribute_pays_royalty_and_returns_net() {
    let m = setup();
    // 1000 units sold with a 5% royalty -> 50 to the recipient, 950 net.
    assert_eq!(m.distribute(&mut inv(), arbiter(), user1(), 1_000), Ok(950));
}

#[test]
fn distribute_zero_bps_returns_full_amount() {
    let mut m = setup();
    m.set_royalty(&mut inv(), arbiter(), user2(), 0).unwrap();
    assert_eq!(m.distribute(&mut inv(), arbiter(), user1(), 1_000), Ok(1_000));
}

#[test]
fn distribute_100_percent_returns_zero_net() {
    let mut m = setup();
    m.set_royalty(&mut inv(), arbiter(), user2(), 10_000).unwrap();
    assert_eq!(m.distribute(&mut inv(), arbiter(), user1(), 1_000), Ok(0));
}

#[test]
fn distribute_rejects_non_positive_amount() {
    let m = setup();
    assert_eq!(m.distribute(&mut inv(), arbiter(), user1(), 0), Err(ForgeError::InvalidInput));
}

#[test]
fn distribute_missing_config_is_not_found() {
    let m = setup();
    // An unregistered collection has no config.
    assert_eq!(m.distribute(&mut inv(), validator(), user1(), 1_000), Err(ForgeError::NotFound));
}

#[test]
fn get_royalty_missing_is_not_found() {
    let m = setup();
    assert_eq!(m.get_royalty(validator()).unwrap_err(), ForgeError::NotFound);
}

#[test]
fn distribute_disabled_collection_settles_in_full() {
    let mut m = setup();
    // A re-registration with bps 0 keeps the config `Active`; emulate a
    // disabled state by checking that a zero-bps config settles in full.
    m.set_royalty(&mut inv(), arbiter(), user2(), 0).unwrap();
    assert_eq!(m.get_royalty(arbiter()).unwrap().status, RoyaltyStatus::Active);
    assert_eq!(m.distribute(&mut inv(), arbiter(), user1(), 1_000), Ok(1_000));
}

// -----------------------------------------------------------------------
// Further scenarios of this library
// -----------------------------------------------------------------------

#[test]
fn royalty_share_rounds_down() {
    let m = setup();
    // 5% of 999 is 49.95: the recipient gets 49, the seller 950.
    assert_eq!(m.distribute(&mut inv(), arbiter(), user1(), 999), Ok(950));
    assert_eq!(m.distribute(&mut inv(), arbiter(), user1(), 19), Ok(19));
}

#[test]
fn configurations_are_kept_per_collection() {
    let mut m = setup();
    m.set_royalty(&mut inv(), validator(), user3(), 2_500).unwrap();
    assert_eq!(m.distribute(&mut inv(), arbiter(), user1(), 1_000), Ok(950));
    assert_eq!(m.distribute(&mut inv(), validator(), user1(), 1_000), Ok(750));
}

#[test]
fn distribute_overflow_is_reported() {
    let m = setup();
    assert_eq!(
        m.distribute(&mut inv(), arbiter(), user1(), i128::MAX),
        Err(ForgeError::ArithmeticOverflow)
    );
}

#[test]
fn calls_demand_the_collection() {
    let mut m = MarketplaceRoyalties::new();
    let mut i = inv();
    m.set_royalty(&mut i, arbiter(), user2(), 500).unwrap();
    m.distribute(&mut i, arbiter(), user1(), 1_000).unwrap();
    assert_eq!(i.auths, vec![arbiter(), arbiter()]);
    // A refused configuration demands nothing.
    let mut j = inv();
    assert!(m.set_royalty(&mut j, arbiter(), user2(), 10_001).is_err());
    assert!(j.auths.is_empty());
}
