use defake_anchor::contract::Contract;
use defake_anchor::error::Error;
use defake_anchor::guard::{verify_exact_minimal_deposit, verify_owner, MINIMAL_DEPOSIT};

#[test]
fn minimal_deposit_is_one_unit() {
    assert_eq!(MINIMAL_DEPOSIT, 1);
}

#[test]
fn exactly_one_unit_is_admitted() {
    assert_eq!(verify_exact_minimal_deposit(1), Ok(()));
}

#[test]
fn no_deposit_is_refused() {
    assert_eq!(verify_exact_minimal_deposit(0), Err(Error::InvalidDeposit));
}

#[test]
fn larger_deposits_are_refused() {
    assert_eq!(verify_exact_minimal_deposit(2), Err(Error::InvalidDeposit));
    assert_eq!(verify_exact_minimal_deposit(1_000_000_000_000_000_000_000_000), Err(Error::InvalidDeposit));
    assert_eq!(verify_exact_minimal_deposit(u128::MAX), Err(Error::InvalidDeposit));
}

#[test]
fn owner_is_admitted() {
    let state = Contract::new("alice".to_string());
    assert_eq!(verify_owner(&"alice".to_string(), &state), Ok(()));
}

#[test]
fn others_are_refused() {
    let state = Contract::new("alice".to_string());
    assert_eq!(verify_owner(&"bob".to_string(), &state), Err(Error::Unauthorized));
    assert_eq!(verify_owner(&String::new(), &state), Err(Error::Unauthorized));
}

#[test]
fn near_misses_of_the_owner_are_refused() {
    let state = Contract::new("alice.near".to_string());
    for caller in ["alice", "alice.nea", "alice.near.", "Alice.near", "alice.near ", " alice.near", "bob.alice.near"] {
        assert_eq!(verify_owner(&caller.to_string(), &state), Err(Error::Unauthorized));
    }
    assert_eq!(verify_owner(&"alice.near".to_string(), &state), Ok(()));
}

#[test]
fn failure_texts() {
    assert_eq!(Error::InvalidDeposit.message(), "attach exactly 1 yoctoNEAR");
    assert_eq!(Error::Unauthorized.message(), "Only owner");
    assert_eq!(Error::LengthMismatch.message(), "Length mismatch");
}

#[test]
fn failures_are_told_apart() {
    assert_ne!(Error::InvalidDeposit, Error::Unauthorized);
    assert_ne!(Error::Unauthorized, Error::LengthMismatch);
    assert_ne!(Error::LengthMismatch, Error::InvalidDeposit);
}
