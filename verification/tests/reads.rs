use marketx::{Contract, ContractError, Escrow, EscrowStatus};
use soroban_sdk::testutils::{Address as _, EnvTestConfig};
use soroban_sdk::{Address, Env};

fn parties() -> Env {
    Env::new_with_config(EnvTestConfig { capture_snapshot_at_drop: false })
}

fn escrow_in(env: &Env, status: EscrowStatus) -> Escrow {
    Escrow { buyer: Address::generate(env), seller: Address::generate(env), status }
}

#[test]
fn safe_read_returns_the_record_that_was_found() {
    let env = parties();
    for status in [
        EscrowStatus::Pending,
        EscrowStatus::Released,
        EscrowStatus::Disputed,
        EscrowStatus::Refunded,
    ] {
        let escrow = escrow_in(&env, status);
        assert_eq!(Contract::try_get_escrow(Some(escrow.clone())), Ok(escrow));
    }
}

#[test]
fn safe_read_of_empty_store_is_not_found() {
    assert_eq!(Contract::try_get_escrow(None), Err(ContractError::EscrowNotFound));
}

#[test]
fn strict_read_returns_the_record_that_was_found() {
    let env = parties();
    let escrow = escrow_in(&env, EscrowStatus::Disputed);
    assert_eq!(Contract::get_escrow(Some(escrow.clone())), escrow);
}

#[test]
fn initial_value_defaults_to_zero() {
    assert_eq!(Contract::get_initial_value(None), 0);
}

#[test]
fn initial_value_is_the_value_that_was_found() {
    assert_eq!(Contract::get_initial_value(Some(17)), 17);
    assert_eq!(Contract::get_initial_value(Some(0)), 0);
    assert_eq!(Contract::get_initial_value(Some(u32::MAX)), u32::MAX);
}

#[test]
fn cloned_escrow_is_the_same_escrow() {
    let env = parties();
    let escrow = escrow_in(&env, EscrowStatus::Disputed);
    let copy = escrow.clone();
    assert_eq!(copy, escrow);
    assert_eq!(copy.buyer, escrow.buyer);
    assert_eq!(copy.seller, escrow.seller);
    assert_eq!(copy.status, EscrowStatus::Disputed);
}
