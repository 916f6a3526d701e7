use voltchain::address::Address;
use voltchain::errors::VoltchainError;
use voltchain::ledger::Ledger;
use voltchain::program::{
    burn_and_mark, energy_report, finalize_sale, initialize_pool, record_sale, register_user,
};
use voltchain::states::{Pool, UserPosition};

fn address(tag: u8) -> Address {
    Address::new([tag; 32])
}

fn ledger_with_pool(authority: Address) -> Ledger {
    let mut ledger = Ledger::new();
    initialize_pool(&mut ledger, address(200), authority, address(201)).unwrap();
    ledger
}

#[test]
fn pool_is_initialized_once() {
    let authority = address(1);
    let mut ledger = ledger_with_pool(authority);
    let before = ledger.pool();
    assert_eq!(
        initialize_pool(&mut ledger, address(5), address(6), address(7)),
        Err(VoltchainError::AccountAlreadyInUse)
    );
    assert_eq!(ledger.pool(), before);
    assert_eq!(
        before,
        Some(Pool { authority, credit_mint: address(201), total_kwh: 0, period: 0 })
    );
}

#[test]
fn user_registers_once() {
    let mut ledger = Ledger::new();
    let user = address(3);
    assert!(register_user(&mut ledger, user).is_ok());
    assert_eq!(register_user(&mut ledger, user), Err(VoltchainError::AccountAlreadyInUse));
    assert_eq!(ledger.position_count(), 1);
    assert!(register_user(&mut ledger, address(4)).is_ok());
    assert_eq!(ledger.position_count(), 2);
}

#[test]
fn registration_needs_no_pool() {
    let mut ledger = Ledger::new();
    let user = address(3);
    assert!(register_user(&mut ledger, user).is_ok());
    assert_eq!(
        ledger.position(&user),
        Some(UserPosition { owner: user, accrued_kwh: 0, lifetime_kwh: 0 })
    );
}

#[test]
fn report_before_pool_is_rejected() {
    let mut ledger = Ledger::new();
    let user = address(3);
    register_user(&mut ledger, user).unwrap();
    assert_eq!(energy_report(&mut ledger, user, 5), Err(VoltchainError::PoolNotInitialized));
    assert_eq!(ledger.position(&user).unwrap().lifetime_kwh, 0);
}

#[test]
fn report_by_unregistered_user_is_rejected() {
    let mut ledger = ledger_with_pool(address(1));
    assert_eq!(
        energy_report(&mut ledger, address(3), 5),
        Err(VoltchainError::UserPositionNotFound)
    );
    assert_eq!(ledger.pool().unwrap().total_kwh, 0);
}

#[test]
fn reports_add_up_per_user_and_in_the_pool() {
    let mut ledger = ledger_with_pool(address(1));
    let alice = address(3);
    let bob = address(4);
    register_user(&mut ledger, alice).unwrap();
    register_user(&mut ledger, bob).unwrap();
    energy_report(&mut ledger, alice, 10).unwrap();
    energy_report(&mut ledger, bob, 200).unwrap();
    energy_report(&mut ledger, alice, 3000).unwrap();
    energy_report(&mut ledger, alice, 0).unwrap();
    energy_report(&mut ledger, bob, 40_000).unwrap();
    assert_eq!(
        ledger.position(&alice),
        Some(UserPosition { owner: alice, accrued_kwh: 3010, lifetime_kwh: 3010 })
    );
    assert_eq!(
        ledger.position(&bob),
        Some(UserPosition { owner: bob, accrued_kwh: 40_200, lifetime_kwh: 40_200 })
    );
    assert_eq!(ledger.pool().unwrap().total_kwh, 43_210);
}

#[test]
fn report_that_overflows_changes_nothing() {
    let mut ledger = ledger_with_pool(address(1));
    let alice = address(3);
    let bob = address(4);
    register_user(&mut ledger, alice).unwrap();
    register_user(&mut ledger, bob).unwrap();
    energy_report(&mut ledger, alice, u64::MAX - 5).unwrap();
    // Bob's own counters have room; the pool's total does not.
    assert_eq!(energy_report(&mut ledger, bob, 6), Err(VoltchainError::ArithmeticOverflow));
    assert_eq!(
        ledger.position(&bob),
        Some(UserPosition { owner: bob, accrued_kwh: 0, lifetime_kwh: 0 })
    );
    assert_eq!(ledger.pool().unwrap().total_kwh, u64::MAX - 5);
    assert_eq!(energy_report(&mut ledger, alice, 6), Err(VoltchainError::ArithmeticOverflow));
    assert_eq!(ledger.position(&alice).unwrap().accrued_kwh, u64::MAX - 5);
    assert!(energy_report(&mut ledger, bob, 5).is_ok());
    assert_eq!(ledger.pool().unwrap().total_kwh, u64::MAX);
}

#[test]
fn accrued_never_exceeds_lifetime() {
    let mut ledger = ledger_with_pool(address(1));
    let user = address(3);
    register_user(&mut ledger, user).unwrap();
    energy_report(&mut ledger, user, 100).unwrap();
    record_sale(&mut ledger, address(1), 1, 1, 1).unwrap();
    record_sale(&mut ledger, address(1), 1, 1, 1).unwrap();
    burn_and_mark(&mut ledger, user, 0, 30).unwrap();
    energy_report(&mut ledger, user, 5).unwrap();
    burn_and_mark(&mut ledger, user, 1, 75).unwrap();
    let position = ledger.position(&user).unwrap();
    assert_eq!(position.accrued_kwh, 0);
    assert_eq!(position.lifetime_kwh, 105);
    assert!(position.accrued_kwh <= position.lifetime_kwh);
    assert_eq!(ledger.pool().unwrap().total_kwh, 105);
}

#[test]
fn sale_ids_count_up_from_zero() {
    let authority = address(1);
    let mut ledger = ledger_with_pool(authority);
    let mut expected: u64 = 0;
    while expected < 5 {
        let event = record_sale(&mut ledger, authority, 10 + expected, 20, 30).unwrap();
        assert_eq!(event.sale_id, expected);
        assert_eq!(ledger.sale(expected).unwrap().id, expected);
        assert_eq!(ledger.sale(expected).unwrap().kwh_sold, 10 + expected);
        expected += 1;
        assert_eq!(ledger.pool().unwrap().period, expected);
    }
    assert_eq!(ledger.sale_count(), 5);
    assert_eq!(ledger.sale(5), None);
}

#[test]
fn rejected_sale_does_not_use_up_an_id() {
    let authority = address(1);
    let mut ledger = ledger_with_pool(authority);
    assert_eq!(
        record_sale(&mut ledger, address(9), 1, 1, 1),
        Err(VoltchainError::InvalidAuthority)
    );
    assert_eq!(ledger.pool().unwrap().period, 0);
    assert_eq!(ledger.sale(0), None);
    assert_eq!(record_sale(&mut ledger, authority, 1, 1, 1).unwrap().sale_id, 0);
}

#[test]
fn sale_before_pool_is_rejected() {
    let mut ledger = Ledger::new();
    assert_eq!(
        record_sale(&mut ledger, address(1), 1, 1, 1),
        Err(VoltchainError::PoolNotInitialized)
    );
}

#[test]
fn second_burn_against_same_sale_is_a_duplicate() {
    let authority = address(1);
    let mut ledger = ledger_with_pool(authority);
    let user = address(3);
    register_user(&mut ledger, user).unwrap();
    energy_report(&mut ledger, user, 100).unwrap();
    record_sale(&mut ledger, authority, 1, 1, 1).unwrap();
    burn_and_mark(&mut ledger, user, 0, 10).unwrap();

    // Whatever happens in between, and whatever the amount.
    energy_report(&mut ledger, user, 50).unwrap();
    record_sale(&mut ledger, authority, 2, 2, 2).unwrap();
    finalize_sale(&mut ledger, authority, 0).unwrap();
    register_user(&mut ledger, address(4)).unwrap();

    assert_eq!(burn_and_mark(&mut ledger, user, 0, 1), Err(VoltchainError::AccountAlreadyInUse));
    assert_eq!(burn_and_mark(&mut ledger, user, 0, 0), Err(VoltchainError::AccountAlreadyInUse));
    assert_eq!(
        burn_and_mark(&mut ledger, user, 0, u64::MAX),
        Err(VoltchainError::AccountAlreadyInUse)
    );
    assert_eq!(ledger.position(&user).unwrap().accrued_kwh, 140);
    assert_eq!(ledger.claim(&user, 0).unwrap().burned_voltchain, 10);
}

#[test]
fn burns_against_different_sales_are_independent() {
    let authority = address(1);
    let mut ledger = ledger_with_pool(authority);
    let alice = address(3);
    let bob = address(4);
    register_user(&mut ledger, alice).unwrap();
    register_user(&mut ledger, bob).unwrap();
    energy_report(&mut ledger, alice, 100).unwrap();
    energy_report(&mut ledger, bob, 100).unwrap();
    burn_and_mark(&mut ledger, alice, 0, 10).unwrap();
    burn_and_mark(&mut ledger, alice, 1, 20).unwrap();
    burn_and_mark(&mut ledger, bob, 0, 30).unwrap();
    assert_eq!(ledger.claim(&alice, 0).unwrap().burned_voltchain, 10);
    assert_eq!(ledger.claim(&alice, 1).unwrap().burned_voltchain, 20);
    assert_eq!(ledger.claim(&bob, 0).unwrap().burned_voltchain, 30);
    assert_eq!(ledger.claim(&bob, 1), None);
    assert_eq!(ledger.position(&alice).unwrap().accrued_kwh, 70);
    assert_eq!(ledger.position(&bob).unwrap().accrued_kwh, 70);
    assert_eq!(ledger.claim_count(), 3);
}

#[test]
fn burn_beyond_balance_changes_nothing() {
    let authority = address(1);
    let mut ledger = ledger_with_pool(authority);
    let user = address(3);
    register_user(&mut ledger, user).unwrap();
    energy_report(&mut ledger, user, 100).unwrap();
    assert_eq!(
        burn_and_mark(&mut ledger, user, 0, 101),
        Err(VoltchainError::InsufficientBalance)
    );
    assert_eq!(
        ledger.position(&user),
        Some(UserPosition { owner: user, accrued_kwh: 100, lifetime_kwh: 100 })
    );
    assert_eq!(ledger.claim(&user, 0), None);
    // The slot is still free: a burn within the balance goes through.
    assert!(burn_and_mark(&mut ledger, user, 0, 100).is_ok());
    assert_eq!(ledger.position(&user).unwrap().accrued_kwh, 0);
}

#[test]
fn burn_needs_pool_and_position() {
    let mut ledger = Ledger::new();
    let user = address(3);
    assert_eq!(burn_and_mark(&mut ledger, user, 0, 0), Err(VoltchainError::PoolNotInitialized));
    initialize_pool(&mut ledger, user, address(1), address(2)).unwrap();
    assert_eq!(
        burn_and_mark(&mut ledger, user, 0, 0),
        Err(VoltchainError::UserPositionNotFound)
    );
}

#[test]
fn finalize_twice() {
    let authority = address(1);
    let mut ledger = ledger_with_pool(authority);
    record_sale(&mut ledger, authority, 5, 6, 7).unwrap();
    assert!(!ledger.sale(0).unwrap().finalized);
    assert!(finalize_sale(&mut ledger, authority, 0).is_ok());
    assert!(ledger.sale(0).unwrap().finalized);
    assert_eq!(
        finalize_sale(&mut ledger, authority, 0),
        Err(VoltchainError::SaleAlreadyFinalized)
    );
    assert!(ledger.sale(0).unwrap().finalized);
    assert_eq!(ledger.sale(0).unwrap().kwh_sold, 5);
}

#[test]
fn finalize_checks_sale_then_authority() {
    let authority = address(1);
    let mut ledger = Ledger::new();
    assert_eq!(
        finalize_sale(&mut ledger, authority, 0),
        Err(VoltchainError::PoolNotInitialized)
    );
    initialize_pool(&mut ledger, authority, authority, address(2)).unwrap();
    assert_eq!(finalize_sale(&mut ledger, authority, 0), Err(VoltchainError::SaleNotFound));
    record_sale(&mut ledger, authority, 5, 6, 7).unwrap();
    assert_eq!(finalize_sale(&mut ledger, authority, 1), Err(VoltchainError::SaleNotFound));
    assert_eq!(finalize_sale(&mut ledger, address(9), 0), Err(VoltchainError::InvalidAuthority));
    assert!(!ledger.sale(0).unwrap().finalized);
}

#[test]
fn finalizing_one_sale_leaves_the_others_open() {
    let authority = address(1);
    let mut ledger = ledger_with_pool(authority);
    record_sale(&mut ledger, authority, 1, 1, 1).unwrap();
    record_sale(&mut ledger, authority, 2, 2, 2).unwrap();
    record_sale(&mut ledger, authority, 3, 3, 3).unwrap();
    finalize_sale(&mut ledger, authority, 1).unwrap();
    assert!(!ledger.sale(0).unwrap().finalized);
    assert!(ledger.sale(1).unwrap().finalized);
    assert!(!ledger.sale(2).unwrap().finalized);
}
