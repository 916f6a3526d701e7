use voltchain::address::Address;
use voltchain::errors::VoltchainError;
use voltchain::instructions::{
    EnergyReported, Event, Instruction, PoolInitialized, SaleFinalized, SaleRecorded, TokensBurned,
    UserRegistered,
};
use voltchain::ledger::Ledger;
use voltchain::program::{
    burn_and_mark, energy_report, finalize_sale, initialize_pool, process, record_sale,
    register_user,
};
use voltchain::record_key::RecordKey;
use voltchain::states::{Pool, Sale, UserClaim, UserPosition};

fn address(tag: u8) -> Address {
    Address::new([tag; 32])
}

#[test]
fn fresh_ledger_is_empty() {
    let ledger = Ledger::new();
    assert_eq!(ledger.pool(), None);
    assert_eq!(ledger.position(&address(1)), None);
    assert_eq!(ledger.sale(0), None);
    assert_eq!(ledger.claim(&address(1), 0), None);
    assert_eq!(ledger.position_count(), 0);
    assert_eq!(ledger.sale_count(), 0);
    assert_eq!(ledger.claim_count(), 0);
}

#[test]
fn register_report_sell_burn_finalize() {
    let authority = address(1);
    let mint = address(2);
    let user = address(3);
    let mut ledger = Ledger::new();

    assert_eq!(
        initialize_pool(&mut ledger, authority, authority, mint),
        Ok(PoolInitialized { authority, credit_mint: mint })
    );
    assert_eq!(
        ledger.pool(),
        Some(Pool { authority, credit_mint: mint, total_kwh: 0, period: 0 })
    );

    assert_eq!(register_user(&mut ledger, user), Ok(UserRegistered { owner: user }));
    assert_eq!(
        ledger.position(&user),
        Some(UserPosition { owner: user, accrued_kwh: 0, lifetime_kwh: 0 })
    );

    assert_eq!(
        energy_report(&mut ledger, user, 1_000_000),
        Ok(EnergyReported {
            owner: user,
            delta_kwh_micro: 1_000_000,
            new_user_total: 1_000_000,
            pool_total: 1_000_000,
        })
    );
    assert_eq!(
        ledger.position(&user),
        Some(UserPosition { owner: user, accrued_kwh: 1_000_000, lifetime_kwh: 1_000_000 })
    );
    assert_eq!(ledger.pool().unwrap().total_kwh, 1_000_000);

    assert_eq!(
        record_sale(&mut ledger, authority, 500_000, 200, 1000),
        Ok(SaleRecorded {
            sale_id: 0,
            kwh_sold_micro: 500_000,
            revenue_brl_cents: 200,
            fee_bps: 1000,
        })
    );
    assert_eq!(ledger.pool().unwrap().period, 1);
    assert_eq!(
        ledger.sale(0),
        Some(Sale {
            id: 0,
            kwh_sold: 500_000,
            revenue_brl_cents: 200,
            fee_bps: 1000,
            finalized: false,
        })
    );

    assert_eq!(
        burn_and_mark(&mut ledger, user, 0, 400_000),
        Ok(TokensBurned { owner: user, sale_id: 0, kwh_burned_micro: 400_000 })
    );
    assert_eq!(
        ledger.position(&user),
        Some(UserPosition { owner: user, accrued_kwh: 600_000, lifetime_kwh: 1_000_000 })
    );
    assert_eq!(
        ledger.claim(&user, 0),
        Some(UserClaim {
            user,
            sale_id: 0,
            claimable_brl_cents: 0,
            burned_voltchain: 400_000,
            claimed: false,
        })
    );

    assert_eq!(
        finalize_sale(&mut ledger, authority, 0),
        Ok(SaleFinalized { sale_id: 0, kwh_sold: 500_000, revenue_brl_cents: 200, fee_bps: 1000 })
    );
    assert!(ledger.sale(0).unwrap().finalized);

    assert_eq!(
        burn_and_mark(&mut ledger, user, 0, 100_000),
        Err(VoltchainError::AccountAlreadyInUse)
    );
    assert_eq!(ledger.position(&user).unwrap().accrued_kwh, 600_000);
    assert_eq!(ledger.claim_count(), 1);
}

#[test]
fn process_runs_the_named_transition() {
    let authority = address(1);
    let mint = address(2);
    let user = address(3);
    let mut ledger = Ledger::new();

    assert_eq!(
        process(
            &mut ledger,
            Instruction::InitializePool { payer: user, authority, credit_mint: mint }
        ),
        Ok(Event::PoolInitialized(PoolInitialized { authority, credit_mint: mint }))
    );
    assert_eq!(
        process(&mut ledger, Instruction::RegisterUser { owner: user }),
        Ok(Event::UserRegistered(UserRegistered { owner: user }))
    );
    assert_eq!(
        process(&mut ledger, Instruction::EnergyReport { owner: user, delta_kwh_micro: 7 }),
        Ok(Event::EnergyReported(EnergyReported {
            owner: user,
            delta_kwh_micro: 7,
            new_user_total: 7,
            pool_total: 7,
        }))
    );
    assert_eq!(
        process(
            &mut ledger,
            Instruction::RecordSale {
                authority,
                kwh_sold_micro: 5,
                revenue_brl_cents: 3,
                fee_bps: 1500,
            }
        ),
        Ok(Event::SaleRecorded(SaleRecorded {
            sale_id: 0,
            kwh_sold_micro: 5,
            revenue_brl_cents: 3,
            fee_bps: 1500,
        }))
    );
    assert_eq!(
        process(
            &mut ledger,
            Instruction::BurnAndMark { owner: user, sale_id: 0, kwh_to_burn_micro: 7 }
        ),
        Ok(Event::TokensBurned(TokensBurned { owner: user, sale_id: 0, kwh_burned_micro: 7 }))
    );
    assert_eq!(
        process(&mut ledger, Instruction::FinalizeSale { authority, sale_id: 0 }),
        Ok(Event::SaleFinalized(SaleFinalized {
            sale_id: 0,
            kwh_sold: 5,
            revenue_brl_cents: 3,
            fee_bps: 1500,
        }))
    );
    assert_eq!(
        process(&mut ledger, Instruction::FinalizeSale { authority, sale_id: 0 }),
        Err(VoltchainError::SaleAlreadyFinalized)
    );
    assert_eq!(
        process(&mut ledger, Instruction::RegisterUser { owner: user }),
        Err(VoltchainError::AccountAlreadyInUse)
    );
}

#[test]
fn contains_follows_the_keys() {
    let authority = address(1);
    let user = address(3);
    let mut ledger = Ledger::new();
    assert!(!ledger.contains(&RecordKey::Pool));
    assert!(!ledger.contains(&RecordKey::UserPosition { owner: user }));
    assert!(!ledger.contains(&RecordKey::Sale { id: 0 }));
    assert!(!ledger.contains(&RecordKey::UserClaim { owner: user, sale_id: 0 }));

    initialize_pool(&mut ledger, authority, authority, address(2)).unwrap();
    register_user(&mut ledger, user).unwrap();
    energy_report(&mut ledger, user, 10).unwrap();
    record_sale(&mut ledger, authority, 1, 1, 1).unwrap();
    burn_and_mark(&mut ledger, user, 0, 4).unwrap();

    assert!(ledger.contains(&RecordKey::Pool));
    assert!(ledger.contains(&RecordKey::UserPosition { owner: user }));
    assert!(!ledger.contains(&RecordKey::UserPosition { owner: authority }));
    assert!(ledger.contains(&RecordKey::Sale { id: 0 }));
    assert!(!ledger.contains(&RecordKey::Sale { id: 1 }));
    assert!(ledger.contains(&RecordKey::UserClaim { owner: user, sale_id: 0 }));
    assert!(!ledger.contains(&RecordKey::UserClaim { owner: user, sale_id: 1 }));
    assert!(!ledger.contains(&RecordKey::UserClaim { owner: authority, sale_id: 0 }));
}

#[test]
fn ledgers_are_independent() {
    let authority = address(1);
    let mut first = Ledger::new();
    let mut second = Ledger::new();
    initialize_pool(&mut first, authority, authority, address(2)).unwrap();
    record_sale(&mut first, authority, 1, 2, 3).unwrap();
    assert_eq!(second.pool(), None);
    assert_eq!(
        record_sale(&mut second, authority, 1, 2, 3),
        Err(VoltchainError::PoolNotInitialized)
    );
    assert_eq!(first.pool().unwrap().period, 1);
}
