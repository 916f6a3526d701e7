use crate::address::Address;
use crate::errors::VoltchainError;
use crate::instructions::Event;
use crate::instructions::Instruction;
use crate::instructions::burn_and_mark;
use crate::instructions::burn_and_mark::BurnAndMark;
use crate::instructions::burn_and_mark::TokensBurned;
use crate::instructions::energy_report;
use crate::instructions::energy_report::EnergyReport;
use crate::instructions::energy_report::EnergyReported;
use crate::instructions::finalize_sale;
use crate::instructions::finalize_sale::FinalizeSale;
use crate::instructions::finalize_sale::SaleFinalized;
use crate::instructions::initialize_pool;
use crate::instructions::initialize_pool::InitializePool;
use crate::instructions::initialize_pool::PoolInitialized;
use crate::instructions::record_sale;
use crate::instructions::record_sale::RecordSale;
use crate::instructions::record_sale::SaleRecorded;
use crate::instructions::register_user;
use crate::instructions::register_user::RegisterUser;
use crate::instructions::register_user::UserRegistered;
use crate::ledger::preservation::lemma_burn_and_mark_inv;
use crate::ledger::preservation::lemma_energy_report_inv;
use crate::ledger::preservation::lemma_finalize_sale_inv;
use crate::ledger::preservation::lemma_initialize_pool_inv;
use crate::ledger::preservation::lemma_record_sale_inv;
use crate::ledger::preservation::lemma_register_user_inv;
use crate::ledger::slots::lemma_burn_and_mark_slots;
use crate::ledger::slots::lemma_energy_report_slots;
use crate::ledger::slots::lemma_position_slot;
use crate::ledger::slots::lemma_register_user_slots;
use crate::ledger::store::Ledger;
use vstd::prelude::*;

verus! {

/// Creates the pool of `ledger`. Rejected when the pool already exists.
pub fn initialize_pool(ledger: &mut Ledger, payer: Address, authority: Address, credit_mint: Address) -> (r: Result<PoolInitialized, VoltchainError>)
    requires
        old(ledger)@.inv(),
    ensures
        final(ledger)@.inv(),
        r == initialize_pool::outcome(old(ledger)@.initialize_pool_accounts(payer), authority, credit_mint),
        final(ledger)@ == old(ledger)@.after_initialize_pool(payer, authority, credit_mint),
{
    let mut accounts = InitializePool { pool: ledger.pool(), payer };
    let r = initialize_pool::handler(&mut accounts, authority, credit_mint);
    if r.is_ok() {
        if let Some(pool) = accounts.pool {
            ledger.put_pool(pool);
        }
    }
    proof {
        lemma_initialize_pool_inv(old(ledger)@, payer, authority, credit_mint);
    }
    r
}

/// Registers `owner` with an empty position. Rejected when `owner` is
/// already registered.
pub fn register_user(ledger: &mut Ledger, owner: Address) -> (r: Result<UserRegistered, VoltchainError>)
    requires
        old(ledger)@.inv(),
    ensures
        final(ledger)@.inv(),
        r == register_user::outcome(old(ledger)@.register_user_accounts(owner)),
        final(ledger)@ == old(ledger)@.after_register_user(owner),
        final(ledger)@.position_of(owner) == register_user::after(old(ledger)@.register_user_accounts(owner)).user_position,
        forall|other: Address| other != owner ==> #[trigger] final(ledger)@.position_of(other) == old(ledger)@.position_of(other),
{
    let mut accounts = RegisterUser { user_position: ledger.position(&owner), owner };
    let r = register_user::handler(&mut accounts);
    if r.is_ok() {
        if let Some(position) = accounts.user_position {
            ledger.push_position(position);
        }
    }
    proof {
        lemma_register_user_inv(old(ledger)@, owner);
        assert forall|other: Address| #[trigger]
            old(ledger)@.after_register_user(owner).position_of(other) == if other == owner {
                register_user::after(old(ledger)@.register_user_accounts(owner)).user_position
            } else {
                old(ledger)@.position_of(other)
            } by {
            lemma_register_user_slots(old(ledger)@, owner, other);
        }
    }
    r
}

/// Credits `delta_kwh_micro` to the position of `owner` and to the pool.
pub fn energy_report(ledger: &mut Ledger, owner: Address, delta_kwh_micro: u64) -> (r: Result<EnergyReported, VoltchainError>)
    requires
        old(ledger)@.inv(),
    ensures
        final(ledger)@.inv(),
        r == energy_report::outcome(old(ledger)@.energy_report_accounts(owner), delta_kwh_micro),
        final(ledger)@ == old(ledger)@.after_energy_report(owner, delta_kwh_micro),
        final(ledger)@.pool == energy_report::after(old(ledger)@.energy_report_accounts(owner), delta_kwh_micro).pool,
        final(ledger)@.position_of(owner) == energy_report::after(old(ledger)@.energy_report_accounts(owner), delta_kwh_micro).user_position,
        forall|other: Address| other != owner ==> #[trigger] final(ledger)@.position_of(other) == old(ledger)@.position_of(other),
{
    let slot = ledger.find_position(&owner);
    let user_position = match slot {
        Some(i) => {
            proof {
                lemma_position_slot(ledger@, i as int, owner);
            }
            Some(ledger.position_at(i))
        },
        None => None,
    };
    let mut accounts = EnergyReport { pool: ledger.pool(), user_position, owner };
    let r = energy_report::handler(&mut accounts, delta_kwh_micro);
    if r.is_ok() {
        if let (Some(i), Some(pool), Some(position)) = (slot, accounts.pool, accounts.user_position) {
            ledger.put_pool(pool);
            ledger.put_position(i, position);
        }
    }
    proof {
        lemma_energy_report_inv(old(ledger)@, owner, delta_kwh_micro);
        assert forall|other: Address| #[trigger]
            old(ledger)@.after_energy_report(owner, delta_kwh_micro).position_of(other) == if other
                == owner {
                energy_report::after(
                    old(ledger)@.energy_report_accounts(owner),
                    delta_kwh_micro,
                ).user_position
            } else {
                old(ledger)@.position_of(other)
            } by {
            lemma_energy_report_slots(old(ledger)@, owner, delta_kwh_micro, other);
        }
    }
    r
}

/// Records a sale under the pool's current period, on behalf of
/// `authority`, and advances the period.
pub fn record_sale(ledger: &mut Ledger, authority: Address, kwh_sold_micro: u64, revenue_brl_cents: u64, fee_bps: u16) -> (r: Result<SaleRecorded, VoltchainError>)
    requires
        old(ledger)@.inv(),
    ensures
        final(ledger)@.inv(),
        r == record_sale::outcome(old(ledger)@.record_sale_accounts(authority), kwh_sold_micro, revenue_brl_cents, fee_bps),
        final(ledger)@ == old(ledger)@.after_record_sale(authority, kwh_sold_micro, revenue_brl_cents, fee_bps),
{
    let pool = ledger.pool();
    let sale = match pool {
        Some(pool) => ledger.sale(pool.period),
        None => None,
    };
    let mut accounts = RecordSale { pool, sale, authority };
    let r = record_sale::handler(&mut accounts, kwh_sold_micro, revenue_brl_cents, fee_bps);
    if r.is_ok() {
        if let (Some(pool), Some(sale)) = (accounts.pool, accounts.sale) {
            ledger.put_pool(pool);
            ledger.push_sale(sale);
        }
    }
    proof {
        lemma_record_sale_inv(old(ledger)@, authority, kwh_sold_micro, revenue_brl_cents, fee_bps);
    }
    r
}

/// Burns `kwh_to_burn_micro` of the balance of `owner` against sale
/// `sale_id` and records the claim.
pub fn burn_and_mark(ledger: &mut Ledger, owner: Address, sale_id: u64, kwh_to_burn_micro: u64) -> (r: Result<TokensBurned, VoltchainError>)
    requires
        old(ledger)@.inv(),
    ensures
        final(ledger)@.inv(),
        r == burn_and_mark::outcome(old(ledger)@.burn_and_mark_accounts(owner, sale_id), sale_id, kwh_to_burn_micro),
        final(ledger)@ == old(ledger)@.after_burn_and_mark(owner, sale_id, kwh_to_burn_micro),
        final(ledger)@.position_of(owner) == burn_and_mark::after(old(ledger)@.burn_and_mark_accounts(owner, sale_id), sale_id, kwh_to_burn_micro).user_position,
        final(ledger)@.claim_of(owner, sale_id) == burn_and_mark::after(old(ledger)@.burn_and_mark_accounts(owner, sale_id), sale_id, kwh_to_burn_micro).user_claim,
        forall|other: Address| other != owner ==> #[trigger] final(ledger)@.position_of(other) == old(ledger)@.position_of(other),
        forall|other: Address, other_sale_id: u64| !(other == owner && other_sale_id == sale_id) ==> #[trigger] final(ledger)@.claim_of(other, other_sale_id) == old(ledger)@.claim_of(other, other_sale_id),
{
    let slot = ledger.find_position(&owner);
    let user_position = match slot {
        Some(i) => {
            proof {
                lemma_position_slot(ledger@, i as int, owner);
            }
            Some(ledger.position_at(i))
        },
        None => None,
    };
    let user_claim = ledger.claim(&owner, sale_id);
    let mut accounts = BurnAndMark { pool: ledger.pool(), user_position, user_claim, owner };
    let r = burn_and_mark::handler(&mut accounts, sale_id, kwh_to_burn_micro);
    if r.is_ok() {
        if let (Some(i), Some(position), Some(claim)) = (slot, accounts.user_position, accounts.user_claim) {
            ledger.put_position(i, position);
            ledger.push_claim(claim);
        }
    }
    proof {
        lemma_burn_and_mark_inv(old(ledger)@, owner, sale_id, kwh_to_burn_micro);
        let next = old(ledger)@.after_burn_and_mark(owner, sale_id, kwh_to_burn_micro);
        let done = burn_and_mark::after(
            old(ledger)@.burn_and_mark_accounts(owner, sale_id),
            sale_id,
            kwh_to_burn_micro,
        );
        assert forall|other: Address, other_sale_id: u64|
            {
                &&& #[trigger] next.claim_of(other, other_sale_id) == if other == owner
                    && other_sale_id == sale_id {
                    done.user_claim
                } else {
                    old(ledger)@.claim_of(other, other_sale_id)
                }
                &&& next.position_of(other) == if other == owner {
                    done.user_position
                } else {
                    old(ledger)@.position_of(other)
                }
            } by {
            lemma_burn_and_mark_slots(
                old(ledger)@,
                owner,
                sale_id,
                kwh_to_burn_micro,
                other,
                other_sale_id,
            );
        }
        assert forall|other: Address| other != owner implies #[trigger] next.position_of(other)
            == old(ledger)@.position_of(other) by {
            lemma_burn_and_mark_slots(old(ledger)@, owner, sale_id, kwh_to_burn_micro, other, sale_id);
        }
        lemma_burn_and_mark_slots(old(ledger)@, owner, sale_id, kwh_to_burn_micro, owner, sale_id);
    }
    r
}

/// Marks sale `sale_id` as finalized, on behalf of `authority`.
pub fn finalize_sale(ledger: &mut Ledger, authority: Address, sale_id: u64) -> (r: Result<SaleFinalized, VoltchainError>)
    requires
        old(ledger)@.inv(),
    ensures
        final(ledger)@.inv(),
        r == finalize_sale::outcome(old(ledger)@.finalize_sale_accounts(authority, sale_id), sale_id),
        final(ledger)@ == old(ledger)@.after_finalize_sale(authority, sale_id),
{
    let slot = ledger.find_sale(sale_id);
    let sale = match slot {
        Some(i) => Some(ledger.sale_at(i)),
        None => None,
    };
    let mut accounts = FinalizeSale { pool: ledger.pool(), sale, authority };
    let r = finalize_sale::handler(&mut accounts, sale_id);
    if r.is_ok() {
        if let (Some(i), Some(sale)) = (slot, accounts.sale) {
            ledger.put_sale(i, sale);
        }
    }
    proof {
        lemma_finalize_sale_inv(old(ledger)@, authority, sale_id);
    }
    r
}

/// Runs the transition that `instruction` names and hands back its
/// notification.
pub fn process(ledger: &mut Ledger, instruction: Instruction) -> (r: Result<Event, VoltchainError>)
    requires
        old(ledger)@.inv(),
    ensures
        final(ledger)@.inv(),
        r == old(ledger)@.outcome(instruction),
        final(ledger)@ == old(ledger)@.step(instruction),
{
    match instruction {
        Instruction::InitializePool { payer, authority, credit_mint } => {
            match initialize_pool(ledger, payer, authority, credit_mint) {
                Ok(event) => Ok(Event::PoolInitialized(event)),
                Err(e) => Err(e),
            }
        },
        Instruction::RegisterUser { owner } => {
            match register_user(ledger, owner) {
                Ok(event) => Ok(Event::UserRegistered(event)),
                Err(e) => Err(e),
            }
        },
        Instruction::EnergyReport { owner, delta_kwh_micro } => {
            match energy_report(ledger, owner, delta_kwh_micro) {
                Ok(event) => Ok(Event::EnergyReported(event)),
                Err(e) => Err(e),
            }
        },
        Instruction::RecordSale { authority, kwh_sold_micro, revenue_brl_cents, fee_bps } => {
            match record_sale(ledger, authority, kwh_sold_micro, revenue_brl_cents, fee_bps) {
                Ok(event) => Ok(Event::SaleRecorded(event)),
                Err(e) => Err(e),
            }
        },
        Instruction::BurnAndMark { owner, sale_id, kwh_to_burn_micro } => {
            match burn_and_mark(ledger, owner, sale_id, kwh_to_burn_micro) {
                Ok(event) => Ok(Event::TokensBurned(event)),
                Err(e) => Err(e),
            }
        },
        Instruction::FinalizeSale { authority, sale_id } => {
            match finalize_sale(ledger, authority, sale_id) {
                Ok(event) => Ok(Event::SaleFinalized(event)),
                Err(e) => Err(e),
            }
        },
    }
}

} // verus!
