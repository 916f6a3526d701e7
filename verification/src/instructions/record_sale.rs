use crate::address::Address;
use crate::errors::VoltchainError;
use crate::states::pool::Pool;
use crate::states::sale::Sale;
use vstd::prelude::*;

verus! {

/// The records a sale creation declares: the pool, the slot of the sale that
/// the pool's current period names, which must be vacant, and the caller.
#[derive(Clone, Copy, Debug, PartialEq, Eq)]
pub struct RecordSale {
    pub pool: Option<Pool>,
    pub sale: Option<Sale>,
    pub authority: Address,
}

/// Notification of a recorded sale.
#[derive(Clone, Copy, Debug, PartialEq, Eq)]
pub struct SaleRecorded {
    pub sale_id: u64,
    pub kwh_sold_micro: u64,
    pub revenue_brl_cents: u64,
    pub fee_bps: u16,
}

/// The first reason, if any, to reject a sale creation: a missing pool, a
/// caller who is not the pool authority, an occupied sale slot, or a period
/// counter that cannot be advanced.
pub open spec fn rejection(accounts: RecordSale, kwh_sold_micro: u64, revenue_brl_cents: u64, fee_bps: u16) -> Option<VoltchainError> {
    if accounts.pool is None {
        Some(VoltchainError::PoolNotInitialized)
    } else if accounts.pool->0.authority != accounts.authority {
        Some(VoltchainError::InvalidAuthority)
    } else if accounts.sale is Some {
        Some(VoltchainError::AccountAlreadyInUse)
    } else if accounts.pool->0.period + 1 > u64::MAX {
        Some(VoltchainError::ArithmeticOverflow)
    } else {
        None
    }
}

/// The records after an accepted sale creation: an open sale identified by
/// the pool's period, and the period advanced by one. The declared terms are
/// stored as given.
pub open spec fn applied(accounts: RecordSale, kwh_sold_micro: u64, revenue_brl_cents: u64, fee_bps: u16) -> RecordSale
    recommends
        rejection(accounts, kwh_sold_micro, revenue_brl_cents, fee_bps) is None,
{
    let pool = accounts.pool->0;
    RecordSale {
        pool: Some(Pool { period: (pool.period + 1) as u64, ..pool }),
        sale: Some(
            Sale {
                id: pool.period,
                kwh_sold: kwh_sold_micro,
                revenue_brl_cents,
                fee_bps,
                finalized: false,
            },
        ),
        authority: accounts.authority,
    }
}

/// The notification of an accepted sale creation.
pub open spec fn notice(accounts: RecordSale, kwh_sold_micro: u64, revenue_brl_cents: u64, fee_bps: u16) -> SaleRecorded
    recommends
        rejection(accounts, kwh_sold_micro, revenue_brl_cents, fee_bps) is None,
{
    SaleRecorded { sale_id: accounts.pool->0.period, kwh_sold_micro, revenue_brl_cents, fee_bps }
}

/// What the caller is told: the notification, or the rejection.
pub open spec fn outcome(accounts: RecordSale, kwh_sold_micro: u64, revenue_brl_cents: u64, fee_bps: u16) -> Result<SaleRecorded, VoltchainError> {
    match rejection(accounts, kwh_sold_micro, revenue_brl_cents, fee_bps) {
        Some(e) => Err(e),
        None => Ok(notice(accounts, kwh_sold_micro, revenue_brl_cents, fee_bps)),
    }
}

/// The records after the transition: changed when accepted, untouched when
/// rejected.
pub open spec fn after(accounts: RecordSale, kwh_sold_micro: u64, revenue_brl_cents: u64, fee_bps: u16) -> RecordSale {
    if rejection(accounts, kwh_sold_micro, revenue_brl_cents, fee_bps) is None {
        applied(accounts, kwh_sold_micro, revenue_brl_cents, fee_bps)
    } else {
        accounts
    }
}

/// Records a sale for the pool's current period and advances the period.
///
/// The terms are the authority's declaration; they are not checked against
/// the energy the pool has on record.
pub fn handler(accounts: &mut RecordSale, kwh_sold_micro: u64, revenue_brl_cents: u64, fee_bps: u16) -> (r: Result<SaleRecorded, VoltchainError>)
    ensures
        r == outcome(*old(accounts), kwh_sold_micro, revenue_brl_cents, fee_bps),
        *final(accounts) == after(*old(accounts), kwh_sold_micro, revenue_brl_cents, fee_bps),
{
    let pool = match accounts.pool {
        Some(pool) => pool,
        None => return Err(VoltchainError::PoolNotInitialized),
    };
    if !(pool.authority == accounts.authority) {
        return Err(VoltchainError::InvalidAuthority);
    }
    if accounts.sale.is_some() {
        return Err(VoltchainError::AccountAlreadyInUse);
    }
    let period = match pool.period.checked_add(1) {
        Some(next) => next,
        None => return Err(VoltchainError::ArithmeticOverflow),
    };
    accounts.sale = Some(
        Sale { id: pool.period, kwh_sold: kwh_sold_micro, revenue_brl_cents, fee_bps, finalized: false },
    );
    accounts.pool = Some(
        Pool { authority: pool.authority, credit_mint: pool.credit_mint, total_kwh: pool.total_kwh, period },
    );
    Ok(SaleRecorded { sale_id: pool.period, kwh_sold_micro, revenue_brl_cents, fee_bps })
}

} // verus!
