use crate::address::Address;
use crate::errors::VoltchainError;
use crate::states::pool::Pool;
use crate::states::sale::Sale;
use vstd::prelude::*;

verus! {

/// The records a finalization declares: the pool (read only, for the
/// authority), the sale stored under the requested identifier, and the caller.
#[derive(Clone, Copy, Debug, PartialEq, Eq)]
pub struct FinalizeSale {
    pub pool: Option<Pool>,
    pub sale: Option<Sale>,
    pub authority: Address,
}

/// Notification of a finalized sale, with its terms.
#[derive(Clone, Copy, Debug, PartialEq, Eq)]
pub struct SaleFinalized {
    pub sale_id: u64,
    pub kwh_sold: u64,
    pub revenue_brl_cents: u64,
    pub fee_bps: u16,
}

/// The first reason, if any, to reject a finalization: a missing pool, a
/// missing sale, a sale record of another period than `sale_id`, a caller who
/// is not the pool authority, or a sale that is already finalized.
pub open spec fn rejection(accounts: FinalizeSale, sale_id: u64) -> Option<VoltchainError> {
    if accounts.pool is None {
        Some(VoltchainError::PoolNotInitialized)
    } else if accounts.sale is None {
        Some(VoltchainError::SaleNotFound)
    } else if accounts.sale->0.id != sale_id {
        Some(VoltchainError::InvalidSalePeriod)
    } else if accounts.pool->0.authority != accounts.authority {
        Some(VoltchainError::InvalidAuthority)
    } else if accounts.sale->0.finalized {
        Some(VoltchainError::SaleAlreadyFinalized)
    } else {
        None
    }
}

/// The records after an accepted finalization: the sale marked finalized,
/// its terms untouched.
pub open spec fn applied(accounts: FinalizeSale, sale_id: u64) -> FinalizeSale
    recommends
        rejection(accounts, sale_id) is None,
{
    FinalizeSale {
        pool: accounts.pool,
        sale: Some(Sale { finalized: true, ..accounts.sale->0 }),
        authority: accounts.authority,
    }
}

/// The notification of an accepted finalization.
pub open spec fn notice(accounts: FinalizeSale, sale_id: u64) -> SaleFinalized
    recommends
        rejection(accounts, sale_id) is None,
{
    let sale = accounts.sale->0;
    SaleFinalized {
        sale_id,
        kwh_sold: sale.kwh_sold,
        revenue_brl_cents: sale.revenue_brl_cents,
        fee_bps: sale.fee_bps,
    }
}

/// What the caller is told: the notification, or the rejection.
pub open spec fn outcome(accounts: FinalizeSale, sale_id: u64) -> Result<SaleFinalized, VoltchainError> {
    match rejection(accounts, sale_id) {
        Some(e) => Err(e),
        None => Ok(notice(accounts, sale_id)),
    }
}

/// The records after the transition: changed when accepted, untouched when
/// rejected.
pub open spec fn after(accounts: FinalizeSale, sale_id: u64) -> FinalizeSale {
    if rejection(accounts, sale_id) is None {
        applied(accounts, sale_id)
    } else {
        accounts
    }
}

/// Marks sale `sale_id` as finalized. Finalization is terminal.
pub fn handler(accounts: &mut FinalizeSale, sale_id: u64) -> (r: Result<SaleFinalized, VoltchainError>)
    ensures
        r == outcome(*old(accounts), sale_id),
        *final(accounts) == after(*old(accounts), sale_id),
{
    let pool = match accounts.pool {
        Some(pool) => pool,
        None => return Err(VoltchainError::PoolNotInitialized),
    };
    let sale = match accounts.sale {
        Some(sale) => sale,
        None => return Err(VoltchainError::SaleNotFound),
    };
    if sale.id != sale_id {
        return Err(VoltchainError::InvalidSalePeriod);
    }
    if !(pool.authority == accounts.authority) {
        return Err(VoltchainError::InvalidAuthority);
    }
    if sale.finalized {
        return Err(VoltchainError::SaleAlreadyFinalized);
    }
    accounts.sale = Some(
        Sale {
            id: sale.id,
            kwh_sold: sale.kwh_sold,
            revenue_brl_cents: sale.revenue_brl_cents,
            fee_bps: sale.fee_bps,
            finalized: true,
        },
    );
    Ok(
        SaleFinalized {
            sale_id,
            kwh_sold: sale.kwh_sold,
            revenue_brl_cents: sale.revenue_brl_cents,
            fee_bps: sale.fee_bps,
        },
    )
}

} // verus!
