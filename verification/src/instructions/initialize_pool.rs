use crate::address::Address;
use crate::errors::VoltchainError;
use crate::states::pool::Pool;
use vstd::prelude::*;

verus! {

/// The records pool initialization declares: the pool slot, which must be
/// vacant, and whoever pays for creating the record.
#[derive(Clone, Copy, Debug, PartialEq, Eq)]
pub struct InitializePool {
    pub pool: Option<Pool>,
    pub payer: Address,
}

/// Notification of a freshly created pool.
#[derive(Clone, Copy, Debug, PartialEq, Eq)]
pub struct PoolInitialized {
    pub authority: Address,
    pub credit_mint: Address,
}

/// Initialization is rejected only when the pool slot is already occupied.
pub open spec fn rejection(accounts: InitializePool, authority: Address, credit_mint: Address) -> Option<VoltchainError> {
    if accounts.pool is Some {
        Some(VoltchainError::AccountAlreadyInUse)
    } else {
        None
    }
}

/// The records after an accepted initialization: a pool with no energy
/// reported and no sale recorded.
pub open spec fn applied(accounts: InitializePool, authority: Address, credit_mint: Address) -> InitializePool
    recommends
        rejection(accounts, authority, credit_mint) is None,
{
    InitializePool {
        pool: Some(Pool { authority, credit_mint, total_kwh: 0, period: 0 }),
        payer: accounts.payer,
    }
}

/// The notification of an accepted initialization.
pub open spec fn notice(accounts: InitializePool, authority: Address, credit_mint: Address) -> PoolInitialized {
    PoolInitialized { authority, credit_mint }
}

/// What the caller is told: the notification, or the rejection.
pub open spec fn outcome(accounts: InitializePool, authority: Address, credit_mint: Address) -> Result<PoolInitialized, VoltchainError> {
    match rejection(accounts, authority, credit_mint) {
        Some(e) => Err(e),
        None => Ok(notice(accounts, authority, credit_mint)),
    }
}

/// The records after the transition: changed when accepted, untouched when
/// rejected.
pub open spec fn after(accounts: InitializePool, authority: Address, credit_mint: Address) -> InitializePool {
    if rejection(accounts, authority, credit_mint) is None {
        applied(accounts, authority, credit_mint)
    } else {
        accounts
    }
}

/// Creates the pool with the given authority and credit mint.
pub fn handler(accounts: &mut InitializePool, authority: Address, credit_mint: Address) -> (r: Result<PoolInitialized, VoltchainError>)
    ensures
        r == outcome(*old(accounts), authority, credit_mint),
        *final(accounts) == after(*old(accounts), authority, credit_mint),
{
    if accounts.pool.is_some() {
        return Err(VoltchainError::AccountAlreadyInUse);
    }
    accounts.pool = Some(Pool { authority, credit_mint, total_kwh: 0, period: 0 });
    Ok(PoolInitialized { authority, credit_mint })
}

} // verus!
