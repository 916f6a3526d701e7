use crate::address::Address;
use crate::errors::VoltchainError;
use crate::states::pool::Pool;
use crate::states::user_position::UserPosition;
use vstd::prelude::*;

verus! {

/// The records an energy report declares: the pool, the caller's own
/// position, and the caller. A slot holds `None` where no record is stored.
#[derive(Clone, Copy, Debug, PartialEq, Eq)]
pub struct EnergyReport {
    pub pool: Option<Pool>,
    pub user_position: Option<UserPosition>,
    pub owner: Address,
}

/// Notification of an accepted energy report.
#[derive(Clone, Copy, Debug, PartialEq, Eq)]
pub struct EnergyReported {
    pub owner: Address,
    pub delta_kwh_micro: u64,
    pub new_user_total: u64,
    pub pool_total: u64,
}

/// The first reason, if any, to reject a report of `delta_kwh_micro`: a
/// missing pool, a missing position, a position owned by someone else, or a
/// counter that would overflow.
pub open spec fn rejection(accounts: EnergyReport, delta_kwh_micro: u64) -> Option<VoltchainError> {
    if accounts.pool is None {
        Some(VoltchainError::PoolNotInitialized)
    } else if accounts.user_position is None {
        Some(VoltchainError::UserPositionNotFound)
    } else if accounts.user_position->0.owner != accounts.owner {
        Some(VoltchainError::InvalidAuthority)
    } else if accounts.user_position->0.accrued_kwh + delta_kwh_micro > u64::MAX
        || accounts.user_position->0.lifetime_kwh + delta_kwh_micro > u64::MAX
        || accounts.pool->0.total_kwh + delta_kwh_micro > u64::MAX {
        Some(VoltchainError::ArithmeticOverflow)
    } else {
        None
    }
}

/// The records after an accepted report: the position's balance and lifetime
/// total and the pool's total each grow by `delta_kwh_micro`.
pub open spec fn applied(accounts: EnergyReport, delta_kwh_micro: u64) -> EnergyReport
    recommends
        rejection(accounts, delta_kwh_micro) is None,
{
    let pool = accounts.pool->0;
    let position = accounts.user_position->0;
    EnergyReport {
        pool: Some(Pool { total_kwh: (pool.total_kwh + delta_kwh_micro) as u64, ..pool }),
        user_position: Some(
            UserPosition {
                accrued_kwh: (position.accrued_kwh + delta_kwh_micro) as u64,
                lifetime_kwh: (position.lifetime_kwh + delta_kwh_micro) as u64,
                ..position
            },
        ),
        owner: accounts.owner,
    }
}

/// The notification of an accepted report, carrying the new totals.
pub open spec fn notice(accounts: EnergyReport, delta_kwh_micro: u64) -> EnergyReported
    recommends
        rejection(accounts, delta_kwh_micro) is None,
{
    EnergyReported {
        owner: accounts.owner,
        delta_kwh_micro,
        new_user_total: (accounts.user_position->0.accrued_kwh + delta_kwh_micro) as u64,
        pool_total: (accounts.pool->0.total_kwh + delta_kwh_micro) as u64,
    }
}

/// What the caller is told: the notification, or the rejection.
pub open spec fn outcome(accounts: EnergyReport, delta_kwh_micro: u64) -> Result<EnergyReported, VoltchainError> {
    match rejection(accounts, delta_kwh_micro) {
        Some(e) => Err(e),
        None => Ok(notice(accounts, delta_kwh_micro)),
    }
}

/// The records after the transition: changed when accepted, untouched when
/// rejected.
pub open spec fn after(accounts: EnergyReport, delta_kwh_micro: u64) -> EnergyReport {
    if rejection(accounts, delta_kwh_micro) is None {
        applied(accounts, delta_kwh_micro)
    } else {
        accounts
    }
}

/// Credits `delta_kwh_micro` to the caller's position and to the pool.
///
/// The amount itself is taken on trust; only ownership and arithmetic are
/// enforced.
pub fn handler(accounts: &mut EnergyReport, delta_kwh_micro: u64) -> (r: Result<EnergyReported, VoltchainError>)
    ensures
        r == outcome(*old(accounts), delta_kwh_micro),
        *final(accounts) == after(*old(accounts), delta_kwh_micro),
{
    let pool = match accounts.pool {
        Some(pool) => pool,
        None => return Err(VoltchainError::PoolNotInitialized),
    };
    let position = match accounts.user_position {
        Some(position) => position,
        None => return Err(VoltchainError::UserPositionNotFound),
    };
    if !(position.owner == accounts.owner) {
        return Err(VoltchainError::InvalidAuthority);
    }
    let accrued_kwh = match position.accrued_kwh.checked_add(delta_kwh_micro) {
        Some(sum) => sum,
        None => return Err(VoltchainError::ArithmeticOverflow),
    };
    let lifetime_kwh = match position.lifetime_kwh.checked_add(delta_kwh_micro) {
        Some(sum) => sum,
        None => return Err(VoltchainError::ArithmeticOverflow),
    };
    let total_kwh = match pool.total_kwh.checked_add(delta_kwh_micro) {
        Some(sum) => sum,
        None => return Err(VoltchainError::ArithmeticOverflow),
    };
    accounts.user_position = Some(UserPosition { owner: position.owner, accrued_kwh, lifetime_kwh });
    accounts.pool = Some(
        Pool { authority: pool.authority, credit_mint: pool.credit_mint, total_kwh, period: pool.period },
    );
    Ok(
        EnergyReported {
            owner: accounts.owner,
            delta_kwh_micro,
            new_user_total: accrued_kwh,
            pool_total: total_kwh,
        },
    )
}

} // verus!
