use crate::address::Address;
use crate::errors::VoltchainError;
use crate::states::pool::Pool;
use crate::states::user_claim::UserClaim;
use crate::states::user_position::UserPosition;
use vstd::prelude::*;

verus! {

/// The records a redemption declares: the pool (read only), the caller's own
/// position, the slot of the caller's claim on the sale, which must be
/// vacant, and the caller.
#[derive(Clone, Copy, Debug, PartialEq, Eq)]
pub struct BurnAndMark {
    pub pool: Option<Pool>,
    pub user_position: Option<UserPosition>,
    pub user_claim: Option<UserClaim>,
    pub owner: Address,
}

/// Notification of an accepted redemption.
#[derive(Clone, Copy, Debug, PartialEq, Eq)]
pub struct TokensBurned {
    pub owner: Address,
    pub sale_id: u64,
    pub kwh_burned_micro: u64,
}

/// The first reason, if any, to reject a redemption: a missing pool, a
/// missing position, a position owned by someone else, an existing claim of
/// this caller on this sale, or a balance below the amount.
pub open spec fn rejection(accounts: BurnAndMark, sale_id: u64, kwh_to_burn_micro: u64) -> Option<VoltchainError> {
    if accounts.pool is None {
        Some(VoltchainError::PoolNotInitialized)
    } else if accounts.user_position is None {
        Some(VoltchainError::UserPositionNotFound)
    } else if accounts.user_position->0.owner != accounts.owner {
        Some(VoltchainError::InvalidAuthority)
    } else if accounts.user_claim is Some {
        Some(VoltchainError::AccountAlreadyInUse)
    } else if accounts.user_position->0.accrued_kwh < kwh_to_burn_micro {
        Some(VoltchainError::InsufficientBalance)
    } else {
        None
    }
}

/// The records after an accepted redemption: the balance reduced by the
/// amount, the lifetime total untouched, and a pending claim that records
/// the amount.
pub open spec fn applied(accounts: BurnAndMark, sale_id: u64, kwh_to_burn_micro: u64) -> BurnAndMark
    recommends
        rejection(accounts, sale_id, kwh_to_burn_micro) is None,
{
    let position = accounts.user_position->0;
    BurnAndMark {
        pool: accounts.pool,
        user_position: Some(
            UserPosition { accrued_kwh: (position.accrued_kwh - kwh_to_burn_micro) as u64, ..position },
        ),
        user_claim: Some(
            UserClaim {
                user: accounts.owner,
                sale_id,
                claimable_brl_cents: 0,
                burned_voltchain: kwh_to_burn_micro,
                claimed: false,
            },
        ),
        owner: accounts.owner,
    }
}

/// The notification of an accepted redemption.
pub open spec fn notice(accounts: BurnAndMark, sale_id: u64, kwh_to_burn_micro: u64) -> TokensBurned {
    TokensBurned { owner: accounts.owner, sale_id, kwh_burned_micro: kwh_to_burn_micro }
}

/// What the caller is told: the notification, or the rejection.
pub open spec fn outcome(accounts: BurnAndMark, sale_id: u64, kwh_to_burn_micro: u64) -> Result<TokensBurned, VoltchainError> {
    match rejection(accounts, sale_id, kwh_to_burn_micro) {
        Some(e) => Err(e),
        None => Ok(notice(accounts, sale_id, kwh_to_burn_micro)),
    }
}

/// The records after the transition: changed when accepted, untouched when
/// rejected.
pub open spec fn after(accounts: BurnAndMark, sale_id: u64, kwh_to_burn_micro: u64) -> BurnAndMark {
    if rejection(accounts, sale_id, kwh_to_burn_micro) is None {
        applied(accounts, sale_id, kwh_to_burn_micro)
    } else {
        accounts
    }
}

/// Burns `kwh_to_burn_micro` of the caller's balance against sale `sale_id`
/// and records the claim. The payout owed is left at zero for settlement to
/// fill in.
pub fn handler(accounts: &mut BurnAndMark, sale_id: u64, kwh_to_burn_micro: u64) -> (r: Result<TokensBurned, VoltchainError>)
    ensures
        r == outcome(*old(accounts), sale_id, kwh_to_burn_micro),
        *final(accounts) == after(*old(accounts), sale_id, kwh_to_burn_micro),
{
    if accounts.pool.is_none() {
        return Err(VoltchainError::PoolNotInitialized);
    }
    let position = match accounts.user_position {
        Some(position) => position,
        None => return Err(VoltchainError::UserPositionNotFound),
    };
    if !(position.owner == accounts.owner) {
        return Err(VoltchainError::InvalidAuthority);
    }
    if accounts.user_claim.is_some() {
        return Err(VoltchainError::AccountAlreadyInUse);
    }
    let accrued_kwh = match position.accrued_kwh.checked_sub(kwh_to_burn_micro) {
        Some(rest) => rest,
        None => return Err(VoltchainError::InsufficientBalance),
    };
    accounts.user_position = Some(
        UserPosition { owner: position.owner, accrued_kwh, lifetime_kwh: position.lifetime_kwh },
    );
    accounts.user_claim = Some(
        UserClaim {
            user: accounts.owner,
            sale_id,
            claimable_brl_cents: 0,
            burned_voltchain: kwh_to_burn_micro,
            claimed: false,
        },
    );
    Ok(TokensBurned { owner: accounts.owner, sale_id, kwh_burned_micro: kwh_to_burn_micro })
}

} // verus!
