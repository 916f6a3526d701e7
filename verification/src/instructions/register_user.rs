use crate::address::Address;
use crate::errors::VoltchainError;
use crate::states::user_position::UserPosition;
use vstd::prelude::*;

verus! {

/// The records a registration declares: the caller's position slot, which
/// must be vacant, and the caller.
#[derive(Clone, Copy, Debug, PartialEq, Eq)]
pub struct RegisterUser {
    pub user_position: Option<UserPosition>,
    pub owner: Address,
}

/// Notification of a new producer.
#[derive(Clone, Copy, Debug, PartialEq, Eq)]
pub struct UserRegistered {
    pub owner: Address,
}

/// Registration is rejected only when the caller's slot is already occupied.
pub open spec fn rejection(accounts: RegisterUser) -> Option<VoltchainError> {
    if accounts.user_position is Some {
        Some(VoltchainError::AccountAlreadyInUse)
    } else {
        None
    }
}

/// The records after an accepted registration: an empty position owned by
/// the caller.
pub open spec fn applied(accounts: RegisterUser) -> RegisterUser
    recommends
        rejection(accounts) is None,
{
    RegisterUser {
        user_position: Some(UserPosition { owner: accounts.owner, accrued_kwh: 0, lifetime_kwh: 0 }),
        owner: accounts.owner,
    }
}

/// The notification of an accepted registration.
pub open spec fn notice(accounts: RegisterUser) -> UserRegistered {
    UserRegistered { owner: accounts.owner }
}

/// What the caller is told: the notification, or the rejection.
pub open spec fn outcome(accounts: RegisterUser) -> Result<UserRegistered, VoltchainError> {
    match rejection(accounts) {
        Some(e) => Err(e),
        None => Ok(notice(accounts)),
    }
}

/// The records after the transition: changed when accepted, untouched when
/// rejected.
pub open spec fn after(accounts: RegisterUser) -> RegisterUser {
    if rejection(accounts) is None {
        applied(accounts)
    } else {
        accounts
    }
}

/// Creates the caller's position with nothing accrued.
pub fn handler(accounts: &mut RegisterUser) -> (r: Result<UserRegistered, VoltchainError>)
    ensures
        r == outcome(*old(accounts)),
        *final(accounts) == after(*old(accounts)),
{
    if accounts.user_position.is_some() {
        return Err(VoltchainError::AccountAlreadyInUse);
    }
    accounts.user_position = Some(UserPosition { owner: accounts.owner, accrued_kwh: 0, lifetime_kwh: 0 });
    Ok(UserRegistered { owner: accounts.owner })
}

} // verus!
