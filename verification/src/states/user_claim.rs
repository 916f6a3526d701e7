use crate::address::Address;
use vstd::prelude::*;

verus! {

/// The record of one producer's redemption against one sale.
#[derive(Clone, Copy, Debug, PartialEq, Eq)]
pub struct UserClaim {
    /// The producer who burned.
    pub user: Address,
    /// The sale burned against.
    pub sale_id: u64,
    /// Payout owed, in BRL cents; zero until settlement computes it.
    pub claimable_brl_cents: u64,
    /// Credits burned, in micro-kWh.
    pub burned_voltchain: u64,
    /// Whether the payout has been collected.
    pub claimed: bool,
}

impl UserClaim {
    /// The state in which a burn leaves a fresh claim: nothing owed yet,
    /// nothing collected.
    pub open spec fn pending(self) -> bool {
        self.claimable_brl_cents == 0 && !self.claimed
    }
}

} // verus!
