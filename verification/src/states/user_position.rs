use crate::address::Address;
use vstd::prelude::*;

verus! {

/// One producer's balance.
#[derive(Clone, Copy, Debug, PartialEq, Eq)]
pub struct UserPosition {
    /// The producer this position belongs to.
    pub owner: Address,
    /// Spendable balance, in micro-kWh.
    pub accrued_kwh: u64,
    /// Everything the producer ever reported, in micro-kWh.
    pub lifetime_kwh: u64,
}

impl UserPosition {
    /// A position never holds more spendable balance than it ever reported.
    pub open spec fn wf(self) -> bool {
        self.accrued_kwh <= self.lifetime_kwh
    }
}

} // verus!
