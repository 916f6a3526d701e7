use crate::address::Address;
use vstd::prelude::*;

verus! {

/// The singleton aggregate of a deployment.
#[derive(Clone, Copy, Debug, PartialEq, Eq)]
pub struct Pool {
    /// The identity allowed to record and finalize sales.
    pub authority: Address,
    /// The mint of the credit asset.
    pub credit_mint: Address,
    /// All energy ever reported, in micro-kWh.
    pub total_kwh: u64,
    /// The number of sales recorded so far; also the next sale's identifier.
    pub period: u64,
}

} // verus!
