use vstd::prelude::*;

verus! {

/// The commercial terms of one period's sale.
#[derive(Clone, Copy, Debug, PartialEq, Eq)]
pub struct Sale {
    /// The pool's period counter at the moment the sale was recorded.
    pub id: u64,
    /// Energy sold, in micro-kWh.
    pub kwh_sold: u64,
    /// Revenue, in BRL cents.
    pub revenue_brl_cents: u64,
    /// Fee in basis points (1500 is 15%).
    pub fee_bps: u16,
    /// Set once, by finalization; never cleared.
    pub finalized: bool,
}

} // verus!
