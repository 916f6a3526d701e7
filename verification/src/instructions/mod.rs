pub mod burn_and_mark;
pub mod energy_report;
pub mod finalize_sale;
pub mod initialize_pool;
pub mod record_sale;
pub mod register_user;

pub use burn_and_mark::{BurnAndMark, TokensBurned};
pub use energy_report::{EnergyReport, EnergyReported};
pub use finalize_sale::{FinalizeSale, SaleFinalized};
pub use initialize_pool::{InitializePool, PoolInitialized};
pub use record_sale::{RecordSale, SaleRecorded};
pub use register_user::{RegisterUser, UserRegistered};

use crate::address::Address;
use vstd::prelude::*;

verus! {

/// An inbound call: the transition it names, the identity of the caller, and
/// the scalar arguments.
#[derive(Clone, Copy, Debug, PartialEq, Eq)]
pub enum Instruction {
    InitializePool { payer: Address, authority: Address, credit_mint: Address },
    RegisterUser { owner: Address },
    EnergyReport { owner: Address, delta_kwh_micro: u64 },
    RecordSale { authority: Address, kwh_sold_micro: u64, revenue_brl_cents: u64, fee_bps: u16 },
    BurnAndMark { owner: Address, sale_id: u64, kwh_to_burn_micro: u64 },
    FinalizeSale { authority: Address, sale_id: u64 },
}

/// An outbound notification: one per accepted transition.
#[derive(Clone, Copy, Debug, PartialEq, Eq)]
pub enum Event {
    PoolInitialized(PoolInitialized),
    UserRegistered(UserRegistered),
    EnergyReported(EnergyReported),
    SaleRecorded(SaleRecorded),
    TokensBurned(TokensBurned),
    SaleFinalized(SaleFinalized),
}

} // verus!
