pub mod preservation;
pub mod slots;
pub mod state;
pub mod store;
pub use state::LedgerState;
pub use store::Ledger;
