//! Energy-credit accounting for a community of producers.
//!
//! Producers register a position, report the energy they generate, and later
//! redeem ("burn") accrued credits against a sale that the pool authority has
//! recorded. Every mutation is a transition over an explicitly declared set of
//! records: it either applies completely or leaves every record untouched.
//!
//! * [`address`] and [`errors`] hold the 32-byte identities and the reasons
//!   for which a transition is rejected.
//! * [`states`] holds the four record kinds.
//! * [`instructions`] holds one module per transition: the records it
//!   declares, the notification it produces, and the handler that enforces the
//!   constraints and applies the change.
//! * [`ledger`] is the keyed record store, and [`program`] runs each
//!   transition against it.
//! * [`record_key`] gives every record its seeds and its derived address;
//!   [`encoding`] is the little-endian encoding that the seeds use.
//! * [`theorems`] states what holds across several transitions.

pub mod address;
pub mod encoding;
pub mod errors;
pub mod instructions;
pub mod ledger;
pub mod program;
pub mod record_key;
pub mod states;
pub mod theorems;

pub use address::Address;
pub use errors::VoltchainError;
pub use ledger::Ledger;
pub use program::{
    burn_and_mark, energy_report, finalize_sale, initialize_pool, process, record_sale,
    register_user,
};
