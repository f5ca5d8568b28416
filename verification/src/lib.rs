//! A token-vesting ledger.
//!
//! An administrator grants amounts of one token to beneficiaries. A fixed
//! share of each grant can be withdrawn at once; the rest unlocks in equal
//! installments, one for each period that has passed. The ledger keeps what
//! was granted and what was withdrawn, and never pays out more than it took
//! in.
//!
//! - [`math`] holds the 256-bit amounts.
//! - [`state`] holds what the ledger keeps, and [`msg`] what requests carry.
//! - [`model`] states the rules as mathematics, [`contract`] serves requests
//!   by those rules, and [`theorems`] proves what follows from them.
pub mod contract;
pub mod error;
pub mod math;
pub mod model;
pub mod msg;
pub mod state;
pub mod theorems;

pub use crate::error::ContractError;
