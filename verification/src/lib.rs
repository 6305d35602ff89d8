//! A verified model of a disaster-relief coordination ledger: an admin
//! registers disasters and verifiers, verifiers register and vet
//! beneficiaries, vendors sign up and get approved, beneficiaries receive
//! category-bound aid vouchers, and approved vendors redeem those vouchers
//! against a simulated relief vault.
//!
//! The whole contract state lives in [`contract::ReliefChain`]; every entry
//! point is specified against the mathematical view in [`model`].

pub mod types;
pub mod table;
pub mod model;
pub mod history;
pub mod contract;
pub mod laws;
pub mod behaviour;




