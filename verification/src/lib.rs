//! A delegated recurring-payment authorization engine.
//!
//! An owner grants a record a standing, revocable right to pull a fixed
//! amount of a fungible asset from the owner's funds account at bounded
//! intervals and deliver it to a fixed recipient. The record's state
//! machine — initialize, charge, update, cancel, cleanup — is verified
//! here; the ledger substrate that executes the resulting fund-movement
//! instructions atomically is reached through `ledger`.

pub mod laws;
pub mod ledger;
pub mod subscription;
