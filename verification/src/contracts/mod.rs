//! The consumption contract and its ledger.

pub mod consumption;
pub mod ledger;
