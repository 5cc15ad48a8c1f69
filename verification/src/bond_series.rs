//! The bond-series ledger.

pub mod collateral;
pub mod contract;
pub mod error;
pub mod impact;
pub mod laws;
pub mod math;
pub mod msg;
pub mod state;
