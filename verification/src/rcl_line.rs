//! A credit line that lends against a trust score.

pub mod contract;
pub mod msg;
pub mod state;
