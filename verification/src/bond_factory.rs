//! The factory that creates bond series and lists them.

pub mod contract;
pub mod error;
pub mod msg;
pub mod state;
