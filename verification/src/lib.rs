//! Ledgers for hybrid ecological bonds.
//!
//! The crate holds the rules of a fixed-term bond series (collateral, sale,
//! interest accrual, repayment, redemption, liquidation) as a verified state
//! machine over plain values, together with the smaller ledgers that live
//! beside it. The host that runs these rules owns persistence and transport;
//! it hands in the block time, the caller and the funds that came with a call,
//! and carries out the payments that a call returns.
//!
//! - `bond_series`: the series itself, with the laws that hold of it.
//! - `bond_factory`: creates series in two steps and lists them.
//! - `rcl_line`: a credit line that lends against a trust score.
//! - `heb_types`: the terms of a series.
//! - `host`: what the host hands in and takes back.

pub mod host;
pub mod heb_types;
pub mod bond_series;
pub mod bond_factory;
pub mod rcl_line;
