//! What the credit line is asked, and what it answers.

use vstd::prelude::*;
use crate::host::Coin;

verus! {

/// Creates the credit line. It has no settings.
#[derive(Clone, Copy, Debug, PartialEq, Eq)]
pub struct InstantiateMsg {}

/// The calls that change the credit line.
#[derive(Clone, Debug, PartialEq, Eq)]
pub enum ExecuteMsg {
    Borrow { amount: Coin },
    Repay { amount: Coin },
    UpdateTrust { score: u8 },
}

/// The calls that read the credit line.
#[derive(Clone, Debug, PartialEq, Eq)]
pub enum QueryMsg {
    GetUser { address: String },
}

#[derive(Clone, Copy, Debug, PartialEq, Eq)]
pub struct GetUserResponse {
    pub trust_score: u8,
    pub debt: u128,
}

} // verus!
