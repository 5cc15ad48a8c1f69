//! Why a call on a bond series fails.

use vstd::prelude::*;
use crate::host::StdError;
use crate::host::StdErrorView;

verus! {

/// The failures of a bond series. A failed call changes nothing.
#[derive(Clone, Debug, PartialEq, Eq)]
pub enum ContractError {
    /// An amount is no number, or leaves 128 bits.
    Std(StdError),
    /// The caller may not make this call.
    Unauthorized,
    /// The series is paused.
    Paused,
    /// The sale has not been opened.
    SaleNotOpen,
    /// The series has reached maturity.
    Matured,
    /// The series has not reached maturity.
    NotMatured,
    /// The funds sent are not one coin of the asset asked for.
    InvalidDenom,
    /// The amount is zero or more than the caller holds.
    InsufficientFunds,
    /// There is no price reading, or it is too old.
    OracleStale,
    /// The collateral ratio does not allow the call: a liquidation is
    /// refused while the ratio is not below the liquidation ratio of the
    /// terms.
    CollateralTooLow,
    /// No interest has accrued to the caller.
    NothingToClaim,
    /// The configuration is refused, for the reason given.
    InvalidConfig(String),
}

pub enum ContractErrorView {
    Std(StdErrorView),
    Unauthorized,
    Paused,
    SaleNotOpen,
    Matured,
    NotMatured,
    InvalidDenom,
    InsufficientFunds,
    OracleStale,
    CollateralTooLow,
    NothingToClaim,
    InvalidConfig(Seq<char>),
}

impl View for ContractError {
    type V = ContractErrorView;

    open spec fn view(&self) -> ContractErrorView {
        match self {
            ContractError::Std(e) => ContractErrorView::Std(e@),
            ContractError::Unauthorized => ContractErrorView::Unauthorized,
            ContractError::Paused => ContractErrorView::Paused,
            ContractError::SaleNotOpen => ContractErrorView::SaleNotOpen,
            ContractError::Matured => ContractErrorView::Matured,
            ContractError::NotMatured => ContractErrorView::NotMatured,
            ContractError::InvalidDenom => ContractErrorView::InvalidDenom,
            ContractError::InsufficientFunds => ContractErrorView::InsufficientFunds,
            ContractError::OracleStale => ContractErrorView::OracleStale,
            ContractError::CollateralTooLow => ContractErrorView::CollateralTooLow,
            ContractError::NothingToClaim => ContractErrorView::NothingToClaim,
            ContractError::InvalidConfig(reason) => ContractErrorView::InvalidConfig(reason@),
        }
    }
}

impl ContractError {
    /// The text of this error.
    pub open spec fn message_spec(self) -> Seq<char> {
        match self {
            ContractError::Std(e) => e.message_spec(),
            ContractError::Unauthorized => "Unauthorized"@,
            ContractError::Paused => "Paused"@,
            ContractError::SaleNotOpen => "Sale not open"@,
            ContractError::Matured => "Bond has matured"@,
            ContractError::NotMatured => "Bond not yet matured"@,
            ContractError::InvalidDenom => "Invalid denom"@,
            ContractError::InsufficientFunds => "Insufficient funds"@,
            ContractError::OracleStale => "Oracle price stale or missing"@,
            ContractError::CollateralTooLow => "Collateral ratio too low"@,
            ContractError::NothingToClaim => "Nothing to claim"@,
            ContractError::InvalidConfig(reason) => "Invalid config: "@ + reason@,
        }
    }

    /// The text of this error.
    pub fn message(&self) -> (r: String)
        ensures
            r@ == self.message_spec(),
    {
        match self {
            ContractError::Std(e) => e.message(),
            ContractError::Unauthorized => String::from_str("Unauthorized"),
            ContractError::Paused => String::from_str("Paused"),
            ContractError::SaleNotOpen => String::from_str("Sale not open"),
            ContractError::Matured => String::from_str("Bond has matured"),
            ContractError::NotMatured => String::from_str("Bond not yet matured"),
            ContractError::InvalidDenom => String::from_str("Invalid denom"),
            ContractError::InsufficientFunds => String::from_str("Insufficient funds"),
            ContractError::OracleStale => String::from_str("Oracle price stale or missing"),
            ContractError::CollateralTooLow => String::from_str("Collateral ratio too low"),
            ContractError::NothingToClaim => String::from_str("Nothing to claim"),
            ContractError::InvalidConfig(reason) => String::from_str("Invalid config: ").concat(
                reason.as_str(),
            ),
        }
    }

    /// The failure that carries a host error.
    pub fn from_std(e: StdError) -> (r: ContractError)
        ensures
            r@ == ContractErrorView::Std(e@),
    {
        ContractError::Std(e)
    }
}

} // verus!
