//! Why a call on the factory fails.

use vstd::prelude::*;
use crate::host::StdError;
use crate::host::StdErrorView;

verus! {

/// The failures of the factory. A failed call changes nothing.
#[derive(Clone, Debug, PartialEq, Eq)]
pub enum ContractError {
    /// The host reported a failure.
    Std(StdError),
    /// The caller may not make this call.
    Unauthorized,
    /// The configuration or the reply is refused, for the reason given.
    InvalidConfig(String),
    /// The principal asset of the terms is not among those allowed.
    DenomNotAllowed,
}

pub enum ContractErrorView {
    Std(StdErrorView),
    Unauthorized,
    InvalidConfig(Seq<char>),
    DenomNotAllowed,
}

impl View for ContractError {
    type V = ContractErrorView;

    open spec fn view(&self) -> ContractErrorView {
        match self {
            ContractError::Std(e) => ContractErrorView::Std(e@),
            ContractError::Unauthorized => ContractErrorView::Unauthorized,
            ContractError::InvalidConfig(reason) => ContractErrorView::InvalidConfig(reason@),
            ContractError::DenomNotAllowed => ContractErrorView::DenomNotAllowed,
        }
    }
}

impl ContractError {
    /// The text of this error.
    pub open spec fn message_spec(self) -> Seq<char> {
        match self {
            ContractError::Std(e) => e.message_spec(),
            ContractError::Unauthorized => "Unauthorized"@,
            ContractError::InvalidConfig(reason) => "Invalid config: "@ + reason@,
            ContractError::DenomNotAllowed => "Principal denom not allowed"@,
        }
    }

    /// The text of this error.
    pub fn message(&self) -> (r: String)
        ensures
            r@ == self.message_spec(),
    {
        match self {
            ContractError::Std(e) => e.message(),
            ContractError::Unauthorized => String::from_str("Unauthorized"),
            ContractError::InvalidConfig(reason) => String::from_str("Invalid config: ").concat(
                reason.as_str(),
            ),
            ContractError::DenomNotAllowed => String::from_str("Principal denom not allowed"),
        }
    }
}

} // verus!
