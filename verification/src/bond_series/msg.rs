//! What a bond series is asked, and what it answers.

use vstd::prelude::*;
use crate::heb_types::SeriesTerms;
use crate::heb_types::SeriesTermsView;

verus! {

/// Creates a series.
#[derive(Clone, Debug, PartialEq, Eq)]
pub struct InstantiateMsg {
    /// The terms, which never change.
    pub terms: SeriesTerms,
    /// Who may pause and unpause.
    pub admin: String,
    /// Share of each purchase that goes to the fee recipient, in basis points.
    pub protocol_fee_bps: u32,
    pub fee_recipient: String,
}

pub struct InstantiateMsgView {
    pub terms: SeriesTermsView,
    pub admin: Seq<char>,
    pub protocol_fee_bps: u32,
    pub fee_recipient: Seq<char>,
}

impl View for InstantiateMsg {
    type V = InstantiateMsgView;

    open spec fn view(&self) -> InstantiateMsgView {
        InstantiateMsgView {
            terms: self.terms@,
            admin: self.admin@,
            protocol_fee_bps: self.protocol_fee_bps,
            fee_recipient: self.fee_recipient@,
        }
    }
}

/// The calls that change a series. Amounts are decimal text.
#[derive(Clone, Debug, PartialEq, Eq)]
pub enum ExecuteMsg {
    DepositCollateral {  },
    OpenSale {  },
    Buy { min_tokens: Option<String> },
    Repay {  },
    ClaimInterest {  },
    RedeemAtMaturity { amount: String },
    Liquidate { max_repay: String },
    /// Records the price reading that the host obtained.
    UpdateOraclePrice {  },
    /// Evaluates the first impact checkpoint against the retired amount that
    /// the host obtained.
    CheckpointImpact {  },
    Pause {  },
    Unpause {  },
    Transfer { recipient: String, amount: String },
}

/// The calls that read a series.
#[derive(Clone, Debug, PartialEq, Eq)]
pub enum QueryMsg {
    Terms {  },
    State {  },
    Balance { address: String },
    AccruedInterest { address: String },
    CollateralRatio {  },
    PriceStatus {  },
    ImpactStatus {  },
}

#[derive(Clone, Debug, PartialEq, Eq)]
pub struct TermsResponse {
    pub terms: SeriesTerms,
    pub admin: String,
    pub protocol_fee_bps: u32,
    pub fee_recipient: String,
}

pub struct TermsResponseView {
    pub terms: SeriesTermsView,
    pub admin: Seq<char>,
    pub protocol_fee_bps: u32,
    pub fee_recipient: Seq<char>,
}

impl View for TermsResponse {
    type V = TermsResponseView;

    open spec fn view(&self) -> TermsResponseView {
        TermsResponseView {
            terms: self.terms@,
            admin: self.admin@,
            protocol_fee_bps: self.protocol_fee_bps,
            fee_recipient: self.fee_recipient@,
        }
    }
}

#[derive(Clone, Debug, PartialEq, Eq)]
pub struct PriceStatusResponse {
    pub price: String,
    pub ts: u64,
}

pub struct PriceStatusView {
    pub price: Seq<char>,
    pub ts: u64,
}

impl View for PriceStatusResponse {
    type V = PriceStatusView;

    open spec fn view(&self) -> PriceStatusView {
        PriceStatusView { price: self.price@, ts: self.ts }
    }
}

#[derive(Clone, Debug, PartialEq, Eq)]
pub struct ImpactStatusResponse {
    pub checkpoint_ts: u64,
    pub retired_total: String,
    pub target_retired: String,
    pub met: bool,
}

pub struct ImpactStatusView {
    pub checkpoint_ts: u64,
    pub retired_total: Seq<char>,
    pub target_retired: Seq<char>,
    pub met: bool,
}

impl View for ImpactStatusResponse {
    type V = ImpactStatusView;

    open spec fn view(&self) -> ImpactStatusView {
        ImpactStatusView {
            checkpoint_ts: self.checkpoint_ts,
            retired_total: self.retired_total@,
            target_retired: self.target_retired@,
            met: self.met,
        }
    }
}

#[derive(Clone, Debug, PartialEq, Eq)]
pub struct StateResponse {
    pub sale_open: bool,
    pub paused: bool,
    pub total_principal_sold: String,
    pub total_principal_outstanding: String,
    pub collateral_locked: String,
    pub global_interest_index: String,
    pub last_accrual_ts: u64,
    pub last_price: Option<PriceStatusResponse>,
    pub last_impact: Option<ImpactStatusResponse>,
}

pub struct StateResponseView {
    pub sale_open: bool,
    pub paused: bool,
    pub total_principal_sold: Seq<char>,
    pub total_principal_outstanding: Seq<char>,
    pub collateral_locked: Seq<char>,
    pub global_interest_index: Seq<char>,
    pub last_accrual_ts: u64,
    pub last_price: Option<PriceStatusView>,
    pub last_impact: Option<ImpactStatusView>,
}

impl View for StateResponse {
    type V = StateResponseView;

    open spec fn view(&self) -> StateResponseView {
        StateResponseView {
            sale_open: self.sale_open,
            paused: self.paused,
            total_principal_sold: self.total_principal_sold@,
            total_principal_outstanding: self.total_principal_outstanding@,
            collateral_locked: self.collateral_locked@,
            global_interest_index: self.global_interest_index@,
            last_accrual_ts: self.last_accrual_ts,
            last_price: match self.last_price {
                Some(p) => Some(p@),
                None => None,
            },
            last_impact: match self.last_impact {
                Some(i) => Some(i@),
                None => None,
            },
        }
    }
}

#[derive(Clone, Debug, PartialEq, Eq)]
pub struct BalanceResponse {
    pub balance: String,
}

#[derive(Clone, Debug, PartialEq, Eq)]
pub struct AccruedInterestResponse {
    pub accrued: String,
}

/// The collateral ratio in basis points; `None` where it is unknown.
#[derive(Clone, Copy, Debug, PartialEq, Eq)]
pub struct CollateralRatioResponse {
    pub ratio_bps: Option<u32>,
}

/// The answer to a query, by the kind of query.
#[derive(Clone, Debug, PartialEq, Eq)]
pub enum QueryResponse {
    Terms(TermsResponse),
    State(StateResponse),
    Balance(BalanceResponse),
    AccruedInterest(AccruedInterestResponse),
    CollateralRatio(CollateralRatioResponse),
    PriceStatus(PriceStatusResponse),
    ImpactStatus(ImpactStatusResponse),
}

} // verus!
