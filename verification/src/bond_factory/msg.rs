//! What the factory is asked, and what it answers.

use vstd::prelude::*;
use crate::heb_types::SeriesTerms;
use crate::host::Attribute;
use crate::host::AttributeView;
use crate::bond_factory::state::texts_view;
use crate::bond_factory::state::ConfigView;
use crate::bond_series::msg::InstantiateMsgView;

verus! {

/// Creates the factory.
#[derive(Clone, Debug, PartialEq, Eq)]
pub struct InstantiateMsg {
    pub admin: String,
    pub allowed_principal_denoms: Vec<String>,
    pub min_initial_collateral_ratio_bps: u32,
    pub protocol_fee_bps: u32,
    pub fee_recipient: String,
    pub bond_series_code_id: u64,
}

impl View for InstantiateMsg {
    type V = ConfigView;

    open spec fn view(&self) -> ConfigView {
        ConfigView {
            admin: self.admin@,
            allowed_principal_denoms: texts_view(self.allowed_principal_denoms@),
            min_initial_collateral_ratio_bps: self.min_initial_collateral_ratio_bps,
            protocol_fee_bps: self.protocol_fee_bps,
            fee_recipient: self.fee_recipient@,
            bond_series_code_id: self.bond_series_code_id,
        }
    }
}

/// The calls that change the factory.
#[derive(Clone, Debug, PartialEq, Eq)]
pub enum ExecuteMsg {
    CreateSeries { terms: SeriesTerms },
    UpdateConfig {
        admin: Option<String>,
        allowed_principal_denoms: Option<Vec<String>>,
        min_initial_collateral_ratio_bps: Option<u32>,
        protocol_fee_bps: Option<u32>,
        fee_recipient: Option<String>,
        bond_series_code_id: Option<u64>,
    },
}

/// The calls that read the factory.
#[derive(Clone, Debug, PartialEq, Eq)]
pub enum QueryMsg {
    Config {  },
    SeriesList { start_after: Option<String>, limit: Option<u32> },
}

#[derive(Clone, Debug, PartialEq, Eq)]
pub struct ConfigResponse {
    pub admin: String,
    pub allowed_principal_denoms: Vec<String>,
    pub min_initial_collateral_ratio_bps: u32,
    pub protocol_fee_bps: u32,
    pub fee_recipient: String,
    pub bond_series_code_id: u64,
}

impl View for ConfigResponse {
    type V = ConfigView;

    open spec fn view(&self) -> ConfigView {
        ConfigView {
            admin: self.admin@,
            allowed_principal_denoms: texts_view(self.allowed_principal_denoms@),
            min_initial_collateral_ratio_bps: self.min_initial_collateral_ratio_bps,
            protocol_fee_bps: self.protocol_fee_bps,
            fee_recipient: self.fee_recipient@,
            bond_series_code_id: self.bond_series_code_id,
        }
    }
}

#[derive(Clone, Debug, PartialEq, Eq)]
pub struct SeriesListResponse {
    pub series: Vec<String>,
}

/// The answer to a query, by the kind of query.
#[derive(Clone, Debug, PartialEq, Eq)]
pub enum QueryResponse {
    Config(ConfigResponse),
    SeriesList(SeriesListResponse),
}

/// A request to the host to create a series. The host answers it later, in
/// a call of its own that carries `reply_id`.
#[derive(Clone, Debug, PartialEq, Eq)]
pub struct SeriesRequest {
    /// By which the answer is told apart.
    pub reply_id: u64,
    /// Who may migrate the new series.
    pub admin: Option<String>,
    pub code_id: u64,
    pub msg: crate::bond_series::msg::InstantiateMsg,
    pub label: String,
}

pub struct SeriesRequestView {
    pub reply_id: u64,
    pub admin: Option<Seq<char>>,
    pub code_id: u64,
    pub msg: InstantiateMsgView,
    pub label: Seq<char>,
}

impl View for SeriesRequest {
    type V = SeriesRequestView;

    open spec fn view(&self) -> SeriesRequestView {
        SeriesRequestView {
            reply_id: self.reply_id,
            admin: match self.admin {
                Some(a) => Some(a@),
                None => None,
            },
            code_id: self.code_id,
            msg: self.msg@,
            label: self.label@,
        }
    }
}

/// What a successful call on the factory hands back: requests to the host,
/// and the attributes of the call.
#[derive(Clone, Debug, PartialEq, Eq)]
pub struct Response {
    pub requests: Vec<SeriesRequest>,
    pub attributes: Vec<Attribute>,
}

pub struct ResponseView {
    pub requests: Seq<SeriesRequestView>,
    pub attributes: Seq<AttributeView>,
}

impl View for Response {
    type V = ResponseView;

    open spec fn view(&self) -> ResponseView {
        ResponseView {
            requests: self.requests@.map_values(|r: SeriesRequest| r@),
            attributes: self.attributes@.map_values(|a: Attribute| a@),
        }
    }
}

/// Something that happened while the host carried out a request.
#[derive(Clone, Debug, PartialEq, Eq)]
pub struct Event {
    pub ty: String,
    pub attributes: Vec<Attribute>,
}

/// The host's answer to a request: the events of the request where it
/// succeeded, else what the host says of its failure.
#[derive(Debug, PartialEq, Eq)]
pub struct Reply {
    pub id: u64,
    pub result: Result<Vec<Event>, String>,
}

} // verus!
