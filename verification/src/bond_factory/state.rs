//! The persistent state of the factory: its configuration and the series it
//! has created.

use vstd::prelude::*;
use crate::heb_types::copy_texts;

verus! {

/// The texts of a list, as values.
pub open spec fn texts_view(texts: Seq<String>) -> Seq<Seq<char>> {
    texts.map_values(|s: String| s@)
}

/// The configuration of the factory.
#[derive(Clone, Debug, PartialEq, Eq)]
pub struct Config {
    pub admin: String,
    /// The assets in which a series may raise principal.
    pub allowed_principal_denoms: Vec<String>,
    /// The least initial collateral ratio that terms may ask, in basis points.
    pub min_initial_collateral_ratio_bps: u32,
    pub protocol_fee_bps: u32,
    pub fee_recipient: String,
    /// The code that a new series runs.
    pub bond_series_code_id: u64,
}

pub struct ConfigView {
    pub admin: Seq<char>,
    pub allowed_principal_denoms: Seq<Seq<char>>,
    pub min_initial_collateral_ratio_bps: u32,
    pub protocol_fee_bps: u32,
    pub fee_recipient: Seq<char>,
    pub bond_series_code_id: u64,
}

impl View for Config {
    type V = ConfigView;

    open spec fn view(&self) -> ConfigView {
        ConfigView {
            admin: self.admin@,
            allowed_principal_denoms: texts_view(self.allowed_principal_denoms@),
            min_initial_collateral_ratio_bps: self.min_initial_collateral_ratio_bps,
            protocol_fee_bps: self.protocol_fee_bps,
            fee_recipient: self.fee_recipient@,
            bond_series_code_id: self.bond_series_code_id,
        }
    }
}

impl Config {
    /// A copy of this configuration.
    pub fn duplicate(&self) -> (r: Config)
        ensures
            r@ == self@,
    {
        Config {
            admin: self.admin.clone(),
            allowed_principal_denoms: copy_texts(&self.allowed_principal_denoms),
            min_initial_collateral_ratio_bps: self.min_initial_collateral_ratio_bps,
            protocol_fee_bps: self.protocol_fee_bps,
            fee_recipient: self.fee_recipient.clone(),
            bond_series_code_id: self.bond_series_code_id,
        }
    }
}

/// The factory as a value: its configuration, and the addresses of the
/// series it has created. The series at position `i` has the id `i + 1`.
pub struct FactoryView {
    pub config: ConfigView,
    pub series: Seq<Seq<char>>,
}

/// The factory.
#[derive(Clone, Debug, PartialEq, Eq)]
pub struct Factory {
    pub config: Config,
    /// The addresses of the series created so far, by ascending id; the
    /// first has the id 1.
    pub series: Vec<String>,
}

impl View for Factory {
    type V = FactoryView;

    open spec fn view(&self) -> FactoryView {
        FactoryView { config: self.config@, series: texts_view(self.series@) }
    }
}

} // verus!
