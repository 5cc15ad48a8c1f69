//! Terms of a bond series, as they are agreed when the series is created.

use vstd::prelude::*;

verus! {

/// How the price of the collateral asset is obtained.
#[derive(Clone, Debug, PartialEq, Eq)]
pub struct BandPriceConfig {
    /// Channel to the oracle relayer.
    pub band_ibc_channel: String,
    /// Oracle script that prices the collateral asset.
    pub regen_price_script_id: u64,
    /// Greatest acceptable age of a price reading, in seconds.
    pub max_price_age_seconds: u64,
}

pub struct BandPriceConfigView {
    pub band_ibc_channel: Seq<char>,
    pub regen_price_script_id: u64,
    pub max_price_age_seconds: u64,
}

impl View for BandPriceConfig {
    type V = BandPriceConfigView;

    open spec fn view(&self) -> BandPriceConfigView {
        BandPriceConfigView {
            band_ibc_channel: self.band_ibc_channel@,
            regen_price_script_id: self.regen_price_script_id,
            max_price_age_seconds: self.max_price_age_seconds,
        }
    }
}

/// Where the retired amount of an impact checkpoint is read from.
#[derive(Clone, Copy, Debug, PartialEq, Eq)]
pub enum ImpactMode {
    /// The retired supply of the tracked credit batches.
    OnChainEcocreditBatches,
    /// An oracle script.
    BandOracleScript,
}

/// A point in time by which a target amount is to be retired.
#[derive(Clone, Debug, PartialEq, Eq)]
pub struct ImpactCheckpoint {
    pub ts: u64,
    /// Target amount retired by `ts`, in decimal text.
    pub target_retired: String,
}

pub struct ImpactCheckpointView {
    pub ts: u64,
    pub target_retired: Seq<char>,
}

impl View for ImpactCheckpoint {
    type V = ImpactCheckpointView;

    open spec fn view(&self) -> ImpactCheckpointView {
        ImpactCheckpointView { ts: self.ts, target_retired: self.target_retired@ }
    }
}

/// The impact side of a series.
#[derive(Clone, Debug, PartialEq, Eq)]
pub struct ImpactConfig {
    pub mode: ImpactMode,
    /// Credit batches that are tracked.
    pub batch_ids: Vec<String>,
    /// Oracle script to ask, where the mode is `BandOracleScript`.
    pub band_impact_script_id: Option<u64>,
    /// Checkpoints, in the order in which they are evaluated.
    pub checkpoints: Vec<ImpactCheckpoint>,
}

pub struct ImpactConfigView {
    pub mode: ImpactMode,
    pub batch_ids: Seq<Seq<char>>,
    pub band_impact_script_id: Option<u64>,
    pub checkpoints: Seq<ImpactCheckpointView>,
}

impl View for ImpactConfig {
    type V = ImpactConfigView;

    open spec fn view(&self) -> ImpactConfigView {
        ImpactConfigView {
            mode: self.mode,
            batch_ids: self.batch_ids@.map_values(|s: String| s@),
            band_impact_script_id: self.band_impact_script_id,
            checkpoints: self.checkpoints@.map_values(|c: ImpactCheckpoint| c@),
        }
    }
}

/// The terms of a series. They never change once the series exists.
#[derive(Clone, Debug, PartialEq, Eq)]
pub struct SeriesTerms {
    pub borrower: String,
    pub collateral_denom: String,
    pub principal_denom: String,
    /// Greatest principal to be sold, in decimal text.
    pub principal_cap: String,
    pub maturity_ts: u64,
    pub base_rate_apr_bps: u32,
    pub penalty_rate_apr_bps: u32,
    pub coupon_period_seconds: Option<u64>,
    pub initial_collateral_ratio_bps: u32,
    pub liquidation_ratio_bps: u32,
    pub liquidation_bonus_bps: u32,
    pub oracle: BandPriceConfig,
    pub impact: ImpactConfig,
}

pub struct SeriesTermsView {
    pub borrower: Seq<char>,
    pub collateral_denom: Seq<char>,
    pub principal_denom: Seq<char>,
    pub principal_cap: Seq<char>,
    pub maturity_ts: u64,
    pub base_rate_apr_bps: u32,
    pub penalty_rate_apr_bps: u32,
    pub coupon_period_seconds: Option<u64>,
    pub initial_collateral_ratio_bps: u32,
    pub liquidation_ratio_bps: u32,
    pub liquidation_bonus_bps: u32,
    pub oracle: BandPriceConfigView,
    pub impact: ImpactConfigView,
}

impl View for SeriesTerms {
    type V = SeriesTermsView;

    open spec fn view(&self) -> SeriesTermsView {
        SeriesTermsView {
            borrower: self.borrower@,
            collateral_denom: self.collateral_denom@,
            principal_denom: self.principal_denom@,
            principal_cap: self.principal_cap@,
            maturity_ts: self.maturity_ts,
            base_rate_apr_bps: self.base_rate_apr_bps,
            penalty_rate_apr_bps: self.penalty_rate_apr_bps,
            coupon_period_seconds: self.coupon_period_seconds,
            initial_collateral_ratio_bps: self.initial_collateral_ratio_bps,
            liquidation_ratio_bps: self.liquidation_ratio_bps,
            liquidation_bonus_bps: self.liquidation_bonus_bps,
            oracle: self.oracle@,
            impact: self.impact@,
        }
    }
}

/// A copy of a list of texts.
pub fn copy_texts(texts: &Vec<String>) -> (r: Vec<String>)
    ensures
        r@.map_values(|s: String| s@) == texts@.map_values(|s: String| s@),
{
    let mut r: Vec<String> = Vec::new();
    let mut i: usize = 0;
    while i < texts.len()
        invariant
            i <= texts.len(),
            r@.len() == i,
            forall|j: int| 0 <= j < i ==> r@[j]@ == texts@[j]@,
        decreases texts.len() - i,
    {
        r.push(texts[i].clone());
        i = i + 1;
    }
    assert(r@.map_values(|s: String| s@) =~= texts@.map_values(|s: String| s@));
    r
}

impl BandPriceConfig {
    /// A copy of these settings.
    pub fn duplicate(&self) -> (r: BandPriceConfig)
        ensures
            r@ == self@,
    {
        BandPriceConfig {
            band_ibc_channel: self.band_ibc_channel.clone(),
            regen_price_script_id: self.regen_price_script_id,
            max_price_age_seconds: self.max_price_age_seconds,
        }
    }
}

impl ImpactCheckpoint {
    /// A copy of this checkpoint.
    pub fn duplicate(&self) -> (r: ImpactCheckpoint)
        ensures
            r@ == self@,
    {
        ImpactCheckpoint { ts: self.ts, target_retired: self.target_retired.clone() }
    }
}

impl ImpactConfig {
    /// A copy of these settings.
    pub fn duplicate(&self) -> (r: ImpactConfig)
        ensures
            r@ == self@,
    {
        let mut checkpoints: Vec<ImpactCheckpoint> = Vec::new();
        let mut i: usize = 0;
        while i < self.checkpoints.len()
            invariant
                i <= self.checkpoints.len(),
                checkpoints@.len() == i,
                forall|j: int| 0 <= j < i ==> checkpoints@[j]@ == self.checkpoints@[j]@,
            decreases self.checkpoints.len() - i,
        {
            checkpoints.push(self.checkpoints[i].duplicate());
            i = i + 1;
        }
        assert(checkpoints@.map_values(|c: ImpactCheckpoint| c@) =~= self.checkpoints@.map_values(
            |c: ImpactCheckpoint| c@,
        ));
        ImpactConfig {
            mode: self.mode,
            batch_ids: copy_texts(&self.batch_ids),
            band_impact_script_id: self.band_impact_script_id,
            checkpoints,
        }
    }
}

impl SeriesTerms {
    /// A copy of these terms.
    pub fn duplicate(&self) -> (r: SeriesTerms)
        ensures
            r@ == self@,
    {
        SeriesTerms {
            borrower: self.borrower.clone(),
            collateral_denom: self.collateral_denom.clone(),
            principal_denom: self.principal_denom.clone(),
            principal_cap: self.principal_cap.clone(),
            maturity_ts: self.maturity_ts,
            base_rate_apr_bps: self.base_rate_apr_bps,
            penalty_rate_apr_bps: self.penalty_rate_apr_bps,
            coupon_period_seconds: self.coupon_period_seconds,
            initial_collateral_ratio_bps: self.initial_collateral_ratio_bps,
            liquidation_ratio_bps: self.liquidation_ratio_bps,
            liquidation_bonus_bps: self.liquidation_bonus_bps,
            oracle: self.oracle.duplicate(),
            impact: self.impact.duplicate(),
        }
    }
}

} // verus!
