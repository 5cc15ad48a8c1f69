//! How well the locked collateral covers the outstanding principal.

use vstd::prelude::*;
use crate::bond_series::math::multiply_ratio;
use crate::bond_series::math::BPS_SCALE;
use crate::bond_series::state::PRICE_SCALE;

verus! {

/// The greatest ratio that is reported, in basis points.
pub const RATIO_CEILING: u32 = 0xffff_ffff;

/// What `collateral` is worth in units of principal at `price`, rounded
/// down.
pub open spec fn collateral_value(collateral: u128, price: u128) -> nat {
    (collateral * price) as nat / (PRICE_SCALE as nat)
}

/// The worth of the collateral over the outstanding principal, in basis
/// points and rounded down. The ratio is reported as `RATIO_CEILING` where
/// nothing is outstanding, where the worth of the collateral leaves 128 bits,
/// and where the ratio is above the ceiling.
pub open spec fn ratio_bps(collateral: u128, price: u128, outstanding: u128) -> u32 {
    let value = collateral_value(collateral, price);
    if outstanding == 0 || value > u128::MAX {
        RATIO_CEILING
    } else if (value * BPS_SCALE) / (outstanding as int) > RATIO_CEILING {
        RATIO_CEILING
    } else {
        ((value * BPS_SCALE) / (outstanding as int)) as u32
    }
}

/// The collateral ratio at a fresh price; unknown without one.
pub open spec fn collateral_ratio_spec(
    collateral_locked: u128,
    price: Option<u128>,
    total_principal_outstanding: u128,
) -> Option<u32> {
    match price {
        None => None,
        Some(p) => Some(ratio_bps(collateral_locked, p, total_principal_outstanding)),
    }
}

/// The collateral ratio in basis points. `price` is the fresh price, or
/// `None` where there is none: then the ratio is unknown.
pub fn collateral_ratio(
    collateral_locked: u128,
    price: Option<u128>,
    total_principal_outstanding: u128,
) -> (r: Option<u32>)
    ensures
        r == collateral_ratio_spec(collateral_locked, price, total_principal_outstanding),
{
    let p = match price {
        None => {
            return None;
        },
        Some(p) => p,
    };
    if total_principal_outstanding == 0 {
        return Some(RATIO_CEILING);
    }
    let value = match multiply_ratio(collateral_locked, p, PRICE_SCALE) {
        None => {
            return Some(RATIO_CEILING);
        },
        Some(v) => v,
    };
    match multiply_ratio(value, BPS_SCALE, total_principal_outstanding) {
        None => Some(RATIO_CEILING),
        Some(ratio) => if ratio > RATIO_CEILING as u128 {
            Some(RATIO_CEILING)
        } else {
            Some(ratio as u32)
        },
    }
}

/// Whether a position may be liquidated: its ratio is known and below
/// `liquidation_ratio_bps`. An unknown ratio never allows it.
pub open spec fn liquidatable_spec(ratio: Option<u32>, liquidation_ratio_bps: u32) -> bool {
    match ratio {
        None => false,
        Some(r) => r < liquidation_ratio_bps,
    }
}

/// Whether a position with the given ratio may be liquidated.
pub fn liquidatable(ratio: Option<u32>, liquidation_ratio_bps: u32) -> (r: bool)
    ensures
        r == liquidatable_spec(ratio, liquidation_ratio_bps),
{
    match ratio {
        None => false,
        Some(r) => r < liquidation_ratio_bps,
    }
}

/// The collateral that a repayment of `repaid` units of principal buys at
/// `price`, with the liquidation bonus on top: the repayment is turned into
/// units of collateral at the price, rounded down, and that amount is raised
/// by `bonus_bps` basis points, rounded down.
pub open spec fn collateral_for_repayment(repaid: u128, price: u128, bonus_bps: u32) -> nat {
    ((repaid * PRICE_SCALE) as nat / (price as nat) * (BPS_SCALE + bonus_bps) as nat) / (
    BPS_SCALE as nat)
}

/// The collateral that leaves the series for a repayment: what the
/// repayment buys, and no more than is locked.
pub open spec fn seized(repaid: u128, price: u128, bonus_bps: u32, locked: u128) -> u128 {
    if collateral_for_repayment(repaid, price, bonus_bps) <= locked {
        collateral_for_repayment(repaid, price, bonus_bps) as u128
    } else {
        locked
    }
}

/// An amount raised by a bonus is no less than the amount.
pub proof fn lemma_bonus_raises(base: nat, bonus_bps: u32)
    ensures
        (base * (BPS_SCALE + bonus_bps) as nat) / (BPS_SCALE as nat) >= base,
{
    assert((base * (10_000 + bonus_bps) as nat) / 10_000 >= base) by (nonlinear_arith);
}

/// The collateral that leaves the series for a repayment of `repaid` at
/// `price`.
pub fn seized_collateral(repaid: u128, price: u128, bonus_bps: u32, locked: u128) -> (r: u128)
    requires
        price > 0,
    ensures
        r == seized(repaid, price, bonus_bps, locked),
{
    proof {
        lemma_bonus_raises((repaid * PRICE_SCALE) as nat / (price as nat), bonus_bps);
    }
    let base = match multiply_ratio(repaid, PRICE_SCALE, price) {
        None => {
            return locked;
        },
        Some(b) => b,
    };
    match multiply_ratio(base, BPS_SCALE + bonus_bps as u128, BPS_SCALE) {
        None => locked,
        Some(bought) => if bought <= locked {
            bought
        } else {
            locked
        },
    }
}

} // verus!
