use heb_bonds::bond_series::collateral::{
    collateral_ratio, liquidatable, seized_collateral, RATIO_CEILING,
};
use heb_bonds::bond_series::math::{
    accrue_index, multiply_ratio, parse_u128, to_string_u128, INDEX_SCALE,
};
use heb_bonds::bond_series::state::PRICE_SCALE;
use heb_bonds::host::StdError;

fn std_failure(text: &str) -> StdError {
    StdError::GenericErr { msg: format!("bad u128: {}", text.parse::<u128>().unwrap_err()) }
}

#[test]
fn to_string_u128_writes_decimal() {
    assert_eq!(to_string_u128(0), "0");
    assert_eq!(to_string_u128(9), "9");
    assert_eq!(to_string_u128(10), "10");
    assert_eq!(to_string_u128(500_000), "500000");
    assert_eq!(to_string_u128(1_234_567_890), 1_234_567_890u128.to_string());
    assert_eq!(to_string_u128(u128::MAX), u128::MAX.to_string());
}

#[test]
fn parse_u128_reads_decimal() {
    assert_eq!(parse_u128("0"), Ok(0));
    assert_eq!(parse_u128("+17"), Ok(17));
    assert_eq!(parse_u128("007"), Ok(7));
    assert_eq!(parse_u128("500000"), Ok(500_000));
    assert_eq!(parse_u128(&u128::MAX.to_string()), Ok(u128::MAX));
}

#[test]
fn parse_u128_agrees_with_std_on_refusals() {
    for text in [
        "",
        "+",
        "-",
        "-5",
        "12a",
        "a12",
        " 1",
        "1 ",
        "++1",
        "1.5",
        "340282366920938463463374607431768211456",
        "3402823669209384634633746074317682114550",
        "99999999999999999999999999999999999999999x",
        "9999999999999999999999999999999999999x9",
        "\u{661}",
    ] {
        assert_eq!(parse_u128(text), Err(std_failure(text)), "text {:?}", text);
    }
}

#[test]
fn parse_u128_failure_texts() {
    assert_eq!(
        parse_u128(""),
        Err(StdError::GenericErr {
            msg: "bad u128: cannot parse integer from empty string".to_string()
        })
    );
    assert_eq!(
        parse_u128("x"),
        Err(StdError::GenericErr { msg: "bad u128: invalid digit found in string".to_string() })
    );
    assert_eq!(
        parse_u128("340282366920938463463374607431768211456"),
        Err(StdError::GenericErr {
            msg: "bad u128: number too large to fit in target type".to_string()
        })
    );
}

#[test]
fn parse_u128_reads_back_what_was_written() {
    for x in [0u128, 1, 9, 10, 99, 100, 12345, u64::MAX as u128, u128::MAX - 1, u128::MAX] {
        assert_eq!(parse_u128(&to_string_u128(x)), Ok(x));
    }
}

#[test]
fn multiply_ratio_rounds_down() {
    assert_eq!(multiply_ratio(5, 99, 100), Some(4));
    assert_eq!(multiply_ratio(500_000, 50, 10_000), Some(2_500));
    assert_eq!(multiply_ratio(7, 0, 3), Some(0));
    assert_eq!(multiply_ratio(1, 1, 2), Some(0));
}

#[test]
fn multiply_ratio_uses_a_wide_product() {
    assert_eq!(multiply_ratio(u128::MAX, u128::MAX, u128::MAX), Some(u128::MAX));
    assert_eq!(multiply_ratio(u128::MAX, 10, 20), Some(u128::MAX / 2));
    assert_eq!(multiply_ratio(u128::MAX, 2, 1), None);
}

#[test]
fn accrue_index_one_year_at_ten_percent() {
    assert_eq!(accrue_index(INDEX_SCALE, 31_536_000, 1000), Ok(1_100_000_000_000_000_000));
}

#[test]
fn accrue_index_exact_values() {
    assert_eq!(accrue_index(INDEX_SCALE, 0, 1000), Ok(INDEX_SCALE));
    assert_eq!(accrue_index(INDEX_SCALE, 31_536_000, 0), Ok(INDEX_SCALE));
    // one second at 10% a year: 10^18 * 1000 / (10000 * 31536000), rounded down
    assert_eq!(accrue_index(INDEX_SCALE, 1, 1000), Ok(INDEX_SCALE + 3_170_979_198));
    assert_eq!(accrue_index(3, 1, 1), Ok(3));
    assert_eq!(accrue_index(0, 100, 100), Ok(0));
}

#[test]
fn accrue_index_refuses_an_index_beyond_128_bits() {
    assert_eq!(
        accrue_index(u128::MAX, 31_536_000, 10_000),
        Err(StdError::GenericErr { msg: "arithmetic overflow".to_string() })
    );
    assert_eq!(
        accrue_index(u128::MAX, u64::MAX, u32::MAX),
        Err(StdError::GenericErr { msg: "arithmetic overflow".to_string() })
    );
    assert_eq!(accrue_index(u128::MAX, 1, 0), Ok(u128::MAX));
}

#[test]
fn accrue_index_never_falls() {
    for index in [0u128, 1, INDEX_SCALE, 3 * INDEX_SCALE + 7] {
        for dt in [0u64, 1, 3600, 31_536_000] {
            for rate in [0u32, 1, 1000, 10_000] {
                assert!(accrue_index(index, dt, rate).unwrap() >= index);
            }
        }
    }
}

#[test]
fn collateral_ratio_is_unknown_without_a_price() {
    assert_eq!(collateral_ratio(1_000_000, None, 500_000), None);
    assert!(!liquidatable(None, 12_000));
}

#[test]
fn collateral_ratio_exact_values() {
    // collateral worth twice the debt
    assert_eq!(collateral_ratio(1_000_000, Some(PRICE_SCALE), 500_000), Some(20_000));
    // half the price halves the ratio
    assert_eq!(collateral_ratio(1_000_000, Some(PRICE_SCALE / 2), 500_000), Some(10_000));
    assert_eq!(collateral_ratio(1, Some(PRICE_SCALE), 3), Some(3_333));
    assert_eq!(collateral_ratio(0, Some(PRICE_SCALE), 3), Some(0));
    // the worth of the collateral is rounded down before the ratio is taken
    assert_eq!(collateral_ratio(1, Some(PRICE_SCALE - 1), 1), Some(0));
}

#[test]
fn collateral_ratio_ceiling() {
    assert_eq!(collateral_ratio(1_000_000, Some(PRICE_SCALE), 0), Some(RATIO_CEILING));
    assert_eq!(collateral_ratio(u128::MAX, Some(u128::MAX), 1), Some(RATIO_CEILING));
    assert_eq!(collateral_ratio(u128::MAX, Some(PRICE_SCALE), 1), Some(RATIO_CEILING));
    assert_eq!(RATIO_CEILING, u32::MAX);
}

#[test]
fn liquidatable_below_the_liquidation_ratio() {
    assert!(liquidatable(Some(11_999), 12_000));
    assert!(!liquidatable(Some(12_000), 12_000));
    assert!(!liquidatable(Some(20_000), 12_000));
}

#[test]
fn seized_collateral_exact_values() {
    // at a price of one, a repayment buys as much collateral, and the bonus on top
    assert_eq!(seized_collateral(1_000, PRICE_SCALE, 0, 5_000), 1_000);
    assert_eq!(seized_collateral(1_000, PRICE_SCALE, 500, 5_000), 1_050);
    assert_eq!(seized_collateral(333, PRICE_SCALE, 500, 5_000), 349);
    // the price turns principal into collateral, rounded down, before the bonus
    assert_eq!(seized_collateral(100, 3 * PRICE_SCALE, 500, 5_000), 34);
    assert_eq!(seized_collateral(600, PRICE_SCALE / 2, 500, 5_000), 1_260);
    assert_eq!(seized_collateral(0, PRICE_SCALE, 500, 5_000), 0);
    assert_eq!(seized_collateral(1, 2 * PRICE_SCALE, u32::MAX, 5_000), 0);
}

#[test]
fn seized_collateral_is_capped_by_what_is_locked() {
    assert_eq!(seized_collateral(1_000, PRICE_SCALE, 500, 1_049), 1_049);
    assert_eq!(seized_collateral(1_000, PRICE_SCALE, 500, 0), 0);
    assert_eq!(seized_collateral(u128::MAX, 1, 0, 77), 77);
    assert_eq!(seized_collateral(u128::MAX, PRICE_SCALE, u32::MAX, u128::MAX), u128::MAX);
    assert_eq!(seized_collateral(u128::MAX, PRICE_SCALE, 0, u128::MAX), u128::MAX);
}
