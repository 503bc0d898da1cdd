use anchor_options::math::{
    calculate_collateral, calculate_collateral_amount, calculate_expired_value,
    calculate_option_amount, checked_collateral, checked_collateral_amount,
    checked_expired_value, checked_option_amount,
};

const SOL_DECIMALS: u8 = 9;
const SRM_DECIMALS: u8 = 6;
const TEST_DECIMALS: u8 = 2;
const USDC_DECIMALS: u8 = 6;

const PYTH_USD_EXPONENT: i32 = -8;

#[test]
fn test_calculate_option_amount() {
    let options = calculate_option_amount(
        50_000000000,
        100_00000000,
        false,
        SOL_DECIMALS,
        SOL_DECIMALS,
        PYTH_USD_EXPONENT,
    );
    assert_eq!(options, 50_000000000);

    let options = calculate_option_amount(
        5000_000000,
        100_00000000,
        true,
        USDC_DECIMALS,
        SOL_DECIMALS,
        PYTH_USD_EXPONENT,
    );
    assert_eq!(options, 50_000000000);

    let options = calculate_option_amount(
        10_000000,
        2_00000000,
        false,
        SRM_DECIMALS,
        SRM_DECIMALS,
        PYTH_USD_EXPONENT,
    );
    assert_eq!(options, 10_000000);

    let options = calculate_option_amount(
        20_000000,
        2_00000000,
        true,
        USDC_DECIMALS,
        SRM_DECIMALS,
        PYTH_USD_EXPONENT,
    );
    assert_eq!(options, 10_000000);

    let options = calculate_option_amount(
        10_00,
        6_00000000,
        false,
        TEST_DECIMALS,
        TEST_DECIMALS,
        PYTH_USD_EXPONENT,
    );
    assert_eq!(options, 10_00);

    let options = calculate_option_amount(
        60_000000,
        6_00000000,
        true,
        USDC_DECIMALS,
        TEST_DECIMALS,
        PYTH_USD_EXPONENT,
    );
    assert_eq!(options, 10_00);
}

#[test]
fn test_calculate_collateral_amount() {
    let collateral = calculate_collateral_amount(
        50_000000000,
        100_00000000,
        false,
        SOL_DECIMALS,
        SOL_DECIMALS,
        PYTH_USD_EXPONENT,
    );
    assert_eq!(collateral, 50_000000000);

    let collateral = calculate_collateral_amount(
        50_000000000,
        100_00000000,
        true,
        USDC_DECIMALS,
        SOL_DECIMALS,
        PYTH_USD_EXPONENT,
    );
    assert_eq!(collateral, 5000_000000);

    let collateral = calculate_collateral_amount(
        10_000000,
        2_00000000,
        false,
        SRM_DECIMALS,
        SRM_DECIMALS,
        PYTH_USD_EXPONENT,
    );
    assert_eq!(collateral, 10_000000);

    let collateral = calculate_collateral_amount(
        10_000000,
        2_00000000,
        true,
        USDC_DECIMALS,
        SRM_DECIMALS,
        PYTH_USD_EXPONENT,
    );
    assert_eq!(collateral, 20_000000);

    let collateral = calculate_collateral_amount(
        10_00,
        6_00000000,
        false,
        TEST_DECIMALS,
        TEST_DECIMALS,
        PYTH_USD_EXPONENT,
    );
    assert_eq!(collateral, 10_00);

    let collateral = calculate_collateral_amount(
        10_00,
        6_00000000,
        true,
        USDC_DECIMALS,
        TEST_DECIMALS,
        PYTH_USD_EXPONENT,
    );
    assert_eq!(collateral, 60_000000);
}

#[test]
fn test_calculate_expired_value() {
    let payout = calculate_expired_value(
        50_000000000,
        100_00000000,
        120_00000000,
        false,
        SOL_DECIMALS,
        SOL_DECIMALS,
        PYTH_USD_EXPONENT,
    );
    assert_eq!(payout, 8_333333333);

    let payout = calculate_expired_value(
        50_000000000,
        100_00000000,
        80_00000000,
        false,
        SOL_DECIMALS,
        SOL_DECIMALS,
        PYTH_USD_EXPONENT,
    );
    assert_eq!(payout, 0);

    let payout = calculate_expired_value(
        50_000000000,
        100_00000000,
        120_00000000,
        true,
        USDC_DECIMALS,
        SOL_DECIMALS,
        PYTH_USD_EXPONENT,
    );
    assert_eq!(payout, 0);

    let payout = calculate_expired_value(
        50_000000000,
        100_00000000,
        80_00000000,
        true,
        USDC_DECIMALS,
        SOL_DECIMALS,
        PYTH_USD_EXPONENT,
    );
    assert_eq!(payout, 1000_000000);

    let payout = calculate_expired_value(
        10_000000,
        2_00000000,
        3_00000000,
        false,
        SRM_DECIMALS,
        SRM_DECIMALS,
        PYTH_USD_EXPONENT,
    );
    assert_eq!(payout, 3_333333);

    let payout = calculate_expired_value(
        10_000000,
        2_00000000,
        1_00000000,
        false,
        SRM_DECIMALS,
        SRM_DECIMALS,
        PYTH_USD_EXPONENT,
    );
    assert_eq!(payout, 0);

    let payout = calculate_expired_value(
        10_000000,
        2_00000000,
        3_00000000,
        true,
        USDC_DECIMALS,
        SRM_DECIMALS,
        PYTH_USD_EXPONENT,
    );
    assert_eq!(payout, 0);

    let payout = calculate_expired_value(
        10_000000,
        2_00000000,
        1_00000000,
        true,
        USDC_DECIMALS,
        SRM_DECIMALS,
        PYTH_USD_EXPONENT,
    );
    assert_eq!(payout, 10_000000);

    let payout = calculate_expired_value(
        10_00,
        6_00000000,
        7_00000000,
        false,
        TEST_DECIMALS,
        TEST_DECIMALS,
        PYTH_USD_EXPONENT,
    );
    assert_eq!(payout, 1_42);

    let payout = calculate_expired_value(
        10_00,
        6_00000000,
        5_00000000,
        false,
        TEST_DECIMALS,
        TEST_DECIMALS,
        PYTH_USD_EXPONENT,
    );
    assert_eq!(payout, 0);

    let payout = calculate_expired_value(
        10_00,
        6_00000000,
        7_00000000,
        true,
        USDC_DECIMALS,
        TEST_DECIMALS,
        PYTH_USD_EXPONENT,
    );
    assert_eq!(payout, 0);

    let payout = calculate_expired_value(
        10_00,
        6_00000000,
        5_00000000,
        true,
        USDC_DECIMALS,
        TEST_DECIMALS,
        PYTH_USD_EXPONENT,
    );
    assert_eq!(payout, 10_000000);
}

#[test]
fn test_calculate_collateral() {
    let collateral = calculate_collateral(10_000000000, 10_000000000, 10_000000000);
    assert_eq!(collateral, 10_000000000);

    let collateral = calculate_collateral(5_000000000, 10_000000000, 10_000000000);
    assert_eq!(collateral, 5_000000000);

    let collateral = calculate_collateral(10_000000000, 6_000000000, 10_000000000);
    assert_eq!(collateral, 6_000000000);

    let collateral = calculate_collateral(5_000000000, 6_000000000, 10_000000000);
    assert_eq!(collateral, 3_000000000);
}

#[test]
fn call_converts_one_for_one() {
    for x in [0u64, 1, 10, 123_456_789, u64::MAX] {
        assert_eq!(calculate_option_amount(x, 7, false, USDC_DECIMALS, SOL_DECIMALS, -8), x);
        assert_eq!(calculate_collateral_amount(x, 7, false, USDC_DECIMALS, SOL_DECIMALS, -8), x);
    }
}

#[test]
fn put_round_trip_never_gains() {
    let collateral = 5000_000000u64;
    let options = calculate_option_amount(collateral, 3_00000000, true, USDC_DECIMALS, SOL_DECIMALS, -8);
    assert_eq!(options, 1666_666666666);
    let back = calculate_collateral_amount(options, 3_00000000, true, USDC_DECIMALS, SOL_DECIMALS, -8);
    assert_eq!(back, 4999_999999);
    assert!(back <= collateral);
}

#[test]
fn mint_then_burn_returns_collateral_when_exact() {
    let options = calculate_option_amount(5000_000000, 100_00000000, true, USDC_DECIMALS, SOL_DECIMALS, -8);
    let back = calculate_collateral_amount(options, 100_00000000, true, USDC_DECIMALS, SOL_DECIMALS, -8);
    assert_eq!(back, 5000_000000);
    let options = calculate_option_amount(10, 100_00000000, false, SOL_DECIMALS, SOL_DECIMALS, -8);
    assert_eq!(calculate_collateral_amount(options, 100_00000000, false, SOL_DECIMALS, SOL_DECIMALS, -8), 10);
}

#[test]
fn worked_put_example() {
    assert_eq!(
        calculate_option_amount(5000_000000, 100_00000000, true, 6, 9, -8),
        50_000000000
    );
    assert_eq!(
        calculate_collateral_amount(50_000000000, 100_00000000, true, 6, 9, -8),
        5000_000000
    );
}

#[test]
fn worked_put_payout_example() {
    assert_eq!(
        calculate_expired_value(50_000000000, 100_00000000, 80_00000000, true, 6, 9, -8),
        1000_000000
    );
    assert_eq!(
        calculate_expired_value(50_000000000, 100_00000000, 80_00000000, false, 6, 9, -8),
        0
    );
}

#[test]
fn pro_rata_example() {
    assert_eq!(calculate_collateral(5_000000000, 6_000000000, 10_000000000), 3_000000000);
}

#[test]
fn payout_is_zero_out_of_or_at_the_money() {
    assert_eq!(calculate_expired_value(50_000000000, 100_00000000, 100_00000000, true, 6, 9, -8), 0);
    assert_eq!(calculate_expired_value(50_000000000, 100_00000000, 100_00000000, false, 9, 9, -8), 0);
    assert_eq!(calculate_expired_value(50_000000000, 100_00000000, 120_00000000, true, 6, 9, -8), 0);
    assert_eq!(calculate_expired_value(50_000000000, 100_00000000, 80_00000000, false, 9, 9, -8), 0);
}

#[test]
fn payout_grows_further_into_the_money() {
    let near = calculate_expired_value(50_000000000, 100_00000000, 80_00000000, true, 6, 9, -8);
    let far = calculate_expired_value(50_000000000, 100_00000000, 60_00000000, true, 6, 9, -8);
    assert_eq!(near, 1000_000000);
    assert_eq!(far, 2000_000000);
    let near = calculate_expired_value(50_000000000, 100_00000000, 120_00000000, false, 9, 9, -8);
    let far = calculate_expired_value(50_000000000, 100_00000000, 150_00000000, false, 9, 9, -8);
    assert_eq!(near, 8_333333333);
    assert_eq!(far, 16_666666666);
}

#[test]
fn tiny_put_payout_rounds_to_zero() {
    assert_eq!(calculate_expired_value(1, 100_00000000, 99_99999999, true, 6, 9, -8), 0);
}

#[test]
fn negative_shift_conversions() {
    // collateral with 18 decimals, base with 2: the shift is 2 + 8 - 18 = -8
    let collateral = 6_000000000000000000u64;
    let options = calculate_option_amount(collateral, 6_00000000, true, 18, 2, -8);
    assert_eq!(options, 1_00);
    assert_eq!(calculate_collateral_amount(options, 6_00000000, true, 18, 2, -8), collateral);
    assert_eq!(
        calculate_expired_value(1_00, 6_00000000, 5_00000000, true, 18, 2, -8),
        1_000000000000000000
    );
}

#[test]
fn checked_conversions_refuse_what_does_not_fit() {
    assert_eq!(checked_option_amount(5000_000000, 0, true, 6, 9, -8), None);
    assert_eq!(checked_option_amount(5000_000000, 100_00000000, true, 6, 9, -60), None);
    assert_eq!(checked_option_amount(u64::MAX, 1, true, 6, 9, -8), None);
    assert_eq!(
        checked_option_amount(5000_000000, 100_00000000, true, 6, 9, -8),
        Some(50_000000000)
    );
    assert_eq!(checked_option_amount(u64::MAX, 0, false, 6, 9, -60), Some(u64::MAX));
    assert_eq!(checked_collateral_amount(u64::MAX, u64::MAX, true, 18, 2, -8), None);
    assert_eq!(
        checked_collateral_amount(50_000000000, 100_00000000, true, 6, 9, -8),
        Some(5000_000000)
    );
    assert_eq!(checked_expired_value(u64::MAX, u64::MAX, 0, true, 18, 2, -8), None);
    assert_eq!(
        checked_expired_value(50_000000000, 100_00000000, 80_00000000, true, 6, 9, -8),
        Some(1000_000000)
    );
    assert_eq!(checked_collateral(1, 1, 0), None);
    assert_eq!(checked_collateral(u64::MAX, u64::MAX, 1), None);
    assert_eq!(checked_collateral(5_000000000, 6_000000000, 10_000000000), Some(3_000000000));
}
