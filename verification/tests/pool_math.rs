use solrush_dex::amm::{
    calculate_lp_tokens, calculate_lp_tokens_for_add_liquidity, calculate_output_amount,
    calculate_pool_price, calculate_remove_liquidity_amounts, check_price_condition, isqrt,
    validate_ratio_imbalance, POOL_PRICE_SCALE, RATIO_SCALE, RATIO_TOLERANCE,
};
use solrush_dex::CustomError;

#[test]
fn pool_scales() {
    assert_eq!(POOL_PRICE_SCALE, 1_000_000);
    assert_eq!(RATIO_SCALE, 10_000);
    assert_eq!(RATIO_TOLERANCE, 100);
}

#[test]
fn isqrt_of_small_numbers() {
    let expected: [u128; 18] = [0, 1, 1, 1, 2, 2, 2, 2, 2, 3, 3, 3, 3, 3, 3, 3, 4, 4];
    for (n, root) in expected.iter().enumerate() {
        assert_eq!(isqrt(n as u128), *root);
    }
}

#[test]
fn isqrt_around_squares() {
    for root in [2u128, 3, 10, 1000, 65_535, 65_536, 4_294_967_295, 4_294_967_296, u64::MAX as u128] {
        assert_eq!(isqrt(root * root), root);
        assert_eq!(isqrt(root * root - 1), root - 1);
        assert_eq!(isqrt(root * root + 1), root);
        assert_eq!(isqrt(root * root + 2 * root), root);
    }
}

#[test]
fn isqrt_of_the_largest_numbers() {
    assert_eq!(isqrt(u128::MAX), u64::MAX as u128);
    assert_eq!(isqrt(u128::MAX - 1), u64::MAX as u128);
    assert_eq!(isqrt(1 << 127), 13_043_817_825_332_782_212);
    assert_eq!(isqrt(1 << 126), 1 << 63);
}

#[test]
fn isqrt_is_the_largest_root() {
    for n in [5u128, 99, 10_001, 123_456_789_012_345_678_901_234_567_890, u128::MAX / 3] {
        let r = isqrt(n);
        assert!(r * r <= n);
        assert!((r + 1).checked_mul(r + 1).map_or(true, |square| square > n));
    }
}

#[test]
fn first_deposit_earns_the_geometric_mean() {
    assert_eq!(calculate_lp_tokens(0, 0), Ok(0));
    assert_eq!(calculate_lp_tokens(0, 1000), Ok(0));
    assert_eq!(calculate_lp_tokens(1000, 1000), Ok(1000));
    assert_eq!(calculate_lp_tokens(1000, 4000), Ok(2000));
    assert_eq!(calculate_lp_tokens(2, 3), Ok(2));
    assert_eq!(calculate_lp_tokens(u64::MAX, u64::MAX), Ok(u64::MAX));
    assert_eq!(calculate_lp_tokens(u64::MAX, 1), Ok(4_294_967_295));
}

#[test]
fn deposit_earns_the_smaller_share() {
    assert_eq!(calculate_lp_tokens_for_add_liquidity(1000, 4000, 0, 0, 0), Ok(2000));
    assert_eq!(calculate_lp_tokens_for_add_liquidity(1000, 4000, 7, 0, 0), Ok(2000));
    // 100 * 500 / 1000 = 50, 300 * 500 / 2000 = 75
    assert_eq!(calculate_lp_tokens_for_add_liquidity(100, 300, 1000, 2000, 500), Ok(50));
    // 100 * 500 / 1000 = 50, 50 * 500 / 2000 = 12.5
    assert_eq!(calculate_lp_tokens_for_add_liquidity(100, 50, 1000, 2000, 500), Ok(12));
    assert_eq!(calculate_lp_tokens_for_add_liquidity(1, 1, 1000, 1000, 999), Ok(0));
}

#[test]
fn deposit_share_keeps_the_low_64_bits() {
    // 2^63 * 4 / 1 = 2^65, of which the low 64 bits are zero
    assert_eq!(calculate_lp_tokens_for_add_liquidity(1 << 63, 1 << 63, 1, 1, 4), Ok(0));
    // (2^64 - 1) * 3 / 2 = 27670116110564327422 = 2^64 + 9223372036854775806
    assert_eq!(
        calculate_lp_tokens_for_add_liquidity(u64::MAX, u64::MAX, 2, 2, 3),
        Ok(9_223_372_036_854_775_806)
    );
}

#[test]
fn deposit_errors() {
    assert_eq!(
        calculate_lp_tokens_for_add_liquidity(0, 1, 1, 1, 1),
        Err(CustomError::InvalidAmount)
    );
    assert_eq!(
        calculate_lp_tokens_for_add_liquidity(1, 0, 0, 0, 0),
        Err(CustomError::InvalidAmount)
    );
    assert_eq!(
        calculate_lp_tokens_for_add_liquidity(1, 1, 0, 1, 1),
        Err(CustomError::InsufficientLiquidity)
    );
    assert_eq!(
        calculate_lp_tokens_for_add_liquidity(1, 1, 1, 0, 1),
        Err(CustomError::InsufficientLiquidity)
    );
}

#[test]
fn withdrawal_returns_the_share_of_each_reserve() {
    // 50 * 1000 / 500 = 100, 50 * 2001 / 500 = 200.1
    assert_eq!(calculate_remove_liquidity_amounts(50, 500, 1000, 2001), Ok((100, 200)));
    assert_eq!(calculate_remove_liquidity_amounts(500, 500, 1000, 2001), Ok((1000, 2001)));
    assert_eq!(calculate_remove_liquidity_amounts(1, 3, 0, 2), Ok((0, 0)));
    assert_eq!(
        calculate_remove_liquidity_amounts(u64::MAX, u64::MAX, u64::MAX, 1),
        Ok((u64::MAX, 1))
    );
    // more burned than the supply: 4 * 2^63 / 1 = 2^65
    assert_eq!(calculate_remove_liquidity_amounts(4, 1, 1 << 63, 5), Ok((0, 20)));
}

#[test]
fn withdrawal_errors() {
    assert_eq!(
        calculate_remove_liquidity_amounts(0, 500, 1000, 2000),
        Err(CustomError::InvalidAmount)
    );
    assert_eq!(
        calculate_remove_liquidity_amounts(0, 0, 1000, 2000),
        Err(CustomError::InvalidAmount)
    );
    assert_eq!(
        calculate_remove_liquidity_amounts(1, 0, 1000, 2000),
        Err(CustomError::InsufficientLiquidity)
    );
}

#[test]
fn ratio_within_the_tolerance() {
    // pool 1:2 = 20000; deposit 1:2
    assert_eq!(validate_ratio_imbalance(100, 200, 1000, 2000), Ok(()));
    // 20100 and 19900 are 100 away
    assert_eq!(validate_ratio_imbalance(1000, 2010, 1000, 2000), Ok(()));
    assert_eq!(validate_ratio_imbalance(1000, 1990, 1000, 2000), Ok(()));
    assert_eq!(validate_ratio_imbalance(1000, 2011, 1000, 2000), Err(CustomError::RatioImbalance));
    assert_eq!(validate_ratio_imbalance(1000, 1989, 1000, 2000), Err(CustomError::RatioImbalance));
    // 20109 is 109 away; 20100.9 rounds down to 20100
    assert_eq!(validate_ratio_imbalance(10_000, 20_109, 1000, 2000), Err(CustomError::RatioImbalance));
    assert_eq!(validate_ratio_imbalance(100_000, 201_009, 1000, 2000), Ok(()));
    assert_eq!(validate_ratio_imbalance(1, 0, u64::MAX, 0), Ok(()));
    assert_eq!(validate_ratio_imbalance(1, u64::MAX, 1, u64::MAX), Ok(()));
}

#[test]
fn ratio_of_an_empty_side() {
    assert_eq!(validate_ratio_imbalance(1, 1, 0, 1), Err(CustomError::CalculationOverflow));
    assert_eq!(validate_ratio_imbalance(0, 1, 1, 1), Err(CustomError::CalculationOverflow));
    assert_eq!(validate_ratio_imbalance(0, 0, 0, 0), Err(CustomError::CalculationOverflow));
}

#[test]
fn swap_output_by_the_constant_product() {
    // 1000 * 997 * 100000 / (100000 * 1000 + 997000) = 987.1...
    assert_eq!(calculate_output_amount(1000, 100_000, 100_000, 3, 1000), Ok(987));
    // without fee: 1000 * 100000 / 101000 = 990.09
    assert_eq!(calculate_output_amount(1000, 100_000, 100_000, 0, 1000), Ok(990));
    assert_eq!(calculate_output_amount(1000, 100_000, 100_000, 0, 1), Ok(990));
    // 50 * 997 * 3000 / (10 * 1000 + 49850) = 2498.7
    assert_eq!(calculate_output_amount(50, 10, 3000, 3, 1000), Ok(2498));
    assert_eq!(calculate_output_amount(u64::MAX, 1, u64::MAX, 0, 1), Ok(u64::MAX - 1));
}

#[test]
fn swap_output_errors() {
    assert_eq!(calculate_output_amount(0, 1, 1, 3, 1000), Err(CustomError::InvalidAmount));
    assert_eq!(calculate_output_amount(0, 0, 0, 3, 1000), Err(CustomError::InvalidAmount));
    assert_eq!(calculate_output_amount(1, 0, 1, 3, 1000), Err(CustomError::InsufficientLiquidity));
    assert_eq!(calculate_output_amount(1, 1, 0, 3, 1000), Err(CustomError::InsufficientLiquidity));
    // the output rounds down to zero
    assert_eq!(
        calculate_output_amount(1, 100_000, 100_000, 3, 1000),
        Err(CustomError::InsufficientLiquidity)
    );
    // the whole input is the fee
    assert_eq!(
        calculate_output_amount(1000, 100_000, 100_000, 1000, 1000),
        Err(CustomError::InsufficientLiquidity)
    );
    // a fee of zero in zero: nothing to divide by
    assert_eq!(
        calculate_output_amount(1000, 100_000, 100_000, 0, 0),
        Err(CustomError::CalculationOverflow)
    );
    // the numerator does not fit in 128 bits
    assert_eq!(
        calculate_output_amount(u64::MAX, 1, u64::MAX, 0, u64::MAX),
        Err(CustomError::CalculationOverflow)
    );
}

#[test]
fn swap_output_is_below_the_reserve() {
    for input in [1u64, 10, 1000, 1_000_000, u32::MAX as u64] {
        for (reserve_in, reserve_out) in [(1u64, 1u64), (1000, 10), (10, 1000), (1 << 62, 1 << 62)] {
            if let Ok(output) = calculate_output_amount(input, reserve_in, reserve_out, 3, 1000) {
                assert!(output > 0 && output < reserve_out);
                // the product of the reserves does not fall
                let before = reserve_in as u128 * reserve_out as u128;
                let after = (reserve_in as u128 + input as u128) * (reserve_out - output) as u128;
                assert!(after >= before);
            }
        }
    }
}

#[test]
fn pool_price_is_scaled() {
    assert_eq!(calculate_pool_price(1000, 2000), Ok(2_000_000));
    assert_eq!(calculate_pool_price(3, 1), Ok(333_333));
    assert_eq!(calculate_pool_price(1, 0), Ok(0));
    assert_eq!(calculate_pool_price(0, 1), Err(CustomError::InsufficientLiquidity));
    assert_eq!(calculate_pool_price(0, 0), Err(CustomError::InsufficientLiquidity));
    // 2^64 - 1 units at 1_000_000 each: the low 64 bits of 18446744073709551615000000
    assert_eq!(calculate_pool_price(1, u64::MAX), Ok(18_446_744_073_708_551_616));
}

#[test]
fn price_condition_by_direction() {
    assert!(check_price_condition(100, 100, true));
    assert!(check_price_condition(101, 100, true));
    assert!(!check_price_condition(99, 100, true));
    assert!(check_price_condition(100, 100, false));
    assert!(check_price_condition(99, 100, false));
    assert!(!check_price_condition(101, 100, false));
}
