use vstd::prelude::*;
use crate::errors::CustomError;
use crate::math::{lemma_low_64_of_u128, low_64};

verus! {

/// The scale of a pool price: the price of one unit is 1_000_000.
pub const POOL_PRICE_SCALE: u128 = 1_000_000;

/// The scale of a deposit ratio: ratios are compared in ten-thousandths.
pub const RATIO_SCALE: u128 = 10_000;

/// How far, in ten-thousandths, the ratio of a deposit may lie from the
/// ratio of the pool.
pub const RATIO_TOLERANCE: u128 = 100;

/// Whether `r` is the integer square root of `n`: the largest integer whose
/// square is at most `n`.
pub open spec fn is_integer_sqrt(n: int, r: int) -> bool {
    0 <= r && r * r <= n < (r + 1) * (r + 1)
}

/// The integer square root of `n`, for `n` not below zero.
pub open spec fn integer_sqrt(n: int) -> int {
    choose|r: int| is_integer_sqrt(n, r)
}

/// One step of Newton's iteration from `x` lands on or above the integer
/// square root of `n`: with `q == n / x` and `2 * y + 1 >= x + q`, the
/// square of `y + 1` exceeds `n`.
proof fn lemma_newton_step_stays_above(n: int, x: int, q: int, y: int)
    by (nonlinear_arith)
    requires
        x >= 1,
        q >= 0,
        n < (q + 1) * x,
        2 * y + 1 >= x + q,
    ensures
        (y + 1) * (y + 1) > n,
{
    // (x + q + 1)^2 >= 4 * x * (q + 1)
    assert((x + q + 1) * (x + q + 1) - 4 * (x * (q + 1)) == (x - q - 1) * (x - q - 1));
    assert((x - q - 1) * (x - q - 1) >= 0);
    assert(4 * ((y + 1) * (y + 1)) >= (x + q + 1) * (x + q + 1));
}

/// Above the integer square root the quotient `n / x` is below `x`.
proof fn lemma_quotient_below_root(n: int, x: int, q: int)
    by (nonlinear_arith)
    requires
        x >= 1,
        q >= 0,
        q * x <= n,
        n < x * x,
    ensures
        q < x,
{
}

/// The integer square root of `n`, by Newton's iteration from above.
pub fn isqrt(n: u128) -> (r: u128)
    ensures
        is_integer_sqrt(n as int, r as int),
        r == integer_sqrt(n as int),
{
    if n < 2 {
        assert(n * n == n && (n + 1) * (n + 1) > n) by (nonlinear_arith)
            requires
                n == 0 || n == 1,
        ;
        proof {
            lemma_integer_sqrt_is(n as int, n as int);
        }
        return n;
    }
    let mut x: u128 = n;
    let mut y: u128 = n / 2 + n % 2;
    proof {
        assert(n / n == 1) by {
            vstd::arithmetic::div_mod::lemma_div_basics(n as int);
        }
        assert((n + 1) * (n + 1) > n) by (nonlinear_arith)
            requires
                n >= 2,
        ;
    }
    while y < x
        invariant
            n >= 2,
            1 <= x <= n,
            x == n || x <= 0x8000_0000_0000_0000_0000_0000_0000_0000,
            (x + 1) * (x + 1) > n,
            y == (x + n / x) / 2,
        decreases x,
    {
        proof {
            let q = (n / x) as int;
            vstd::arithmetic::div_mod::lemma_fundamental_div_mod(n as int, x as int);
            vstd::arithmetic::div_mod::lemma_mod_bound(n as int, x as int);
            vstd::arithmetic::div_mod::lemma_div_pos_is_pos(n as int, x as int);
            assert(n < (q + 1) * x) by (nonlinear_arith)
                requires
                    n == x * q + n % x,
                    n % x < x,
            ;
            lemma_newton_step_stays_above(n as int, x as int, q, y as int);
            assert(y >= 1) by (nonlinear_arith)
                requires
                    (y + 1) * (y + 1) > n,
                    n >= 2,
                    y >= 0,
            ;
            assert(y <= 0x8000_0000_0000_0000_0000_0000_0000_0000) by {
                if x == n {
                    vstd::arithmetic::div_mod::lemma_div_basics(n as int);
                }
            }
        }
        x = y;
        proof {
            // the next sum fits: either `x` is at least two and both terms
            // are at most 2^127, or `n` is below four
            vstd::arithmetic::div_mod::lemma_div_is_ordered_by_denominator(n as int, 1, x as int);
            vstd::arithmetic::div_mod::lemma_div_basics(n as int);
            if x >= 2 {
                vstd::arithmetic::div_mod::lemma_div_is_ordered_by_denominator(
                    n as int,
                    2,
                    x as int,
                );
                assert(n / 2 <= 0x7FFF_FFFF_FFFF_FFFF_FFFF_FFFF_FFFF_FFFF);
            } else {
                assert(n < 4) by (nonlinear_arith)
                    requires
                        (x + 1) * (x + 1) > n,
                        x == 1,
                ;
                assert(n / 1 == n);
            }
        }
        y = (x + n / x) / 2;
    }
    proof {
        let q = (n / x) as int;
        vstd::arithmetic::div_mod::lemma_fundamental_div_mod(n as int, x as int);
        vstd::arithmetic::div_mod::lemma_mod_bound(n as int, x as int);
        vstd::arithmetic::div_mod::lemma_div_pos_is_pos(n as int, x as int);
        if x * x > n {
            assert(q * x <= n) by (nonlinear_arith)
                requires
                    n == x * q + n % x,
                    n % x >= 0,
            ;
            lemma_quotient_below_root(n as int, x as int, q);
        }
        lemma_integer_sqrt_is(n as int, x as int);
    }
    x
}

/// Integer square roots are unique, and that of a number below 2^128 is
/// below 2^64.
pub proof fn lemma_integer_sqrt_unique(n: int, r: int, s: int)
    by (nonlinear_arith)
    requires
        is_integer_sqrt(n, r),
        is_integer_sqrt(n, s),
    ensures
        r == s,
        n < 0x1_0000_0000_0000_0000_0000_0000_0000_0000 ==> r < 0x1_0000_0000_0000_0000,
{
    if r < s {
        assert((r + 1) * (r + 1) <= s * s);
    }
    if s < r {
        assert((s + 1) * (s + 1) <= r * r);
    }
    if r >= 0x1_0000_0000_0000_0000 {
        assert(r * r >= 0x1_0000_0000_0000_0000 * 0x1_0000_0000_0000_0000);
    }
}

/// A number that is an integer square root of `n` is the integer square
/// root of `n`.
pub proof fn lemma_integer_sqrt_is(n: int, r: int)
    requires
        is_integer_sqrt(n, r),
    ensures
        integer_sqrt(n) == r,
{
    let s = integer_sqrt(n);
    assert(is_integer_sqrt(n, s));
    lemma_integer_sqrt_unique(n, r, s);
}

/// The liquidity tokens of a first deposit: the integer square root of the
/// product of the two amounts. It always fits.
pub fn calculate_lp_tokens(amount_a: u64, amount_b: u64) -> (r: Result<u64, CustomError>)
    ensures
        r == Ok::<u64, CustomError>(integer_sqrt(amount_a * amount_b) as u64),
        is_integer_sqrt(amount_a * amount_b, integer_sqrt(amount_a * amount_b)),
        integer_sqrt(amount_a * amount_b) <= u64::MAX,
{
    proof {
        assert(0 <= amount_a * amount_b <= 0xFFFF_FFFF_FFFF_FFFF * 0xFFFF_FFFF_FFFF_FFFF)
            by (nonlinear_arith);
    }
    let product: u128 = (amount_a as u128) * (amount_b as u128);
    let root: u128 = isqrt(product);
    proof {
        lemma_integer_sqrt_unique(product as int, root as int, root as int);
    }
    Ok(root as u64)
}

/// What a deposit of `amount` earns of a pool's `supply` of liquidity
/// tokens, the pool holding `reserve` of that token: the share, rounded
/// down, and of that the low 64 bits.
pub open spec fn lp_share(amount: int, supply: int, reserve: int) -> int {
    low_64((amount * supply) / reserve)
}

/// The liquidity tokens that a deposit of `amount_a` and `amount_b` earns:
/// for a pool without liquidity tokens the integer square root of the
/// product of the amounts, else the smaller of the shares that the two
/// amounts earn.
pub open spec fn lp_for_deposit(
    amount_a: int,
    amount_b: int,
    reserve_a: int,
    reserve_b: int,
    total_lp_supply: int,
) -> int {
    if total_lp_supply == 0 {
        integer_sqrt(amount_a * amount_b)
    } else {
        vstd::math::min(
            lp_share(amount_a, total_lp_supply, reserve_a),
            lp_share(amount_b, total_lp_supply, reserve_b),
        )
    }
}

/// What a deposit of `amount_a` and `amount_b` into a pool earns: see
/// `lp_for_deposit`.
///
/// - `InvalidAmount` where an amount is zero.
/// - `InsufficientLiquidity` where the pool has liquidity tokens but a
///   reserve of zero.
pub fn calculate_lp_tokens_for_add_liquidity(
    amount_a: u64,
    amount_b: u64,
    reserve_a: u64,
    reserve_b: u64,
    total_lp_supply: u64,
) -> (r: Result<u64, CustomError>)
    ensures
        r == if amount_a == 0 || amount_b == 0 {
            Err::<u64, CustomError>(CustomError::InvalidAmount)
        } else if total_lp_supply != 0 && (reserve_a == 0 || reserve_b == 0) {
            Err(CustomError::InsufficientLiquidity)
        } else {
            Ok(
                lp_for_deposit(
                    amount_a as int,
                    amount_b as int,
                    reserve_a as int,
                    reserve_b as int,
                    total_lp_supply as int,
                ) as u64,
            )
        },
        r is Ok ==> 0 <= lp_for_deposit(
            amount_a as int,
            amount_b as int,
            reserve_a as int,
            reserve_b as int,
            total_lp_supply as int,
        ) <= u64::MAX,
{
    if !(amount_a > 0 && amount_b > 0) {
        return Err(CustomError::InvalidAmount);
    }
    if total_lp_supply == 0 {
        return calculate_lp_tokens(amount_a, amount_b);
    }
    if !(reserve_a > 0 && reserve_b > 0) {
        return Err(CustomError::InsufficientLiquidity);
    }
    let lp_from_a: u64 = scaled_share(amount_a, total_lp_supply, reserve_a);
    let lp_from_b: u64 = scaled_share(amount_b, total_lp_supply, reserve_b);
    if lp_from_a < lp_from_b {
        Ok(lp_from_a)
    } else {
        Ok(lp_from_b)
    }
}

/// `amount * factor / divisor`, rounded down, stored in 64 bits.
fn scaled_share(amount: u64, factor: u64, divisor: u64) -> (r: u64)
    requires
        divisor > 0,
    ensures
        r == low_64((amount * factor) / (divisor as int)),
{
    proof {
        assert(0 <= amount * factor <= 0xFFFF_FFFF_FFFF_FFFF * 0xFFFF_FFFF_FFFF_FFFF)
            by (nonlinear_arith);
    }
    let quotient: u128 = (amount as u128) * (factor as u128) / (divisor as u128);
    proof {
        lemma_low_64_of_u128(quotient);
    }
    #[verifier::truncate]
    (quotient as u64)
}

/// What burning `lp_tokens_to_burn` of a pool's liquidity tokens returns of
/// each reserve: the share of the supply, rounded down, and of that the low
/// 64 bits.
///
/// - `InvalidAmount` where nothing is burned.
/// - `InsufficientLiquidity` where the pool has no liquidity tokens.
pub fn calculate_remove_liquidity_amounts(
    lp_tokens_to_burn: u64,
    total_lp_supply: u64,
    reserve_a: u64,
    reserve_b: u64,
) -> (r: Result<(u64, u64), CustomError>)
    ensures
        r == if lp_tokens_to_burn == 0 {
            Err::<(u64, u64), CustomError>(CustomError::InvalidAmount)
        } else if total_lp_supply == 0 {
            Err(CustomError::InsufficientLiquidity)
        } else {
            Ok(
                (
                    lp_share(lp_tokens_to_burn as int, reserve_a as int, total_lp_supply as int)
                        as u64,
                    lp_share(lp_tokens_to_burn as int, reserve_b as int, total_lp_supply as int)
                        as u64,
                ),
            )
        },
{
    if lp_tokens_to_burn == 0 {
        return Err(CustomError::InvalidAmount);
    }
    if total_lp_supply == 0 {
        return Err(CustomError::InsufficientLiquidity);
    }
    let amount_a: u64 = scaled_share(lp_tokens_to_burn, reserve_a, total_lp_supply);
    let amount_b: u64 = scaled_share(lp_tokens_to_burn, reserve_b, total_lp_supply);
    Ok((amount_a, amount_b))
}

/// The ratio of `second` to `first` in ten-thousandths, rounded down.
pub open spec fn ratio_of(first: int, second: int) -> int {
    (second * RATIO_SCALE) / first
}

/// Checks that a deposit of `amount_a` and `amount_b` has the ratio of the
/// pool's reserves, within `RATIO_TOLERANCE` ten-thousandths.
///
/// - `CalculationOverflow` where `reserve_a` or `amount_a` is zero.
/// - `RatioImbalance` where the two ratios differ by more than the tolerance.
pub fn validate_ratio_imbalance(amount_a: u64, amount_b: u64, reserve_a: u64, reserve_b: u64) -> (r:
    Result<(), CustomError>)
    ensures
        r == if reserve_a == 0 || amount_a == 0 {
            Err::<(), CustomError>(CustomError::CalculationOverflow)
        } else if ratio_of(reserve_a as int, reserve_b as int) - ratio_of(
            amount_a as int,
            amount_b as int,
        ) > RATIO_TOLERANCE || ratio_of(amount_a as int, amount_b as int) - ratio_of(
            reserve_a as int,
            reserve_b as int,
        ) > RATIO_TOLERANCE {
            Err(CustomError::RatioImbalance)
        } else {
            Ok(())
        },
{
    if reserve_a == 0 {
        return Err(CustomError::CalculationOverflow);
    }
    let expected_ratio: u128 = (reserve_b as u128) * RATIO_SCALE / (reserve_a as u128);
    if amount_a == 0 {
        return Err(CustomError::CalculationOverflow);
    }
    let provided_ratio: u128 = (amount_b as u128) * RATIO_SCALE / (amount_a as u128);
    let diff: u128 = if expected_ratio > provided_ratio {
        expected_ratio - provided_ratio
    } else {
        provided_ratio - expected_ratio
    };
    if diff <= RATIO_TOLERANCE {
        Ok(())
    } else {
        Err(CustomError::RatioImbalance)
    }
}

/// What is left of `input_amount` after the fee, in units of
/// `1 / fee_denominator`.
pub open spec fn input_after_fee(input_amount: int, fee_numerator: int, fee_denominator: int) -> int {
    input_amount * (fee_denominator - fee_numerator)
}

/// The output of a constant-product swap: of the output reserve, the part
/// that the input after the fee is of the input reserve grown by it,
/// rounded down.
pub open spec fn swap_output(
    input_amount: int,
    input_reserve: int,
    output_reserve: int,
    fee_numerator: int,
    fee_denominator: int,
) -> int {
    let x = input_after_fee(input_amount, fee_numerator, fee_denominator);
    (x * output_reserve) / (input_reserve * fee_denominator + x)
}

/// Whether the output of a swap can be computed in 128 bits: the numerator
/// and the denominator of `swap_output` fit, and the denominator is not
/// zero.
pub open spec fn swap_is_computable(
    input_amount: int,
    input_reserve: int,
    output_reserve: int,
    fee_numerator: int,
    fee_denominator: int,
) -> bool {
    let x = input_after_fee(input_amount, fee_numerator, fee_denominator);
    &&& x * output_reserve <= u128::MAX
    &&& input_reserve * fee_denominator + x <= u128::MAX
    &&& input_reserve * fee_denominator + x != 0
}

/// What a swap of `input_amount` returns.
pub open spec fn output_amount_outcome(
    input_amount: u64,
    input_reserve: u64,
    output_reserve: u64,
    fee_numerator: u64,
    fee_denominator: u64,
) -> Result<u64, CustomError> {
    if input_amount == 0 {
        Err(CustomError::InvalidAmount)
    } else if input_reserve == 0 || output_reserve == 0 {
        Err(CustomError::InsufficientLiquidity)
    } else if !swap_is_computable(
        input_amount as int,
        input_reserve as int,
        output_reserve as int,
        fee_numerator as int,
        fee_denominator as int,
    ) {
        Err(CustomError::CalculationOverflow)
    } else if swap_output(
        input_amount as int,
        input_reserve as int,
        output_reserve as int,
        fee_numerator as int,
        fee_denominator as int,
    ) == 0 {
        Err(CustomError::InsufficientLiquidity)
    } else {
        Ok(
            swap_output(
                input_amount as int,
                input_reserve as int,
                output_reserve as int,
                fee_numerator as int,
                fee_denominator as int,
            ) as u64,
        )
    }
}

/// The output of a swap is below the output reserve.
pub proof fn lemma_swap_output_below_reserve(x: int, output_reserve: int, base: int)
    requires
        x >= 0,
        output_reserve > 0,
        base > 0,
    ensures
        0 <= (x * output_reserve) / (base + x) < output_reserve,
{
    let d = base + x;
    assert(0 <= x * output_reserve < output_reserve * d) by (nonlinear_arith)
        requires
            0 <= x < d,
            output_reserve > 0,
    ;
    vstd::arithmetic::div_mod::lemma_div_pos_is_pos(x * output_reserve, d);
    vstd::arithmetic::div_mod::lemma_div_by_multiple_is_strongly_ordered(
        x * output_reserve,
        output_reserve * d,
        output_reserve,
        d,
    );
    vstd::arithmetic::div_mod::lemma_div_multiples_vanish(output_reserve, d);
    vstd::arithmetic::mul::lemma_mul_is_commutative(output_reserve, d);
}

/// The output of swapping `input_amount` into a pool with the given reserves
/// by the constant-product rule, the fee `fee_numerator / fee_denominator`
/// taken from the input.
///
/// - `InvalidAmount` where the input is zero.
/// - `InsufficientLiquidity` where a reserve is zero.
/// - `CalculationOverflow` where `swap_is_computable` does not hold.
/// - `InsufficientLiquidity` where the output rounds down to zero.
pub fn calculate_output_amount(
    input_amount: u64,
    input_reserve: u64,
    output_reserve: u64,
    fee_numerator: u64,
    fee_denominator: u64,
) -> (r: Result<u64, CustomError>)
    requires
        fee_numerator <= fee_denominator,
    ensures
        r == output_amount_outcome(input_amount, input_reserve, output_reserve, fee_numerator, fee_denominator),
        r matches Ok(v) ==> 0 < v < output_reserve,
{
    if input_amount == 0 {
        return Err(CustomError::InvalidAmount);
    }
    if !(input_reserve > 0 && output_reserve > 0) {
        return Err(CustomError::InsufficientLiquidity);
    }
    proof {
        assert(0 <= input_amount * (fee_denominator - fee_numerator) <= 0xFFFF_FFFF_FFFF_FFFF
            * 0xFFFF_FFFF_FFFF_FFFF) by (nonlinear_arith)
            requires
                fee_numerator <= fee_denominator,
        ;
        assert(0 <= input_reserve * fee_denominator <= 0xFFFF_FFFF_FFFF_FFFF
            * 0xFFFF_FFFF_FFFF_FFFF) by (nonlinear_arith);
    }
    let amount_in_with_fee: u128 = (input_amount as u128) * ((fee_denominator - fee_numerator)
        as u128);
    let numerator: u128 = match amount_in_with_fee.checked_mul(output_reserve as u128) {
        Some(v) => v,
        None => { return Err(CustomError::CalculationOverflow); },
    };
    let base: u128 = (input_reserve as u128) * (fee_denominator as u128);
    let denominator: u128 = match base.checked_add(amount_in_with_fee) {
        Some(v) => v,
        None => { return Err(CustomError::CalculationOverflow); },
    };
    if denominator == 0 {
        return Err(CustomError::CalculationOverflow);
    }
    proof {
        if base == 0 {
            assert(fee_denominator == 0) by (nonlinear_arith)
                requires
                    input_reserve * fee_denominator == 0,
                    input_reserve > 0,
                    fee_denominator >= 0,
            ;
            assert(amount_in_with_fee == 0) by (nonlinear_arith)
                requires
                    amount_in_with_fee == input_amount * (fee_denominator - fee_numerator),
                    fee_denominator == 0,
                    0 <= fee_numerator <= fee_denominator,
            ;
        }
        lemma_swap_output_below_reserve(
            amount_in_with_fee as int,
            output_reserve as int,
            base as int,
        );
    }
    let output_amount: u128 = numerator / denominator;
    if output_amount == 0 {
        return Err(CustomError::InsufficientLiquidity);
    }
    Ok(output_amount as u64)
}

/// The price of the first token of a pool in units of the second, scaled by
/// `POOL_PRICE_SCALE` and rounded down; of that the low 64 bits.
pub open spec fn pool_price_of(reserve_a: int, reserve_b: int) -> int {
    low_64((reserve_b * POOL_PRICE_SCALE) / reserve_a)
}

/// The price of a pool: see `pool_price_of`. Fails with
/// `InsufficientLiquidity` exactly when `reserve_a` is zero.
pub fn calculate_pool_price(reserve_a: u64, reserve_b: u64) -> (r: Result<u64, CustomError>)
    ensures
        r == if reserve_a == 0 {
            Err::<u64, CustomError>(CustomError::InsufficientLiquidity)
        } else {
            Ok(pool_price_of(reserve_a as int, reserve_b as int) as u64)
        },
{
    if reserve_a == 0 {
        return Err(CustomError::InsufficientLiquidity);
    }
    let price: u128 = (reserve_b as u128) * POOL_PRICE_SCALE / (reserve_a as u128);
    proof {
        lemma_low_64_of_u128(price);
    }
    Ok(
        #[verifier::truncate]
        (price as u64),
    )
}

/// Whether the pool price lets a limit order execute: a sell needs the pool
/// price at or above its target, a buy at or below.
pub fn check_price_condition(pool_price: u64, target_price: u64, is_sell: bool) -> (met: bool)
    ensures
        met == if is_sell {
            pool_price >= target_price
        } else {
            pool_price <= target_price
        },
{
    if is_sell {
        pool_price >= target_price
    } else {
        pool_price <= target_price
    }
}

} // verus!
