use vstd::prelude::*;
use crate::amm::{calculate_output_amount, output_amount_outcome};
use crate::errors::CustomError;
use crate::pool_state::LiquidityPool;

verus! {

/// What a swap changes: the pool, and what it pays out and charges.
///
/// `amount_out` is to be paid from the pool's vault of the output token for
/// the input taken; `fee_amount` is the part of the input that is the fee.
#[derive(Debug, Clone, Copy, PartialEq, Eq, Structural)]
pub struct SwapOutcome {
    pub pool: LiquidityPool,
    pub amount_out: u64,
    pub fee_amount: u64,
}

/// A pool's fee is a part of the whole: the numerator is not above the
/// denominator.
pub open spec fn fee_is_valid(pool: LiquidityPool) -> bool {
    pool.fee_numerator <= pool.fee_denominator
}

/// The fee on `amount_in`, rounded up or down.
pub open spec fn swap_fee(amount_in: int, fee_numerator: int, fee_denominator: int, rounds_up: bool) -> int {
    if rounds_up {
        (amount_in * fee_numerator + fee_denominator - 1) / fee_denominator
    } else {
        (amount_in * fee_numerator) / fee_denominator
    }
}

/// A volume counter after `amount` more: it stops at `u64::MAX`.
pub open spec fn volume_after(volume: u64, amount: u64) -> u64 {
    if volume + amount > u64::MAX {
        u64::MAX
    } else {
        (volume + amount) as u64
    }
}

/// The pool after `amount_in` of one token came in and `amount_out` of the
/// other went out.
pub open spec fn pool_after_swap(pool: LiquidityPool, amount_in: u64, amount_out: u64, is_a_to_b: bool) -> LiquidityPool {
    if is_a_to_b {
        LiquidityPool {
            reserve_a: (pool.reserve_a + amount_in) as u64,
            reserve_b: (pool.reserve_b - amount_out) as u64,
            total_volume_a: volume_after(pool.total_volume_a, amount_in),
            ..pool
        }
    } else {
        LiquidityPool {
            reserve_b: (pool.reserve_b + amount_in) as u64,
            reserve_a: (pool.reserve_a - amount_out) as u64,
            total_volume_b: volume_after(pool.total_volume_b, amount_in),
            ..pool
        }
    }
}

/// What swapping `amount_in` into the pool does at the time `now`, from
/// the first token to the second where `is_a_to_b` and the other way
/// otherwise.
///
/// - `DeadlineExceeded` where `now` is after `deadline`.
/// - `InvalidAmount` where the input is zero.
/// - `InsufficientLiquidity` where a reserve is zero.
/// - `InsufficientBalance` where the trader holds less than the input.
/// - The errors of the output amount.
/// - `SlippageTooHigh` where the output is below `minimum_amount_out`.
/// - `InsufficientPoolReserves` where the vault holds less than the output.
/// - `CalculationOverflow` where the input reserve would leave `u64`.
pub open spec fn swap_outcome(
    pool: LiquidityPool,
    user_token_in_amount: u64,
    pool_vault_out_amount: u64,
    amount_in: u64,
    minimum_amount_out: u64,
    is_a_to_b: bool,
    deadline: i64,
    now: i64,
    fee_rounds_up: bool,
) -> Result<SwapOutcome, CustomError> {
    let input_reserve = if is_a_to_b {
        pool.reserve_a
    } else {
        pool.reserve_b
    };
    let output_reserve = if is_a_to_b {
        pool.reserve_b
    } else {
        pool.reserve_a
    };
    if now > deadline {
        Err(CustomError::DeadlineExceeded)
    } else if amount_in == 0 {
        Err(CustomError::InvalidAmount)
    } else if input_reserve == 0 || output_reserve == 0 {
        Err(CustomError::InsufficientLiquidity)
    } else if user_token_in_amount < amount_in {
        Err(CustomError::InsufficientBalance)
    } else {
        match output_amount_outcome(
            amount_in,
            input_reserve,
            output_reserve,
            pool.fee_numerator,
            pool.fee_denominator,
        ) {
            Err(e) => Err(e),
            Ok(amount_out) => if amount_out < minimum_amount_out {
                Err(CustomError::SlippageTooHigh)
            } else if pool_vault_out_amount < amount_out {
                Err(CustomError::InsufficientPoolReserves)
            } else if input_reserve + amount_in > u64::MAX {
                Err(CustomError::CalculationOverflow)
            } else {
                Ok(
                    SwapOutcome {
                        pool: pool_after_swap(pool, amount_in, amount_out, is_a_to_b),
                        amount_out,
                        fee_amount: swap_fee(
                            amount_in as int,
                            pool.fee_numerator as int,
                            pool.fee_denominator as int,
                            fee_rounds_up,
                        ) as u64,
                    },
                )
            },
        }
    }
}

/// A fee that is a part of the whole is at most the amount it is taken of.
proof fn lemma_fee_is_at_most_the_amount(amount_in: int, numerator: int, denominator: int)
    requires
        0 <= amount_in,
        0 <= numerator <= denominator,
        denominator > 0,
    ensures
        0 <= (amount_in * numerator) / denominator <= amount_in,
        0 <= (amount_in * numerator + denominator - 1) / denominator <= amount_in,
        0 <= amount_in * numerator <= amount_in * denominator,
{
    assert(0 <= amount_in * numerator <= amount_in * denominator) by (nonlinear_arith)
        requires
            0 <= amount_in,
            0 <= numerator <= denominator,
    ;
    let top = amount_in * denominator + denominator - 1;
    vstd::arithmetic::div_mod::lemma_div_pos_is_pos(amount_in * numerator, denominator);
    vstd::arithmetic::div_mod::lemma_div_pos_is_pos(
        amount_in * numerator + denominator - 1,
        denominator,
    );
    vstd::arithmetic::div_mod::lemma_div_is_ordered(amount_in * numerator, top, denominator);
    vstd::arithmetic::div_mod::lemma_div_is_ordered(
        amount_in * numerator + denominator - 1,
        top,
        denominator,
    );
    vstd::arithmetic::div_mod::lemma_fundamental_div_mod_converse(
        top,
        denominator,
        amount_in,
        denominator - 1,
    );
}

/// A swap whose output is computed has a fee denominator above zero.
proof fn lemma_computed_output_has_denominator(
    amount_in: u64,
    input_reserve: u64,
    output_reserve: u64,
    fee_numerator: u64,
    fee_denominator: u64,
)
    requires
        fee_numerator <= fee_denominator,
        output_amount_outcome(
            amount_in,
            input_reserve,
            output_reserve,
            fee_numerator,
            fee_denominator,
        ) is Ok,
    ensures
        fee_denominator > 0,
{
    if fee_denominator == 0 {
        assert(input_reserve * 0 + amount_in * (0 - 0) == 0);
    }
}

/// The swap that the three entry points share: see `swap_outcome`.
fn swap_with_fee_rounding(
    pool: &LiquidityPool,
    user_token_in_amount: u64,
    pool_vault_out_amount: u64,
    amount_in: u64,
    minimum_amount_out: u64,
    is_a_to_b: bool,
    deadline: i64,
    now: i64,
    fee_rounds_up: bool,
) -> (r: Result<SwapOutcome, CustomError>)
    requires
        fee_is_valid(*pool),
    ensures
        r == swap_outcome(
            *pool,
            user_token_in_amount,
            pool_vault_out_amount,
            amount_in,
            minimum_amount_out,
            is_a_to_b,
            deadline,
            now,
            fee_rounds_up,
        ),
{
    if now > deadline {
        return Err(CustomError::DeadlineExceeded);
    }
    if amount_in == 0 {
        return Err(CustomError::InvalidAmount);
    }
    let (input_reserve, output_reserve) = if is_a_to_b {
        (pool.reserve_a, pool.reserve_b)
    } else {
        (pool.reserve_b, pool.reserve_a)
    };
    if !(output_reserve > 0 && input_reserve > 0) {
        return Err(CustomError::InsufficientLiquidity);
    }
    if user_token_in_amount < amount_in {
        return Err(CustomError::InsufficientBalance);
    }
    let amount_out: u64 = match calculate_output_amount(
        amount_in,
        input_reserve,
        output_reserve,
        pool.fee_numerator,
        pool.fee_denominator,
    ) {
        Err(e) => { return Err(e); },
        Ok(v) => v,
    };
    if amount_out < minimum_amount_out {
        return Err(CustomError::SlippageTooHigh);
    }
    if pool_vault_out_amount < amount_out {
        return Err(CustomError::InsufficientPoolReserves);
    }
    proof {
        lemma_computed_output_has_denominator(
            amount_in,
            input_reserve,
            output_reserve,
            pool.fee_numerator,
            pool.fee_denominator,
        );
        lemma_fee_is_at_most_the_amount(
            amount_in as int,
            pool.fee_numerator as int,
            pool.fee_denominator as int,
        );
        assert(amount_in * pool.fee_denominator <= 0xFFFF_FFFF_FFFF_FFFF * 0xFFFF_FFFF_FFFF_FFFF)
            by (nonlinear_arith);
    }
    let fee_numerator: u128 = pool.fee_numerator as u128;
    let fee_denominator: u128 = pool.fee_denominator as u128;
    let fee_wide: u128 = if fee_rounds_up {
        ((amount_in as u128) * fee_numerator + fee_denominator - 1) / fee_denominator
    } else {
        (amount_in as u128) * fee_numerator / fee_denominator
    };
    let fee_amount: u64 = fee_wide as u64;
    let new_input_reserve: u64 = match input_reserve.checked_add(amount_in) {
        Some(v) => v,
        None => { return Err(CustomError::CalculationOverflow); },
    };
    let new_output_reserve: u64 = output_reserve - amount_out;
    let new_pool: LiquidityPool = if is_a_to_b {
        LiquidityPool {
            reserve_a: new_input_reserve,
            reserve_b: new_output_reserve,
            total_volume_a: pool.total_volume_a.saturating_add(amount_in),
            ..*pool
        }
    } else {
        LiquidityPool {
            reserve_b: new_input_reserve,
            reserve_a: new_output_reserve,
            total_volume_b: pool.total_volume_b.saturating_add(amount_in),
            ..*pool
        }
    };
    Ok(SwapOutcome { pool: new_pool, amount_out, fee_amount })
}

/// Swaps `amount_in` of one token of the pool for the other at the time
/// `now`: see `swap_outcome`. The fee it reports is rounded up.
pub fn swap(
    pool: &LiquidityPool,
    user_token_in_amount: u64,
    pool_vault_out_amount: u64,
    amount_in: u64,
    minimum_amount_out: u64,
    is_a_to_b: bool,
    deadline: i64,
    now: i64,
) -> (r: Result<SwapOutcome, CustomError>)
    requires
        fee_is_valid(*pool),
    ensures
        r == swap_outcome(
            *pool,
            user_token_in_amount,
            pool_vault_out_amount,
            amount_in,
            minimum_amount_out,
            is_a_to_b,
            deadline,
            now,
            true,
        ),
{
    swap_with_fee_rounding(
        pool,
        user_token_in_amount,
        pool_vault_out_amount,
        amount_in,
        minimum_amount_out,
        is_a_to_b,
        deadline,
        now,
        true,
    )
}

/// Buys the first token of the pool for `amount_b_in` of the second at the
/// time `now`: see `swap_outcome`. The fee it reports is rounded down.
pub fn market_buy(
    pool: &LiquidityPool,
    user_token_in_amount: u64,
    pool_vault_out_amount: u64,
    amount_b_in: u64,
    min_a_received: u64,
    deadline: i64,
    now: i64,
) -> (r: Result<SwapOutcome, CustomError>)
    requires
        fee_is_valid(*pool),
    ensures
        r == swap_outcome(
            *pool,
            user_token_in_amount,
            pool_vault_out_amount,
            amount_b_in,
            min_a_received,
            false,
            deadline,
            now,
            false,
        ),
{
    swap_with_fee_rounding(
        pool,
        user_token_in_amount,
        pool_vault_out_amount,
        amount_b_in,
        min_a_received,
        false,
        deadline,
        now,
        false,
    )
}

/// Sells `amount_a_in` of the first token of the pool for the second at the
/// time `now`: see `swap_outcome`. The fee it reports is rounded down.
pub fn market_sell(
    pool: &LiquidityPool,
    user_token_in_amount: u64,
    pool_vault_out_amount: u64,
    amount_a_in: u64,
    min_b_received: u64,
    deadline: i64,
    now: i64,
) -> (r: Result<SwapOutcome, CustomError>)
    requires
        fee_is_valid(*pool),
    ensures
        r == swap_outcome(
            *pool,
            user_token_in_amount,
            pool_vault_out_amount,
            amount_a_in,
            min_b_received,
            true,
            deadline,
            now,
            false,
        ),
{
    swap_with_fee_rounding(
        pool,
        user_token_in_amount,
        pool_vault_out_amount,
        amount_a_in,
        min_b_received,
        true,
        deadline,
        now,
        false,
    )
}

} // verus!
