use vstd::prelude::*;
use crate::amm::{
    calculate_output_amount,
    calculate_pool_price,
    check_price_condition,
    output_amount_outcome,
    pool_price_of,
};
use crate::errors::CustomError;
use crate::math::fits_i64;
use crate::pool_state::{Address, LimitOrder, LiquidityPool, OrderStatus, SECONDS_PER_DAY};
use crate::swap::fee_is_valid;

verus! {

/// When an order created at `now` for `expiry_days` days expires.
pub open spec fn expiry_time(now: int, expiry_days: int) -> int {
    now + expiry_days * SECONDS_PER_DAY
}

/// What is checked of a new limit order.
///
/// - `InvalidAmount` where the amount to sell, the target price or the
///   minimum to receive is zero.
/// - `InvalidExpiryTime` where `expiry_days` is not positive.
/// - `InsufficientBalance` where the owner holds less than the amount to
///   sell.
pub open spec fn create_limit_order_checks(
    user_token_in_amount: u64,
    sell_amount: u64,
    target_price: u64,
    minimum_receive: u64,
    expiry_days: i64,
) -> Result<(), CustomError> {
    if sell_amount == 0 || target_price == 0 || minimum_receive == 0 {
        Err(CustomError::InvalidAmount)
    } else if expiry_days <= 0 {
        Err(CustomError::InvalidExpiryTime)
    } else if user_token_in_amount < sell_amount {
        Err(CustomError::InsufficientBalance)
    } else {
        Ok(())
    }
}

/// Checks a new limit order: see `create_limit_order_checks`.
pub fn check_create_limit_order(
    user_token_in_amount: u64,
    sell_amount: u64,
    target_price: u64,
    minimum_receive: u64,
    expiry_days: i64,
) -> (r: Result<(), CustomError>)
    ensures
        r == create_limit_order_checks(
            user_token_in_amount,
            sell_amount,
            target_price,
            minimum_receive,
            expiry_days,
        ),
{
    if sell_amount == 0 {
        return Err(CustomError::InvalidAmount);
    }
    if target_price == 0 {
        return Err(CustomError::InvalidAmount);
    }
    if minimum_receive == 0 {
        return Err(CustomError::InvalidAmount);
    }
    if expiry_days <= 0 {
        return Err(CustomError::InvalidExpiryTime);
    }
    if user_token_in_amount < sell_amount {
        return Err(CustomError::InsufficientBalance);
    }
    Ok(())
}

/// Whether the expiry time of an order created at `now` for `expiry_days`
/// days can be computed in `i64`.
pub open spec fn expiry_time_fits(now: i64, expiry_days: i64) -> bool {
    fits_i64(expiry_days * SECONDS_PER_DAY) && fits_i64(expiry_time(now as int, expiry_days as int))
}

/// Creates a limit order at the time `now`: a pending order that expires
/// `expiry_days` days later. The amount to sell is to be moved to the
/// order's vault. Fails as `create_limit_order_checks` says.
///
/// The expiry time of an order that passes the checks must be an `i64`.
pub fn create_limit_order(
    owner: Address,
    pool: Address,
    sell_token: Address,
    buy_token: Address,
    user_token_in_amount: u64,
    sell_amount: u64,
    target_price: u64,
    minimum_receive: u64,
    expiry_days: i64,
    order_id: u64,
    now: i64,
    bump: u8,
) -> (r: Result<LimitOrder, CustomError>)
    requires
        create_limit_order_checks(
            user_token_in_amount,
            sell_amount,
            target_price,
            minimum_receive,
            expiry_days,
        ) is Ok ==> expiry_time_fits(now, expiry_days),
    ensures
        r == match create_limit_order_checks(
            user_token_in_amount,
            sell_amount,
            target_price,
            minimum_receive,
            expiry_days,
        ) {
            Err(e) => Err::<LimitOrder, CustomError>(e),
            Ok(_) => Ok(
                LimitOrder {
                    owner,
                    pool,
                    sell_token,
                    buy_token,
                    sell_amount,
                    target_price,
                    minimum_receive,
                    created_at: now,
                    expires_at: expiry_time(now as int, expiry_days as int) as i64,
                    status: OrderStatus::Pending,
                    bump,
                    order_id,
                },
            ),
        },
{
    match check_create_limit_order(
        user_token_in_amount,
        sell_amount,
        target_price,
        minimum_receive,
        expiry_days,
    ) {
        Err(e) => { return Err(e); },
        Ok(_) => {},
    }
    Ok(
        LimitOrder {
            owner,
            pool,
            sell_token,
            buy_token,
            sell_amount,
            target_price,
            minimum_receive,
            created_at: now,
            expires_at: now + expiry_days * (SECONDS_PER_DAY as i64),
            status: OrderStatus::Pending,
            bump,
            order_id,
        },
    )
}

/// What executing a limit order changes: the order and the pool, and what
/// the order receives at what pool price.
///
/// The amount the order sells is to be moved from the order's vault to the
/// pool, `receive_amount` from the pool to the owner.
#[derive(Debug, Clone, Copy, PartialEq, Eq, Structural)]
pub struct ExecuteLimitOrderOutcome {
    pub order: LimitOrder,
    pub pool: LiquidityPool,
    pub receive_amount: u64,
    pub execution_price: u64,
}

/// What executing a limit order does at the time `now`: the order swaps
/// the amount it sells into the pool and is executed.
///
/// - `InvalidOrderStatus` where the order is not pending.
/// - `OrderExpired` from the order's expiry time on.
/// - `InsufficientLiquidity` where the pool's first reserve is zero.
/// - `PriceConditionNotMet` where the pool price has not reached the
///   order's target: a sale of the first token needs it at or above the
///   target, a purchase at or below.
/// - The errors of the output amount.
/// - `SlippageTooHigh` where the output is below the order's minimum.
/// - `CalculationOverflow` where the input reserve would leave `u64`.
pub open spec fn execute_limit_order_outcome(order: LimitOrder, pool: LiquidityPool, now: i64) -> Result<
    ExecuteLimitOrderOutcome,
    CustomError,
> {
    let is_sell = order.sell_token == pool.token_a_mint;
    let price = pool_price_of(pool.reserve_a as int, pool.reserve_b as int);
    let input_reserve = if is_sell {
        pool.reserve_a
    } else {
        pool.reserve_b
    };
    let output_reserve = if is_sell {
        pool.reserve_b
    } else {
        pool.reserve_a
    };
    if order.status != OrderStatus::Pending {
        Err(CustomError::InvalidOrderStatus)
    } else if now >= order.expires_at {
        Err(CustomError::OrderExpired)
    } else if pool.reserve_a == 0 {
        Err(CustomError::InsufficientLiquidity)
    } else if (is_sell && price < order.target_price) || (!is_sell && price > order.target_price) {
        Err(CustomError::PriceConditionNotMet)
    } else {
        match output_amount_outcome(
            order.sell_amount,
            input_reserve,
            output_reserve,
            pool.fee_numerator,
            pool.fee_denominator,
        ) {
            Err(e) => Err(e),
            Ok(output) => if output < order.minimum_receive {
                Err(CustomError::SlippageTooHigh)
            } else if input_reserve + order.sell_amount > u64::MAX {
                Err(CustomError::CalculationOverflow)
            } else {
                Ok(
                    ExecuteLimitOrderOutcome {
                        order: LimitOrder { status: OrderStatus::Executed, ..order },
                        pool: if is_sell {
                            LiquidityPool {
                                reserve_a: (pool.reserve_a + order.sell_amount) as u64,
                                reserve_b: (pool.reserve_b - output) as u64,
                                ..pool
                            }
                        } else {
                            LiquidityPool {
                                reserve_b: (pool.reserve_b + order.sell_amount) as u64,
                                reserve_a: (pool.reserve_a - output) as u64,
                                ..pool
                            }
                        },
                        receive_amount: output,
                        execution_price: price as u64,
                    },
                )
            },
        }
    }
}

/// Executes a limit order against its pool at the time `now`: see
/// `execute_limit_order_outcome`.
pub fn execute_limit_order(order: &LimitOrder, pool: &LiquidityPool, now: i64) -> (r: Result<
    ExecuteLimitOrderOutcome,
    CustomError,
>)
    requires
        fee_is_valid(*pool),
    ensures
        r == execute_limit_order_outcome(*order, *pool, now),
{
    match order.status {
        OrderStatus::Pending => {},
        _ => { return Err(CustomError::InvalidOrderStatus); },
    }
    if now >= order.expires_at {
        return Err(CustomError::OrderExpired);
    }
    let current_price: u64 = match calculate_pool_price(pool.reserve_a, pool.reserve_b) {
        Err(e) => { return Err(e); },
        Ok(v) => v,
    };
    let is_sell: bool = order.sell_token == pool.token_a_mint;
    if !check_price_condition(current_price, order.target_price, is_sell) {
        return Err(CustomError::PriceConditionNotMet);
    }
    let (input_reserve, output_reserve) = if is_sell {
        (pool.reserve_a, pool.reserve_b)
    } else {
        (pool.reserve_b, pool.reserve_a)
    };
    let output_amount: u64 = match calculate_output_amount(
        order.sell_amount,
        input_reserve,
        output_reserve,
        pool.fee_numerator,
        pool.fee_denominator,
    ) {
        Err(e) => { return Err(e); },
        Ok(v) => v,
    };
    if output_amount < order.minimum_receive {
        return Err(CustomError::SlippageTooHigh);
    }
    let new_input_reserve: u64 = match input_reserve.checked_add(order.sell_amount) {
        Some(v) => v,
        None => { return Err(CustomError::CalculationOverflow); },
    };
    let new_output_reserve: u64 = output_reserve - output_amount;
    let new_pool: LiquidityPool = if is_sell {
        LiquidityPool { reserve_a: new_input_reserve, reserve_b: new_output_reserve, ..*pool }
    } else {
        LiquidityPool { reserve_b: new_input_reserve, reserve_a: new_output_reserve, ..*pool }
    };
    Ok(
        ExecuteLimitOrderOutcome {
            order: LimitOrder { status: OrderStatus::Executed, ..*order },
            pool: new_pool,
            receive_amount: output_amount,
            execution_price: current_price,
        },
    )
}

/// Cancels a limit order for the signer `user`: the order is cancelled and
/// the amount it sells is to be moved back to its owner.
///
/// - `UnauthorizedOrderOwner` where the signer is not the owner.
/// - `InvalidOrderStatus` where the order is not pending.
pub fn cancel_limit_order(order: &LimitOrder, user: Address) -> (r: Result<
    (LimitOrder, u64),
    CustomError,
>)
    ensures
        r == if user != order.owner {
            Err::<(LimitOrder, u64), CustomError>(CustomError::UnauthorizedOrderOwner)
        } else if order.status != OrderStatus::Pending {
            Err(CustomError::InvalidOrderStatus)
        } else {
            Ok((LimitOrder { status: OrderStatus::Cancelled, ..*order }, order.sell_amount))
        },
{
    if !(user == order.owner) {
        return Err(CustomError::UnauthorizedOrderOwner);
    }
    match order.status {
        OrderStatus::Pending => {},
        _ => { return Err(CustomError::InvalidOrderStatus); },
    }
    Ok((LimitOrder { status: OrderStatus::Cancelled, ..*order }, order.sell_amount))
}

} // verus!
