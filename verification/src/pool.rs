use vstd::prelude::*;
use crate::amm::{
    calculate_lp_tokens_for_add_liquidity,
    calculate_remove_liquidity_amounts,
    lp_for_deposit,
    lp_share,
    ratio_of,
    validate_ratio_imbalance,
    RATIO_TOLERANCE,
};
use crate::errors::CustomError;
use crate::pool_state::{Address, LiquidityPool, UserLiquidityPosition};

verus! {

/// The fee of a new pool: three in a thousand.
pub const DEFAULT_FEE_NUMERATOR: u64 = 3;

pub const DEFAULT_FEE_DENOMINATOR: u64 = 1000;

/// The decimals of a pool's liquidity token.
pub const LP_TOKEN_DECIMALS: u8 = 6;

/// The smallest first deposit.
pub const MIN_INITIAL_DEPOSIT: u64 = 1000;

/// The largest slippage a caller may allow, in basis points.
pub const MAX_SLIPPAGE_BPS: u64 = 5000;

/// The tolerance of a deposit's ratio, in basis points.
pub const RATIO_TOLERANCE_BPS: u64 = 100;

/// The longest life of a limit order, in days.
pub const MAX_LIMIT_ORDER_EXPIRY_DAYS: i64 = 30;

/// The liquidity that stays locked in a pool.
pub const MINIMUM_LIQUIDITY: u64 = 1000;

/// What creating a pool returns: an empty pool of the two mints with the
/// default fee, created at `now`. Fails with `InvalidAmount` exactly where
/// the two mints are one.
pub open spec fn initialize_pool_outcome(
    authority: Address,
    token_a_mint: Address,
    token_b_mint: Address,
    token_a_vault: Address,
    token_b_vault: Address,
    lp_token_mint: Address,
    token_a_decimals: u8,
    token_b_decimals: u8,
    now: i64,
    bump: u8,
) -> Result<LiquidityPool, CustomError> {
    if token_a_mint == token_b_mint {
        Err(CustomError::InvalidAmount)
    } else {
        Ok(
            LiquidityPool {
                authority,
                token_a_mint,
                token_b_mint,
                token_a_vault,
                token_b_vault,
                lp_token_mint,
                reserve_a: 0,
                reserve_b: 0,
                total_lp_supply: 0,
                fee_numerator: DEFAULT_FEE_NUMERATOR,
                fee_denominator: DEFAULT_FEE_DENOMINATOR,
                token_a_decimals,
                token_b_decimals,
                is_stablecoin_pool: false,
                created_at: now,
                total_volume_a: 0,
                total_volume_b: 0,
                locked_liquidity: 0,
                bump,
            },
        )
    }
}

/// Creates a pool at the time `now`: see `initialize_pool_outcome`.
pub fn initialize_pool(
    authority: Address,
    token_a_mint: Address,
    token_b_mint: Address,
    token_a_vault: Address,
    token_b_vault: Address,
    lp_token_mint: Address,
    token_a_decimals: u8,
    token_b_decimals: u8,
    now: i64,
    bump: u8,
) -> (r: Result<LiquidityPool, CustomError>)
    ensures
        r == initialize_pool_outcome(
            authority,
            token_a_mint,
            token_b_mint,
            token_a_vault,
            token_b_vault,
            lp_token_mint,
            token_a_decimals,
            token_b_decimals,
            now,
            bump,
        ),
{
    if token_a_mint == token_b_mint {
        return Err(CustomError::InvalidAmount);
    }
    Ok(
        LiquidityPool {
            authority,
            token_a_mint,
            token_b_mint,
            token_a_vault,
            token_b_vault,
            lp_token_mint,
            reserve_a: 0,
            reserve_b: 0,
            total_lp_supply: 0,
            fee_numerator: DEFAULT_FEE_NUMERATOR,
            fee_denominator: DEFAULT_FEE_DENOMINATOR,
            token_a_decimals,
            token_b_decimals,
            is_stablecoin_pool: false,
            created_at: now,
            total_volume_a: 0,
            total_volume_b: 0,
            locked_liquidity: 0,
            bump,
        },
    )
}

/// What a deposit changes: the pool and the depositor's position, and the
/// liquidity tokens to mint for the amounts to take.
#[derive(Debug, Clone, Copy, PartialEq, Eq, Structural)]
pub struct AddLiquidityOutcome {
    pub pool: LiquidityPool,
    pub user_position: UserLiquidityPosition,
    pub lp_tokens_minted: u64,
}

/// Whether the ratio of a deposit is within the tolerance of a pool's.
pub open spec fn ratio_is_balanced(amount_a: int, amount_b: int, reserve_a: int, reserve_b: int) -> bool {
    ratio_of(reserve_a, reserve_b) - ratio_of(amount_a, amount_b) <= RATIO_TOLERANCE && ratio_of(
        amount_a,
        amount_b,
    ) - ratio_of(reserve_a, reserve_b) <= RATIO_TOLERANCE
}

/// The first error that stops a deposit of `amount_a` and `amount_b` before
/// liquidity tokens are counted, if any.
///
/// - `InvalidAmount` where an amount is zero.
/// - `InsufficientBalance` where the depositor holds less than an amount.
/// - For a pool with liquidity tokens: `CalculationOverflow` where
///   `reserve_a` is zero, `RatioImbalance` where the ratio of the deposit
///   is not that of the pool, `InsufficientLiquidity` where `reserve_b` is
///   zero.
pub open spec fn add_liquidity_checks(
    pool: LiquidityPool,
    user_token_a_amount: u64,
    user_token_b_amount: u64,
    amount_a: u64,
    amount_b: u64,
) -> Result<(), CustomError> {
    if amount_a == 0 || amount_b == 0 {
        Err(CustomError::InvalidAmount)
    } else if user_token_a_amount < amount_a || user_token_b_amount < amount_b {
        Err(CustomError::InsufficientBalance)
    } else if pool.total_lp_supply == 0 {
        Ok(())
    } else if pool.reserve_a == 0 {
        Err(CustomError::CalculationOverflow)
    } else if !ratio_is_balanced(
        amount_a as int,
        amount_b as int,
        pool.reserve_a as int,
        pool.reserve_b as int,
    ) {
        Err(CustomError::RatioImbalance)
    } else if pool.reserve_b == 0 {
        Err(CustomError::InsufficientLiquidity)
    } else {
        Ok(())
    }
}

/// The position of a depositor after `lp` liquidity tokens more at the time
/// `now`. A position that no one owns yet becomes the depositor's.
pub open spec fn position_after_deposit(
    position: UserLiquidityPosition,
    user: Address,
    pool_address: Address,
    position_bump: u8,
    lp: u64,
    now: i64,
) -> UserLiquidityPosition {
    if position.owner == (Address { high: 0, low: 0 }) {
        UserLiquidityPosition {
            owner: user,
            pool: pool_address,
            lp_tokens: (position.lp_tokens + lp) as u64,
            deposit_timestamp: now,
            last_claim_timestamp: now,
            bump: position_bump,
            ..position
        }
    } else {
        UserLiquidityPosition {
            lp_tokens: (position.lp_tokens + lp) as u64,
            last_claim_timestamp: now,
            ..position
        }
    }
}

/// What a deposit of `amount_a` and `amount_b` into the pool does at the
/// time `now`.
///
/// After the checks of `add_liquidity_checks`, the liquidity tokens that
/// the deposit earns are counted; the reserves grow by the amounts, the
/// supply and the depositor's position by the tokens.
///
/// - The errors of the checks.
/// - `SlippageTooHigh` where the deposit earns less than `min_lp_tokens`.
/// - `CalculationOverflow` where a reserve, the supply or the position
///   would leave `u64`.
pub open spec fn add_liquidity_outcome(
    pool: LiquidityPool,
    user_position: UserLiquidityPosition,
    user: Address,
    pool_address: Address,
    position_bump: u8,
    user_token_a_amount: u64,
    user_token_b_amount: u64,
    amount_a: u64,
    amount_b: u64,
    min_lp_tokens: u64,
    now: i64,
) -> Result<AddLiquidityOutcome, CustomError> {
    let lp = lp_for_deposit(
        amount_a as int,
        amount_b as int,
        pool.reserve_a as int,
        pool.reserve_b as int,
        pool.total_lp_supply as int,
    );
    match add_liquidity_checks(pool, user_token_a_amount, user_token_b_amount, amount_a, amount_b) {
        Err(e) => Err(e),
        Ok(_) => if lp < min_lp_tokens {
            Err(CustomError::SlippageTooHigh)
        } else if pool.reserve_a + amount_a > u64::MAX || pool.reserve_b + amount_b > u64::MAX
            || pool.total_lp_supply + lp > u64::MAX || user_position.lp_tokens + lp > u64::MAX {
            Err(CustomError::CalculationOverflow)
        } else {
            Ok(
                AddLiquidityOutcome {
                    pool: LiquidityPool {
                        reserve_a: (pool.reserve_a + amount_a) as u64,
                        reserve_b: (pool.reserve_b + amount_b) as u64,
                        total_lp_supply: (pool.total_lp_supply + lp) as u64,
                        ..pool
                    },
                    user_position: position_after_deposit(
                        user_position,
                        user,
                        pool_address,
                        position_bump,
                        lp as u64,
                        now,
                    ),
                    lp_tokens_minted: lp as u64,
                },
            )
        },
    }
}

/// Deposits `amount_a` and `amount_b` into the pool at the time `now`: see
/// `add_liquidity_outcome`.
pub fn add_liquidity(
    pool: &LiquidityPool,
    user_position: &UserLiquidityPosition,
    user: Address,
    pool_address: Address,
    position_bump: u8,
    user_token_a_amount: u64,
    user_token_b_amount: u64,
    amount_a: u64,
    amount_b: u64,
    min_lp_tokens: u64,
    now: i64,
) -> (r: Result<AddLiquidityOutcome, CustomError>)
    ensures
        r == add_liquidity_outcome(
            *pool,
            *user_position,
            user,
            pool_address,
            position_bump,
            user_token_a_amount,
            user_token_b_amount,
            amount_a,
            amount_b,
            min_lp_tokens,
            now,
        ),
{
    if !(amount_a > 0 && amount_b > 0) {
        return Err(CustomError::InvalidAmount);
    }
    if user_token_a_amount < amount_a {
        return Err(CustomError::InsufficientBalance);
    }
    if user_token_b_amount < amount_b {
        return Err(CustomError::InsufficientBalance);
    }
    if pool.total_lp_supply > 0 {
        match validate_ratio_imbalance(amount_a, amount_b, pool.reserve_a, pool.reserve_b) {
            Err(e) => { return Err(e); },
            Ok(_) => {},
        }
    }
    let lp_tokens_to_mint: u64 = match calculate_lp_tokens_for_add_liquidity(
        amount_a,
        amount_b,
        pool.reserve_a,
        pool.reserve_b,
        pool.total_lp_supply,
    ) {
        Err(e) => { return Err(e); },
        Ok(v) => v,
    };
    if lp_tokens_to_mint < min_lp_tokens {
        return Err(CustomError::SlippageTooHigh);
    }
    let reserve_a: u64 = match pool.reserve_a.checked_add(amount_a) {
        Some(v) => v,
        None => { return Err(CustomError::CalculationOverflow); },
    };
    let reserve_b: u64 = match pool.reserve_b.checked_add(amount_b) {
        Some(v) => v,
        None => { return Err(CustomError::CalculationOverflow); },
    };
    let total_lp_supply: u64 = match pool.total_lp_supply.checked_add(lp_tokens_to_mint) {
        Some(v) => v,
        None => { return Err(CustomError::CalculationOverflow); },
    };
    let lp_tokens: u64 = match user_position.lp_tokens.checked_add(lp_tokens_to_mint) {
        Some(v) => v,
        None => { return Err(CustomError::CalculationOverflow); },
    };
    let new_position: UserLiquidityPosition = if user_position.owner.is_default() {
        UserLiquidityPosition {
            owner: user,
            pool: pool_address,
            lp_tokens,
            deposit_timestamp: now,
            last_claim_timestamp: now,
            bump: position_bump,
            ..*user_position
        }
    } else {
        UserLiquidityPosition { lp_tokens, last_claim_timestamp: now, ..*user_position }
    };
    Ok(
        AddLiquidityOutcome {
            pool: LiquidityPool { reserve_a, reserve_b, total_lp_supply, ..*pool },
            user_position: new_position,
            lp_tokens_minted: lp_tokens_to_mint,
        },
    )
}

/// What a withdrawal changes: the pool and the position, and the amounts to
/// pay out for the liquidity tokens to burn.
#[derive(Debug, Clone, Copy, PartialEq, Eq, Structural)]
pub struct RemoveLiquidityOutcome {
    pub pool: LiquidityPool,
    pub user_position: UserLiquidityPosition,
    pub amount_a: u64,
    pub amount_b: u64,
}

/// What burning `lp_tokens_to_burn` liquidity tokens does: the holder gets
/// that share of each reserve, and reserves, supply and position shrink.
///
/// - `InvalidAmount` where nothing is burned.
/// - `InsufficientLPBalance` where the holder's token account or position
///   holds less than is burned.
/// - `InsufficientLiquidity` where the pool has no liquidity tokens.
/// - `SlippageTooHigh` where an amount is below its minimum.
/// - `InsufficientPoolReserves` where a vault or a reserve holds less than
///   its amount.
/// - `CalculationOverflow` where the supply is less than is burned.
pub open spec fn remove_liquidity_outcome(
    pool: LiquidityPool,
    user_position: UserLiquidityPosition,
    user_lp_amount: u64,
    vault_a_amount: u64,
    vault_b_amount: u64,
    lp_tokens_to_burn: u64,
    min_amount_a: u64,
    min_amount_b: u64,
) -> Result<RemoveLiquidityOutcome, CustomError> {
    let amount_a = lp_share(
        lp_tokens_to_burn as int,
        pool.reserve_a as int,
        pool.total_lp_supply as int,
    );
    let amount_b = lp_share(
        lp_tokens_to_burn as int,
        pool.reserve_b as int,
        pool.total_lp_supply as int,
    );
    if lp_tokens_to_burn == 0 {
        Err(CustomError::InvalidAmount)
    } else if user_lp_amount < lp_tokens_to_burn || user_position.lp_tokens < lp_tokens_to_burn {
        Err(CustomError::InsufficientLPBalance)
    } else if pool.total_lp_supply == 0 {
        Err(CustomError::InsufficientLiquidity)
    } else if amount_a < min_amount_a || amount_b < min_amount_b {
        Err(CustomError::SlippageTooHigh)
    } else if vault_a_amount < amount_a || vault_b_amount < amount_b || pool.reserve_a < amount_a
        || pool.reserve_b < amount_b {
        Err(CustomError::InsufficientPoolReserves)
    } else if pool.total_lp_supply < lp_tokens_to_burn {
        Err(CustomError::CalculationOverflow)
    } else {
        Ok(
            RemoveLiquidityOutcome {
                pool: LiquidityPool {
                    reserve_a: (pool.reserve_a - amount_a) as u64,
                    reserve_b: (pool.reserve_b - amount_b) as u64,
                    total_lp_supply: (pool.total_lp_supply - lp_tokens_to_burn) as u64,
                    ..pool
                },
                user_position: UserLiquidityPosition {
                    lp_tokens: (user_position.lp_tokens - lp_tokens_to_burn) as u64,
                    ..user_position
                },
                amount_a: amount_a as u64,
                amount_b: amount_b as u64,
            },
        )
    }
}

/// Burns `lp_tokens_to_burn` liquidity tokens for their share of the pool:
/// see `remove_liquidity_outcome`.
pub fn remove_liquidity(
    pool: &LiquidityPool,
    user_position: &UserLiquidityPosition,
    user_lp_amount: u64,
    vault_a_amount: u64,
    vault_b_amount: u64,
    lp_tokens_to_burn: u64,
    min_amount_a: u64,
    min_amount_b: u64,
) -> (r: Result<RemoveLiquidityOutcome, CustomError>)
    ensures
        r == remove_liquidity_outcome(
            *pool,
            *user_position,
            user_lp_amount,
            vault_a_amount,
            vault_b_amount,
            lp_tokens_to_burn,
            min_amount_a,
            min_amount_b,
        ),
{
    if lp_tokens_to_burn == 0 {
        return Err(CustomError::InvalidAmount);
    }
    if user_lp_amount < lp_tokens_to_burn {
        return Err(CustomError::InsufficientLPBalance);
    }
    if user_position.lp_tokens < lp_tokens_to_burn {
        return Err(CustomError::InsufficientLPBalance);
    }
    let (amount_a, amount_b) = match calculate_remove_liquidity_amounts(
        lp_tokens_to_burn,
        pool.total_lp_supply,
        pool.reserve_a,
        pool.reserve_b,
    ) {
        Err(e) => { return Err(e); },
        Ok(v) => v,
    };
    if amount_a < min_amount_a {
        return Err(CustomError::SlippageTooHigh);
    }
    if amount_b < min_amount_b {
        return Err(CustomError::SlippageTooHigh);
    }
    if vault_a_amount < amount_a {
        return Err(CustomError::InsufficientPoolReserves);
    }
    if vault_b_amount < amount_b {
        return Err(CustomError::InsufficientPoolReserves);
    }
    let reserve_a: u64 = match pool.reserve_a.checked_sub(amount_a) {
        Some(v) => v,
        None => { return Err(CustomError::InsufficientPoolReserves); },
    };
    let reserve_b: u64 = match pool.reserve_b.checked_sub(amount_b) {
        Some(v) => v,
        None => { return Err(CustomError::InsufficientPoolReserves); },
    };
    let total_lp_supply: u64 = match pool.total_lp_supply.checked_sub(lp_tokens_to_burn) {
        Some(v) => v,
        None => { return Err(CustomError::CalculationOverflow); },
    };
    Ok(
        RemoveLiquidityOutcome {
            pool: LiquidityPool { reserve_a, reserve_b, total_lp_supply, ..*pool },
            user_position: UserLiquidityPosition {
                lp_tokens: user_position.lp_tokens - lp_tokens_to_burn,
                ..*user_position
            },
            amount_a,
            amount_b,
        },
    )
}

/// Whether a pool can be closed: only with no liquidity tokens and no
/// reserves. Fails with `PoolNotEmpty` otherwise.
pub fn close_pool(pool: &LiquidityPool) -> (r: Result<(), CustomError>)
    ensures
        r == if pool.total_lp_supply == 0 && pool.reserve_a == 0 && pool.reserve_b == 0 {
            Ok::<(), CustomError>(())
        } else {
            Err(CustomError::PoolNotEmpty)
        },
{
    if pool.total_lp_supply != 0 {
        return Err(CustomError::PoolNotEmpty);
    }
    if pool.reserve_a != 0 {
        return Err(CustomError::PoolNotEmpty);
    }
    if pool.reserve_b != 0 {
        return Err(CustomError::PoolNotEmpty);
    }
    Ok(())
}

} // verus!
