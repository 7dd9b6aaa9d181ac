use vstd::prelude::*;
use crate::errors::CustomError;
use crate::math::{as_unsigned_64, fits_i64, lemma_i64_as_u64, lemma_low_64_of_u128, low_64};
use crate::pool_state::{Address, LiquidityPool, RushConfig, UserLiquidityPosition, SECONDS_PER_YEAR};

verus! {

/// The decimals of the reward token.
pub const RUSH_DECIMALS: u8 = 6;

/// The supply of the reward token in whole tokens, and in base units.
pub const MAX_RUSH_SUPPLY: u64 = 1_000_000;

pub const MAX_RUSH_SUPPLY_BASE: u64 = 1_000_000_000_000;

/// The yearly yield of the reward token at the start: 50 in 100.
pub const INITIAL_APY_NUMERATOR: u64 = 50;

pub const INITIAL_APY_DENOMINATOR: u64 = 100;

/// The largest yield numerator an update may set.
pub const MAX_APY_NUMERATOR: u64 = 500;

/// The scale of a position's share of a pool in reward arithmetic.
pub const SHARE_SCALE: u128 = 1_000_000_000_000;

/// The rewards of one second at the start: half the supply a year, in base
/// units, rounded down.
pub const INITIAL_REWARDS_PER_SECOND: u64 = 15_854;

/// The configuration of the reward token as it is first written at `now`.
pub fn initialize_rush_token(mint: Address, authority: Address, now: i64, bump: u8) -> (config:
    RushConfig)
    ensures
        config == (RushConfig {
            mint,
            authority,
            total_supply: MAX_RUSH_SUPPLY_BASE,
            minted_so_far: 0,
            rewards_per_second: INITIAL_REWARDS_PER_SECOND,
            apy_numerator: INITIAL_APY_NUMERATOR,
            apy_denominator: INITIAL_APY_DENOMINATOR,
            start_timestamp: now,
            is_paused: false,
            bump,
        }),
        INITIAL_REWARDS_PER_SECOND == ((MAX_RUSH_SUPPLY * INITIAL_APY_NUMERATOR)
            / (INITIAL_APY_DENOMINATOR as int) * 1_000_000) / (SECONDS_PER_YEAR as int),
{
    let yearly_rewards: u64 = MAX_RUSH_SUPPLY * INITIAL_APY_NUMERATOR / INITIAL_APY_DENOMINATOR;
    let rewards_per_second: u64 = yearly_rewards * 1_000_000 / SECONDS_PER_YEAR;
    RushConfig {
        mint,
        authority,
        total_supply: MAX_RUSH_SUPPLY_BASE,
        minted_so_far: 0,
        rewards_per_second,
        apy_numerator: INITIAL_APY_NUMERATOR,
        apy_denominator: INITIAL_APY_DENOMINATOR,
        start_timestamp: now,
        is_paused: false,
        bump,
    }
}

/// The share of a pool that `lp_tokens` of `total_lp_supply` are, scaled by
/// `SHARE_SCALE` and rounded down.
pub open spec fn share_of_pool(lp_tokens: int, total_lp_supply: int) -> int {
    (lp_tokens * SHARE_SCALE) / total_lp_supply
}

/// The rewards that a share of a pool earns in `time_elapsed` seconds,
/// rounded down.
pub open spec fn rewards_of_share(rewards_per_second: int, time_elapsed: int, share: int) -> int {
    (rewards_per_second * time_elapsed * share) / (SHARE_SCALE as int)
}

/// The rewards that a position has earned since its last claim, at the time
/// `now`.
pub open spec fn pending_rewards_of(
    position: UserLiquidityPosition,
    pool: LiquidityPool,
    config: RushConfig,
    now: i64,
) -> int {
    rewards_of_share(
        config.rewards_per_second as int,
        as_unsigned_64(now - position.last_claim_timestamp),
        share_of_pool(position.lp_tokens as int, pool.total_lp_supply as int),
    )
}

/// Whether the rewards of a position can be computed in 128 bits: the time
/// since the last claim is an `i64`, and the rewards of the period times
/// the share of the pool fit.
pub open spec fn rewards_are_computable(
    position: UserLiquidityPosition,
    pool: LiquidityPool,
    config: RushConfig,
    now: i64,
) -> bool {
    &&& fits_i64(now - position.last_claim_timestamp)
    &&& config.rewards_per_second * as_unsigned_64(now - position.last_claim_timestamp)
        * share_of_pool(position.lp_tokens as int, pool.total_lp_supply as int) <= u128::MAX
}

/// Whether the rewards of a position can be counted: they can be computed
/// and fit in `u64`.
pub open spec fn rewards_are_countable(
    position: UserLiquidityPosition,
    pool: LiquidityPool,
    config: RushConfig,
    now: i64,
) -> bool {
    rewards_are_computable(position, pool, config, now) && pending_rewards_of(
        position,
        pool,
        config,
        now,
    ) <= u64::MAX
}

/// The rewards of a position since its last claim in 128 bits, and the
/// share of the pool and the seconds that they were computed for.
fn compute_rewards(position: &UserLiquidityPosition, pool: &LiquidityPool, config: &RushConfig, now: i64) -> (r:
    Result<(u128, u128, u64), CustomError>)
    requires
        pool.total_lp_supply > 0,
    ensures
        r == if rewards_are_computable(*position, *pool, *config, now) {
            Ok::<(u128, u128, u64), CustomError>(
                (
                    pending_rewards_of(*position, *pool, *config, now) as u128,
                    share_of_pool(position.lp_tokens as int, pool.total_lp_supply as int) as u128,
                    as_unsigned_64(now - position.last_claim_timestamp) as u64,
                ),
            )
        } else {
            Err(CustomError::CalculationOverflow)
        },
        r is Ok ==> 0 <= pending_rewards_of(*position, *pool, *config, now) <= u128::MAX,
{
    let elapsed: i64 = match now.checked_sub(position.last_claim_timestamp) {
        Some(v) => v,
        None => { return Err(CustomError::CalculationOverflow); },
    };
    proof {
        lemma_i64_as_u64(elapsed);
        assert(0 <= position.lp_tokens * SHARE_SCALE <= 0xFFFF_FFFF_FFFF_FFFF
            * 1_000_000_000_000) by (nonlinear_arith)
            requires
                SHARE_SCALE == 1_000_000_000_000,
        ;
    }
    let time_elapsed: u64 =
        #[verifier::truncate]
        (elapsed as u64);
    let user_share_fixed: u128 = (position.lp_tokens as u128) * SHARE_SCALE / (pool.total_lp_supply
        as u128);
    proof {
        assert(0 <= config.rewards_per_second * time_elapsed <= 0xFFFF_FFFF_FFFF_FFFF
            * 0xFFFF_FFFF_FFFF_FFFF) by (nonlinear_arith);
    }
    let period_rewards_fixed: u128 = (config.rewards_per_second as u128) * (time_elapsed as u128);
    match period_rewards_fixed.checked_mul(user_share_fixed) {
        Some(v) => Ok((v / SHARE_SCALE, user_share_fixed, time_elapsed)),
        None => Err(CustomError::CalculationOverflow),
    }
}

/// The rewards of a position since its last claim, and the share of the
/// pool and the seconds that they were counted for.
fn count_rewards(position: &UserLiquidityPosition, pool: &LiquidityPool, config: &RushConfig, now: i64) -> (r:
    Result<(u64, u128, u64), CustomError>)
    requires
        pool.total_lp_supply > 0,
    ensures
        r == if rewards_are_countable(*position, *pool, *config, now) {
            Ok::<(u64, u128, u64), CustomError>(
                (
                    pending_rewards_of(*position, *pool, *config, now) as u64,
                    share_of_pool(position.lp_tokens as int, pool.total_lp_supply as int) as u128,
                    as_unsigned_64(now - position.last_claim_timestamp) as u64,
                ),
            )
        } else {
            Err(CustomError::CalculationOverflow)
        },
{
    let (rewards, share, seconds) = match compute_rewards(position, pool, config, now) {
        Err(e) => { return Err(e); },
        Ok(v) => v,
    };
    if rewards > u64::MAX as u128 {
        return Err(CustomError::CalculationOverflow);
    }
    Ok((rewards as u64, share, seconds))
}

/// What a position can claim at the time `now`.
///
/// - `InvalidAmount` where the position holds no liquidity tokens.
/// - `InsufficientLiquidity` where the pool has none.
/// - `CalculationOverflow` where the time since the last claim is not an
///   `i64`.
/// - Nothing where no time has passed.
/// - `CalculationOverflow` where the rewards cannot be counted, or what is
///   minted with them leaves `u64`.
/// - `InvalidAmount` where more would be minted than the supply.
pub open spec fn pending_rewards_outcome(
    position: UserLiquidityPosition,
    pool: LiquidityPool,
    config: RushConfig,
    now: i64,
) -> Result<u64, CustomError> {
    let rewards = pending_rewards_of(position, pool, config, now);
    if position.lp_tokens == 0 {
        Err(CustomError::InvalidAmount)
    } else if pool.total_lp_supply == 0 {
        Err(CustomError::InsufficientLiquidity)
    } else if !fits_i64(now - position.last_claim_timestamp) {
        Err(CustomError::CalculationOverflow)
    } else if now == position.last_claim_timestamp {
        Ok(0)
    } else if !rewards_are_countable(position, pool, config, now) || config.minted_so_far + rewards
        > u64::MAX {
        Err(CustomError::CalculationOverflow)
    } else if config.minted_so_far + rewards > config.total_supply {
        Err(CustomError::InvalidAmount)
    } else {
        Ok(rewards as u64)
    }
}

/// The rewards that a position can claim at the time `now`: see
/// `pending_rewards_outcome`.
pub fn calculate_pending_rewards(
    position: &UserLiquidityPosition,
    pool: &LiquidityPool,
    config: &RushConfig,
    now: i64,
) -> (r: Result<u64, CustomError>)
    ensures
        r == pending_rewards_outcome(*position, *pool, *config, now),
{
    if position.lp_tokens == 0 {
        return Err(CustomError::InvalidAmount);
    }
    if pool.total_lp_supply == 0 {
        return Err(CustomError::InsufficientLiquidity);
    }
    if now == position.last_claim_timestamp {
        return Ok(0);
    }
    let (user_rewards, _, _) = match count_rewards(position, pool, config, now) {
        Err(e) => { return Err(e); },
        Ok(v) => v,
    };
    let new_minted_total: u64 = match config.minted_so_far.checked_add(user_rewards) {
        Some(v) => v,
        None => { return Err(CustomError::CalculationOverflow); },
    };
    if new_minted_total > config.total_supply {
        return Err(CustomError::InvalidAmount);
    }
    Ok(user_rewards)
}

/// What a claim changes: the position and the configuration, and the
/// rewards to mint. The share of the pool, scaled by `SHARE_SCALE`, and the
/// seconds since the last claim are what the rewards were counted for.
#[derive(Debug, Clone, Copy, PartialEq, Eq, Structural)]
pub struct ClaimOutcome {
    pub position: UserLiquidityPosition,
    pub config: RushConfig,
    pub rewards_amount: u64,
    pub user_share_fixed: u128,
    pub time_elapsed: u64,
}

/// What claiming the rewards of a position does at the time `now`: the
/// rewards since the last claim are minted, the position counts them as
/// claimed and starts a new period, and the configuration counts them as
/// minted.
///
/// - `InvalidAmount` where rewards are paused or the position holds no
///   liquidity tokens.
/// - `InsufficientLiquidity` where the pool has none.
/// - `CalculationOverflow` where the rewards cannot be counted.
/// - `InvalidAmount` where there is nothing to claim.
/// - `CalculationOverflow` where what is minted with them leaves `u64`.
/// - `InvalidAmount` where more would be minted than the supply.
/// - `CalculationOverflow` where what the position has claimed leaves
///   `u64`.
pub open spec fn claim_outcome(
    position: UserLiquidityPosition,
    pool: LiquidityPool,
    config: RushConfig,
    now: i64,
) -> Result<ClaimOutcome, CustomError> {
    let rewards = pending_rewards_of(position, pool, config, now);
    if config.is_paused || position.lp_tokens == 0 {
        Err(CustomError::InvalidAmount)
    } else if pool.total_lp_supply == 0 {
        Err(CustomError::InsufficientLiquidity)
    } else if !rewards_are_countable(position, pool, config, now) {
        Err(CustomError::CalculationOverflow)
    } else if rewards == 0 {
        Err(CustomError::InvalidAmount)
    } else if config.minted_so_far + rewards > u64::MAX {
        Err(CustomError::CalculationOverflow)
    } else if config.minted_so_far + rewards > config.total_supply {
        Err(CustomError::InvalidAmount)
    } else if position.total_rush_claimed + rewards > u64::MAX {
        Err(CustomError::CalculationOverflow)
    } else {
        Ok(
            ClaimOutcome {
                position: UserLiquidityPosition {
                    last_claim_timestamp: now,
                    total_rush_claimed: (position.total_rush_claimed + rewards) as u64,
                    ..position
                },
                config: RushConfig { minted_so_far: (config.minted_so_far + rewards) as u64, ..config },
                rewards_amount: rewards as u64,
                user_share_fixed: share_of_pool(
                    position.lp_tokens as int,
                    pool.total_lp_supply as int,
                ) as u128,
                time_elapsed: as_unsigned_64(now - position.last_claim_timestamp) as u64,
            },
        )
    }
}

/// Claims the rewards of a position at the time `now`: see `claim_outcome`.
pub fn claim_rush_rewards(
    position: &UserLiquidityPosition,
    pool: &LiquidityPool,
    config: &RushConfig,
    now: i64,
) -> (r: Result<ClaimOutcome, CustomError>)
    ensures
        r == claim_outcome(*position, *pool, *config, now),
{
    if config.is_paused {
        return Err(CustomError::InvalidAmount);
    }
    if position.lp_tokens == 0 {
        return Err(CustomError::InvalidAmount);
    }
    if pool.total_lp_supply == 0 {
        return Err(CustomError::InsufficientLiquidity);
    }
    let (user_rewards, user_share_fixed, time_elapsed) = match count_rewards(
        position,
        pool,
        config,
        now,
    ) {
        Err(e) => { return Err(e); },
        Ok(v) => v,
    };
    if user_rewards == 0 {
        return Err(CustomError::InvalidAmount);
    }
    let new_minted_total: u64 = match config.minted_so_far.checked_add(user_rewards) {
        Some(v) => v,
        None => { return Err(CustomError::CalculationOverflow); },
    };
    if new_minted_total > config.total_supply {
        return Err(CustomError::InvalidAmount);
    }
    let total_rush_claimed: u64 = match position.total_rush_claimed.checked_add(user_rewards) {
        Some(v) => v,
        None => { return Err(CustomError::CalculationOverflow); },
    };
    Ok(
        ClaimOutcome {
            position: UserLiquidityPosition {
                last_claim_timestamp: now,
                total_rush_claimed,
                ..*position
            },
            config: RushConfig { minted_so_far: new_minted_total, ..*config },
            rewards_amount: user_rewards,
            user_share_fixed,
            time_elapsed,
        },
    )
}

/// The rewards of one second at the yield `apy_numerator`: the yearly
/// rewards of the supply, rounded down, over the seconds of a year, rounded
/// down.
pub open spec fn rewards_per_second_at(total_supply: int, apy_numerator: int, apy_denominator: int) -> int {
    ((total_supply * apy_numerator) / apy_denominator) / (SECONDS_PER_YEAR as int)
}

/// Sets the yield of the reward token to `new_apy` for the signer
/// `authority`, and the rewards of one second to match.
///
/// - `InvalidAuthority` where the signer is not the configured authority.
/// - `InvalidAmount` where `new_apy` is zero or above `MAX_APY_NUMERATOR`.
/// - `CalculationOverflow` where the yield denominator is zero.
pub fn update_rush_apy(config: &RushConfig, authority: Address, new_apy: u64) -> (r: Result<
    RushConfig,
    CustomError,
>)
    ensures
        r == if authority != config.authority {
            Err::<RushConfig, CustomError>(CustomError::InvalidAuthority)
        } else if new_apy == 0 || new_apy > MAX_APY_NUMERATOR {
            Err(CustomError::InvalidAmount)
        } else if config.apy_denominator == 0 {
            Err(CustomError::CalculationOverflow)
        } else {
            Ok(
                RushConfig {
                    apy_numerator: new_apy,
                    rewards_per_second: rewards_per_second_at(
                        config.total_supply as int,
                        new_apy as int,
                        config.apy_denominator as int,
                    ) as u64,
                    ..*config
                },
            )
        },
{
    if !(authority == config.authority) {
        return Err(CustomError::InvalidAuthority);
    }
    if !(new_apy > 0 && new_apy <= MAX_APY_NUMERATOR) {
        return Err(CustomError::InvalidAmount);
    }
    if config.apy_denominator == 0 {
        return Err(CustomError::CalculationOverflow);
    }
    proof {
        assert(0 <= config.total_supply * new_apy <= 0xFFFF_FFFF_FFFF_FFFF * 500)
            by (nonlinear_arith)
            requires
                new_apy <= 500,
        ;
        vstd::arithmetic::div_mod::lemma_div_nonincreasing(
            config.total_supply * new_apy,
            config.apy_denominator as int,
        );
        vstd::arithmetic::div_mod::lemma_div_pos_is_pos(
            config.total_supply * new_apy,
            config.apy_denominator as int,
        );
    }
    let yearly_rewards: u128 = (config.total_supply as u128) * (new_apy as u128)
        / (config.apy_denominator as u128);
    let per_second: u128 = yearly_rewards / (SECONDS_PER_YEAR as u128);
    if per_second > u64::MAX as u128 {
        return Err(CustomError::CalculationOverflow);
    }
    Ok(RushConfig { apy_numerator: new_apy, rewards_per_second: per_second as u64, ..*config })
}

/// Pauses the rewards, or resumes them where they are paused, for the
/// signer `authority`.
///
/// - `InvalidAuthority` where the signer is not the configured authority.
pub fn pause_rush_rewards(config: &RushConfig, authority: Address) -> (r: Result<
    RushConfig,
    CustomError,
>)
    ensures
        r == if authority != config.authority {
            Err::<RushConfig, CustomError>(CustomError::InvalidAuthority)
        } else {
            Ok(RushConfig { is_paused: !config.is_paused, ..*config })
        },
{
    if !(authority == config.authority) {
        return Err(CustomError::InvalidAuthority);
    }
    Ok(RushConfig { is_paused: !config.is_paused, ..*config })
}

/// What a position has earned and is worth.
#[derive(Debug, Clone, Copy, PartialEq, Eq, Structural)]
pub struct UserRewardsInfo {
    /// The rewards not yet claimed, in base units.
    pub pending_rewards: u64,
    /// The rewards claimed so far, in base units.
    pub total_claimed: u64,
    /// The yield numerator in force.
    pub current_apy: u64,
    /// An estimate of the value of the position, scaled by 1_000_000.
    pub position_value_usd: u64,
    /// The seconds since the deposit.
    pub time_since_deposit: i64,
}

/// The scale of the estimated value of a position.
pub const VALUE_SCALE: u64 = 1_000_000;

/// The rewards that a report shows as pending: those earned since the last
/// claim, none where they do not fit in `u64`, and no more than is left of
/// the supply to mint.
pub open spec fn reported_rewards(
    position: UserLiquidityPosition,
    pool: LiquidityPool,
    config: RushConfig,
    now: i64,
) -> int {
    let earned = pending_rewards_of(position, pool, config, now);
    let shown = if earned <= u64::MAX {
        earned
    } else {
        0
    };
    if config.minted_so_far + shown > config.total_supply {
        config.remaining()
    } else {
        shown
    }
}

/// The position's share of both reserves of the pool taken together,
/// rounded down.
pub open spec fn position_value_of(position: UserLiquidityPosition, pool: LiquidityPool) -> int {
    ((pool.reserve_a + pool.reserve_b) * share_of_pool(
        position.lp_tokens as int,
        pool.total_lp_supply as int,
    )) / (SHARE_SCALE as int)
}

/// The estimate of the value of a position that a report shows: the low 64
/// bits of the value, scaled by `VALUE_SCALE`, at most `u64::MAX`.
pub open spec fn reported_value(position: UserLiquidityPosition, pool: LiquidityPool) -> int {
    let low = low_64(position_value_of(position, pool));
    if low * VALUE_SCALE > u64::MAX {
        u64::MAX as int
    } else {
        low * VALUE_SCALE
    }
}

/// What a report on a position shows at the time `now`.
///
/// - `InvalidAmount` where the position holds no liquidity tokens.
/// - `InsufficientLiquidity` where the pool has none.
/// - `CalculationOverflow` where the rewards cannot be computed, the value
///   before its division does not fit in 128 bits, or the time since the
///   deposit is not an `i64`.
pub open spec fn user_rewards_info_outcome(
    position: UserLiquidityPosition,
    pool: LiquidityPool,
    config: RushConfig,
    now: i64,
) -> Result<UserRewardsInfo, CustomError> {
    if position.lp_tokens == 0 {
        Err(CustomError::InvalidAmount)
    } else if pool.total_lp_supply == 0 {
        Err(CustomError::InsufficientLiquidity)
    } else if !rewards_are_computable(position, pool, config, now) || (pool.reserve_a
        + pool.reserve_b) * share_of_pool(position.lp_tokens as int, pool.total_lp_supply as int)
        > u128::MAX || !fits_i64(now - position.deposit_timestamp) {
        Err(CustomError::CalculationOverflow)
    } else {
        Ok(
            UserRewardsInfo {
                pending_rewards: reported_rewards(position, pool, config, now) as u64,
                total_claimed: position.total_rush_claimed,
                current_apy: config.apy_numerator,
                position_value_usd: reported_value(position, pool) as u64,
                time_since_deposit: (now - position.deposit_timestamp) as i64,
            },
        )
    }
}

/// Reports what a position has earned and is worth at the time `now`: see
/// `user_rewards_info_outcome`.
pub fn get_user_rewards_info(
    position: &UserLiquidityPosition,
    pool: &LiquidityPool,
    config: &RushConfig,
    now: i64,
) -> (r: Result<UserRewardsInfo, CustomError>)
    ensures
        r == user_rewards_info_outcome(*position, *pool, *config, now),
{
    if position.lp_tokens == 0 {
        return Err(CustomError::InvalidAmount);
    }
    if pool.total_lp_supply == 0 {
        return Err(CustomError::InsufficientLiquidity);
    }
    let (earned, user_share_fixed, _) = match compute_rewards(position, pool, config, now) {
        Err(e) => { return Err(e); },
        Ok(v) => v,
    };
    let shown: u64 = if earned > u64::MAX as u128 {
        0
    } else {
        earned as u64
    };
    let pending_rewards: u64 = if (config.minted_so_far as u128) + (shown as u128)
        > config.total_supply as u128 {
        config.remaining_rewards()
    } else {
        shown
    };
    let total_pool_value: u128 = (pool.reserve_a as u128) + (pool.reserve_b as u128);
    let position_value: u128 = match total_pool_value.checked_mul(user_share_fixed) {
        Some(v) => v / SHARE_SCALE,
        None => { return Err(CustomError::CalculationOverflow); },
    };
    proof {
        lemma_low_64_of_u128(position_value);
    }
    let value_low: u64 =
        #[verifier::truncate]
        (position_value as u64);
    let position_value_usd: u64 = match value_low.checked_mul(VALUE_SCALE) {
        Some(v) => v,
        None => u64::MAX,
    };
    let time_since_deposit: i64 = match now.checked_sub(position.deposit_timestamp) {
        Some(v) => v,
        None => { return Err(CustomError::CalculationOverflow); },
    };
    Ok(
        UserRewardsInfo {
            pending_rewards,
            total_claimed: position.total_rush_claimed,
            current_apy: config.apy_numerator,
            position_value_usd,
            time_since_deposit,
        },
    )
}

} // verus!
