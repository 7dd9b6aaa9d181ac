use vstd::prelude::*;
use crate::errors::CustomError;
use crate::fixed_point::PRICE_SCALE;
use crate::math::{div_trunc, fits_i128, fits_i64, lemma_native_division};
use crate::perps_state::{
    InsuranceVault,
    PerpsGlobalState,
    PerpsMarket,
    PerpsOraclePrice,
    PerpsUserAccount,
};
use crate::pool_state::Address;

verus! {

/// The liquidator's fee of a new market, in basis points of the closed
/// notional.
pub const DEFAULT_LIQUIDATION_FEE_BPS: u16 = 250;

/// The insurance penalty of a new market, in basis points of the closed
/// notional.
pub const DEFAULT_LIQUIDATION_PENALTY_BPS: u16 = 250;

/// The global state as it is first written: not paused.
pub fn initialize_global(authority: Address, fee_bps: u16, bump: u8) -> (global: PerpsGlobalState)
    ensures
        global == (PerpsGlobalState { authority, paused: false, fee_bps, bump }),
{
    PerpsGlobalState { authority, paused: false, fee_bps, bump }
}

/// A published price as it is first written at the time `now`.
pub fn initialize_oracle_price(admin: Address, price_i64: i64, now: i64, bump: u8) -> (oracle:
    PerpsOraclePrice)
    ensures
        oracle == (PerpsOraclePrice { admin, price_i64, last_update_ts: now, bump }),
{
    PerpsOraclePrice { admin, price_i64, last_update_ts: now, bump }
}

/// The published price after the administrator set it to `price_i64` at the
/// time `now`.
pub fn set_oracle_price(oracle: &PerpsOraclePrice, price_i64: i64, now: i64) -> (updated:
    PerpsOraclePrice)
    ensures
        updated == (PerpsOraclePrice { price_i64, last_update_ts: now, ..*oracle }),
{
    PerpsOraclePrice { price_i64, last_update_ts: now, ..*oracle }
}

/// What creating a market returns: the market with no funding accrued and no
/// open interest, its funding clock started at `now`, and the default
/// liquidation fee and penalty.
///
/// - `PerpsPaused` where trading is paused.
/// - `InvalidLeverage` where `max_leverage` is zero.
/// - `InvalidFundingParams` where `max_funding_rate` is negative or
///   `funding_interval_secs` is not positive.
pub open spec fn create_market_outcome(
    global: PerpsGlobalState,
    base_mint: Address,
    quote_mint: Address,
    oracle_price_account: Address,
    collateral_vault: Address,
    pyth_feed_id: Address,
    max_leverage: u16,
    maintenance_margin_bps: u16,
    max_funding_rate: i64,
    funding_interval_secs: i64,
    now: i64,
    bump: u8,
) -> Result<PerpsMarket, CustomError> {
    if global.paused {
        Err(CustomError::PerpsPaused)
    } else if max_leverage == 0 {
        Err(CustomError::InvalidLeverage)
    } else if max_funding_rate < 0 || funding_interval_secs <= 0 {
        Err(CustomError::InvalidFundingParams)
    } else {
        Ok(
            PerpsMarket {
                base_mint,
                quote_mint,
                pyth_feed_id,
                oracle_price_account,
                max_leverage,
                maintenance_margin_bps,
                funding_rate_i64: 0,
                open_interest_i128: 0,
                cumulative_funding_i128: 0,
                last_funding_ts: now,
                max_funding_rate_i64: max_funding_rate,
                funding_interval_secs,
                collateral_vault,
                bump,
                liquidation_fee_bps: DEFAULT_LIQUIDATION_FEE_BPS,
                liquidation_penalty_bps: DEFAULT_LIQUIDATION_PENALTY_BPS,
                emergency: false,
            },
        )
    }
}

/// Creates a market at the time `now`: see `create_market_outcome`.
pub fn create_market(
    global: &PerpsGlobalState,
    base_mint: Address,
    quote_mint: Address,
    oracle_price_account: Address,
    collateral_vault: Address,
    pyth_feed_id: Address,
    max_leverage: u16,
    maintenance_margin_bps: u16,
    max_funding_rate: i64,
    funding_interval_secs: i64,
    now: i64,
    bump: u8,
) -> (r: Result<PerpsMarket, CustomError>)
    ensures
        r == create_market_outcome(
            *global,
            base_mint,
            quote_mint,
            oracle_price_account,
            collateral_vault,
            pyth_feed_id,
            max_leverage,
            maintenance_margin_bps,
            max_funding_rate,
            funding_interval_secs,
            now,
            bump,
        ),
{
    if global.paused {
        return Err(CustomError::PerpsPaused);
    }
    if max_leverage == 0 {
        return Err(CustomError::InvalidLeverage);
    }
    if max_funding_rate < 0 {
        return Err(CustomError::InvalidFundingParams);
    }
    if funding_interval_secs <= 0 {
        return Err(CustomError::InvalidFundingParams);
    }
    Ok(
        PerpsMarket {
            base_mint,
            quote_mint,
            pyth_feed_id,
            oracle_price_account,
            max_leverage,
            maintenance_margin_bps,
            funding_rate_i64: 0,
            open_interest_i128: 0,
            cumulative_funding_i128: 0,
            last_funding_ts: now,
            max_funding_rate_i64: max_funding_rate,
            funding_interval_secs,
            collateral_vault,
            bump,
            liquidation_fee_bps: DEFAULT_LIQUIDATION_FEE_BPS,
            liquidation_penalty_bps: DEFAULT_LIQUIDATION_PENALTY_BPS,
            emergency: false,
        },
    )
}

/// A trader's account as it is first written: no collateral, no positions.
pub fn initialize_user(owner: Address, bump: u8) -> (user: PerpsUserAccount)
    ensures
        user == (PerpsUserAccount { owner, collateral_quote_u64: 0, positions_count_u8: 0, bump }),
{
    PerpsUserAccount { owner, collateral_quote_u64: 0, positions_count_u8: 0, bump }
}

/// The trader's account after a deposit of `amount`.
///
/// - `PerpsPaused` where trading is paused.
/// - `InvalidAmount` where the amount is zero.
/// - `CalculationOverflow` where the collateral would leave `u64`.
pub fn deposit_collateral(global: &PerpsGlobalState, user: &PerpsUserAccount, amount: u64) -> (r:
    Result<PerpsUserAccount, CustomError>)
    ensures
        r == if global.paused {
            Err::<PerpsUserAccount, CustomError>(CustomError::PerpsPaused)
        } else if amount == 0 {
            Err(CustomError::InvalidAmount)
        } else if user.collateral_quote_u64 + amount > u64::MAX {
            Err(CustomError::CalculationOverflow)
        } else {
            Ok(
                PerpsUserAccount {
                    collateral_quote_u64: (user.collateral_quote_u64 + amount) as u64,
                    ..*user
                },
            )
        },
{
    if global.paused {
        return Err(CustomError::PerpsPaused);
    }
    if amount == 0 {
        return Err(CustomError::InvalidAmount);
    }
    match user.collateral_quote_u64.checked_add(amount) {
        Some(total) => Ok(PerpsUserAccount { collateral_quote_u64: total, ..*user }),
        None => Err(CustomError::CalculationOverflow),
    }
}

/// The trader's account after a withdrawal of `amount`. Collateral can be
/// withdrawn only while no position is open.
///
/// - `PerpsPaused` where trading is paused.
/// - `InsufficientCollateral` where the amount exceeds the collateral.
/// - `MaintenanceMarginViolation` where a position is open.
pub fn withdraw_collateral(global: &PerpsGlobalState, user: &PerpsUserAccount, amount: u64) -> (r:
    Result<PerpsUserAccount, CustomError>)
    ensures
        r == if global.paused {
            Err::<PerpsUserAccount, CustomError>(CustomError::PerpsPaused)
        } else if user.collateral_quote_u64 < amount {
            Err(CustomError::InsufficientCollateral)
        } else if user.positions_count_u8 != 0 {
            Err(CustomError::MaintenanceMarginViolation)
        } else {
            Ok(
                PerpsUserAccount {
                    collateral_quote_u64: (user.collateral_quote_u64 - amount) as u64,
                    ..*user
                },
            )
        },
{
    if global.paused {
        return Err(CustomError::PerpsPaused);
    }
    if user.collateral_quote_u64 < amount {
        return Err(CustomError::InsufficientCollateral);
    }
    if user.positions_count_u8 != 0 {
        return Err(CustomError::MaintenanceMarginViolation);
    }
    Ok(PerpsUserAccount { collateral_quote_u64: user.collateral_quote_u64 - amount, ..*user })
}

/// An insurance fund as it is first written: empty.
pub fn initialize_insurance_vault(market: Address, vault_ata: Address, bump: u8) -> (vault:
    InsuranceVault)
    ensures
        vault == (InsuranceVault { market, vault_ata, balance_u64: 0, bump }),
{
    InsuranceVault { market, vault_ata, balance_u64: 0, bump }
}

/// The insurance fund after a deposit of `amount`.
///
/// - `InvalidAmount` where the amount is zero.
/// - `CalculationOverflow` where the balance would leave `u64`.
pub fn deposit_insurance(vault: &InsuranceVault, amount: u64) -> (r: Result<
    InsuranceVault,
    CustomError,
>)
    ensures
        r == if amount == 0 {
            Err::<InsuranceVault, CustomError>(CustomError::InvalidAmount)
        } else if vault.balance_u64 + amount > u64::MAX {
            Err(CustomError::CalculationOverflow)
        } else {
            Ok(InsuranceVault { balance_u64: (vault.balance_u64 + amount) as u64, ..*vault })
        },
{
    if amount == 0 {
        return Err(CustomError::InvalidAmount);
    }
    match vault.balance_u64.checked_add(amount) {
        Some(total) => Ok(InsuranceVault { balance_u64: total, ..*vault }),
        None => Err(CustomError::CalculationOverflow),
    }
}

/// The premium of the mark price over the index price, as a rate scaled by
/// `PRICE_SCALE` and rounded toward zero.
pub open spec fn funding_premium(mark: int, index: int) -> int {
    div_trunc((mark - index) * PRICE_SCALE, index)
}

/// A rate limited to `max_rate` in either direction.
pub open spec fn clamp_rate(rate: int, max_rate: int) -> int {
    vstd::math::min(vstd::math::max(rate, -max_rate), max_rate)
}

/// What one interval at `rate` adds to the cumulative funding per unit, at
/// the index price: the price times the rate, unscaled, rounded toward
/// zero.
pub open spec fn funding_increment(index: int, rate: int) -> int {
    div_trunc(index * rate, PRICE_SCALE as int)
}

/// Whether a funding update may run at the time `now`.
///
/// - `PerpsPaused` where trading is paused.
/// - `OraclePriceUnavailable` where the price account is not the market's.
/// - `CalculationOverflow` where the time since the last update is not an
///   `i64`.
/// - `FundingTooSoon` where less than the market's interval has passed.
pub open spec fn funding_update_is_due(
    global: PerpsGlobalState,
    market: PerpsMarket,
    oracle_price_account: Address,
    now: i64,
) -> Result<(), CustomError> {
    if global.paused {
        Err(CustomError::PerpsPaused)
    } else if oracle_price_account != market.oracle_price_account {
        Err(CustomError::OraclePriceUnavailable)
    } else if !fits_i64(now - market.last_funding_ts) {
        Err(CustomError::CalculationOverflow)
    } else if now - market.last_funding_ts < market.funding_interval_secs {
        Err(CustomError::FundingTooSoon)
    } else {
        Ok(())
    }
}

/// Checks that a funding update may run: see `funding_update_is_due`.
pub fn check_funding_update_is_due(
    global: &PerpsGlobalState,
    market: &PerpsMarket,
    oracle_price_account: Address,
    now: i64,
) -> (r: Result<(), CustomError>)
    ensures
        r == funding_update_is_due(*global, *market, oracle_price_account, now),
{
    if global.paused {
        return Err(CustomError::PerpsPaused);
    }
    if !(oracle_price_account == market.oracle_price_account) {
        return Err(CustomError::OraclePriceUnavailable);
    }
    let elapsed: i64 = match now.checked_sub(market.last_funding_ts) {
        Some(v) => v,
        None => { return Err(CustomError::CalculationOverflow); },
    };
    if elapsed < market.funding_interval_secs {
        return Err(CustomError::FundingTooSoon);
    }
    Ok(())
}

/// What a funding update returns: the market with its funding rate set to
/// the premium of `mark_price` over `index_price`, limited by the market's
/// largest rate; its cumulative funding moved by the increment of that rate;
/// and its funding clock set to `now`.
///
/// - The errors of `funding_update_is_due`.
/// - `OraclePriceUnavailable` where the index price is not positive.
/// - `CalculationOverflow` where the cumulative funding would leave `i128`.
pub open spec fn update_funding_outcome(
    global: PerpsGlobalState,
    market: PerpsMarket,
    oracle_price_account: Address,
    mark_price: i64,
    index_price: i64,
    now: i64,
) -> Result<PerpsMarket, CustomError> {
    let rate = clamp_rate(
        funding_premium(mark_price as int, index_price as int),
        market.max_funding_rate_i64 as int,
    );
    let cumulative = market.cumulative_funding_i128 + funding_increment(index_price as int, rate);
    match funding_update_is_due(global, market, oracle_price_account, now) {
        Err(e) => Err(e),
        Ok(_) => if index_price <= 0 {
            Err(CustomError::OraclePriceUnavailable)
        } else if !fits_i128(cumulative) {
            Err(CustomError::CalculationOverflow)
        } else {
            Ok(
                PerpsMarket {
                    funding_rate_i64: rate as i64,
                    cumulative_funding_i128: cumulative as i128,
                    last_funding_ts: now,
                    ..market
                },
            )
        },
    }
}

/// The limited funding rate is a 64-bit value whatever the premium.
pub proof fn lemma_clamped_rate_fits(rate: int, max_rate: i64)
    ensures
        fits_i64(clamp_rate(rate, max_rate as int)),
        max_rate >= 0 ==> -max_rate <= clamp_rate(rate, max_rate as int) <= max_rate,
{
}

/// Updates the funding of a market at the time `now`, given the mark price
/// of the perpetual and the index price of the oracle: see
/// `update_funding_outcome`.
pub fn update_funding(
    global: &PerpsGlobalState,
    market: &PerpsMarket,
    oracle_price_account: Address,
    mark_price_i64: i64,
    index_price: i64,
    now: i64,
) -> (r: Result<PerpsMarket, CustomError>)
    ensures
        r == update_funding_outcome(
            *global,
            *market,
            oracle_price_account,
            mark_price_i64,
            index_price,
            now,
        ),
        r matches Ok(m) ==> fits_i64(
            clamp_rate(
                funding_premium(mark_price_i64 as int, index_price as int),
                market.max_funding_rate_i64 as int,
            ),
        ),
{
    match check_funding_update_is_due(global, market, oracle_price_account, now) {
        Err(e) => { return Err(e); },
        Ok(_) => {},
    }
    if index_price <= 0 {
        return Err(CustomError::OraclePriceUnavailable);
    }
    let mark: i128 = mark_price_i64 as i128;
    let index: i128 = index_price as i128;
    proof {
        assert(-0xFFFF_FFFF_FFFF_FFFF * 1_000_000 <= (mark - index) * PRICE_SCALE
            <= 0xFFFF_FFFF_FFFF_FFFF * 1_000_000) by (nonlinear_arith)
            requires
                -0xFFFF_FFFF_FFFF_FFFF <= mark - index <= 0xFFFF_FFFF_FFFF_FFFF,
                PRICE_SCALE == 1_000_000,
        ;
        lemma_native_division((mark - index) * PRICE_SCALE, index as int);
    }
    let premium: i128 = (mark - index) * PRICE_SCALE / index;
    let max_rate: i128 = market.max_funding_rate_i64 as i128;
    let floor_rate: i128 = if premium >= -max_rate {
        premium
    } else {
        -max_rate
    };
    let clamped_rate: i128 = if floor_rate <= max_rate {
        floor_rate
    } else {
        max_rate
    };
    proof {
        lemma_clamped_rate_fits(premium as int, market.max_funding_rate_i64);
        assert(-0x8000_0000_0000_0000 * 0x8000_0000_0000_0000 <= index * clamped_rate
            <= 0x8000_0000_0000_0000 * 0x8000_0000_0000_0000) by (nonlinear_arith)
            requires
                0 <= index <= 0x8000_0000_0000_0000,
                -0x8000_0000_0000_0000 <= clamped_rate <= 0x8000_0000_0000_0000,
        ;
        lemma_native_division(index * clamped_rate, PRICE_SCALE as int);
    }
    let funding_increment: i128 = index * clamped_rate / PRICE_SCALE;
    let cumulative: i128 = match market.cumulative_funding_i128.checked_add(funding_increment) {
        Some(v) => v,
        None => { return Err(CustomError::CalculationOverflow); },
    };
    Ok(
        PerpsMarket {
            funding_rate_i64: clamped_rate as i64,
            cumulative_funding_i128: cumulative,
            last_funding_ts: now,
            ..*market
        },
    )
}

} // verus!
