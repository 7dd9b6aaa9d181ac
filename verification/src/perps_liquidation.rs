use vstd::prelude::*;
use crate::errors::CustomError;
use crate::fixed_point::PRICE_SCALE;
use crate::liquidation::{
    close_size_is_computable,
    compute_liquidation_close_size,
    is_liquidatable,
    liquidatable_at,
    liquidation_close_size,
    liquidation_is_computable,
};
use crate::math::{fits_i128, magnitude};
use crate::perps_positions::{
    closed_position,
    one_position_fewer,
    settle_position_funding,
    settled_position,
};
use crate::perps_state::{
    side_of,
    InsuranceVault,
    PerpsGlobalState,
    PerpsMarket,
    PerpsPosition,
    PerpsUserAccount,
};
use crate::pool_state::Address;
use crate::position::{apply_trade_to_position, lemma_trade_pnl_bounds, trade_outcome, TradeResult};
use crate::valuation::{lemma_valuation_bounds, notional_of, notional_value, BPS_DENOMINATOR};

verus! {

/// What a liquidation changes: the position, the trader's account, the
/// market and its insurance fund; the funding that was settled first; and
/// what was closed and paid.
///
/// `liquidator_fee` is to be moved from the market's collateral vault to the
/// liquidator, `insurance_penalty` from there to the insurance fund.
/// `bad_debt` is what the insurance fund covered of a negative remainder,
/// and `emergency` says that it could not cover all of it.
#[derive(Debug, Clone, Copy, PartialEq, Eq, Structural)]
pub struct LiquidationOutcome {
    pub position: PerpsPosition,
    pub user: PerpsUserAccount,
    pub market: PerpsMarket,
    pub insurance_vault: InsuranceVault,
    pub funding_delta: i128,
    pub settled_collateral: u64,
    pub size_closed: i64,
    pub liquidator_fee: u64,
    pub insurance_penalty: u64,
    pub bad_debt: u64,
    pub emergency: bool,
}

/// What is checked of a liquidation before a price is read.
///
/// - `PerpsPaused` where trading is paused.
/// - `SelfLiquidation` where the liquidator owns the position.
/// - `NoOpenPosition` where the position is flat.
/// - `OraclePriceUnavailable` where the price account is not the market's.
pub open spec fn liquidate_position_checks(
    global: PerpsGlobalState,
    market: PerpsMarket,
    position: PerpsPosition,
    liquidator: Address,
    position_owner: Address,
    oracle_price_account: Address,
) -> Result<(), CustomError> {
    if global.paused {
        Err(CustomError::PerpsPaused)
    } else if liquidator == position_owner {
        Err(CustomError::SelfLiquidation)
    } else if position.base_position_i64 == 0 {
        Err(CustomError::NoOpenPosition)
    } else if oracle_price_account != market.oracle_price_account {
        Err(CustomError::OraclePriceUnavailable)
    } else {
        Ok(())
    }
}

/// Checks a liquidation before a price is read: see
/// `liquidate_position_checks`.
pub fn check_liquidate_position(
    global: &PerpsGlobalState,
    market: &PerpsMarket,
    position: &PerpsPosition,
    liquidator: Address,
    position_owner: Address,
    oracle_price_account: Address,
) -> (r: Result<(), CustomError>)
    ensures
        r == liquidate_position_checks(
            *global,
            *market,
            *position,
            liquidator,
            position_owner,
            oracle_price_account,
        ),
{
    if global.paused {
        return Err(CustomError::PerpsPaused);
    }
    if liquidator == position_owner {
        return Err(CustomError::SelfLiquidation);
    }
    if position.base_position_i64 == 0 {
        return Err(CustomError::NoOpenPosition);
    }
    if !(oracle_price_account == market.oracle_price_account) {
        return Err(CustomError::OraclePriceUnavailable);
    }
    Ok(())
}

/// A charge of `bps` basis points on the notional value that a liquidation
/// closed, in quote units: the notional value is a size times a price and
/// so carries the price scale, which is taken out. Each division rounds
/// down. A charge that does not fit in `u64` is not made.
pub open spec fn liquidation_charge(closed_notional: int, bps: int) -> int {
    let charge = ((closed_notional * bps) / (BPS_DENOMINATOR as int)) / (PRICE_SCALE as int);
    if charge <= u64::MAX {
        charge
    } else {
        0
    }
}

/// The debt that a negative remainder of collateral leaves: its magnitude,
/// but no more than `u64::MAX`.
pub open spec fn debt_of(remainder: int) -> int {
    if -remainder <= u64::MAX {
        -remainder
    } else {
        u64::MAX as int
    }
}

/// The settlement of a liquidation that closed `size` of the position
/// `settled` by the trade `trade`, the market's collateral vault holding
/// `vault_amount`.
///
/// The liquidator's fee and the insurance penalty are charged on the closed
/// notional value and taken from the collateral of the position together
/// with the loss of the trade. Where that leaves less than nothing, the
/// insurance fund covers the debt as far as it can, the market goes into
/// emergency where it cannot, and nothing is left. What is paid out is
/// limited by what the collateral vault holds: first the fee, then the
/// penalty. The open interest falls by the closed notional value, to zero
/// where it would leave `i128`. A position closed in full is reset and
/// what is left of its collateral goes back to the trader; otherwise it
/// stays locked in the position.
///
/// - `CalculationOverflow` where a charge before its division, a partial
///   sum of the remainder, what is left, the insurance balance with the
///   penalty, or the trader's collateral with what is left, does not fit.
pub open spec fn liquidation_settlement(
    settled: PerpsPosition,
    trade: TradeResult,
    size: int,
    user: PerpsUserAccount,
    market: PerpsMarket,
    insurance_vault: InsuranceVault,
    vault_amount: u64,
    price: i64,
    funding_delta: i128,
) -> Result<LiquidationOutcome, CustomError> {
    let full = size >= magnitude(settled.base_position_i64 as int);
    let closed_notional = notional_of(size, price as int);
    let fee = liquidation_charge(closed_notional, market.liquidation_fee_bps as int);
    let penalty = liquidation_charge(closed_notional, market.liquidation_penalty_bps as int);
    let with_pnl = settled.collateral_u64 + trade.pnl_delta;
    let remainder = with_pnl - fee - penalty;
    let debt = debt_of(remainder);
    let covered = remainder >= 0 || insurance_vault.balance_u64 >= debt;
    let bad_debt = if remainder >= 0 {
        0
    } else if covered {
        debt
    } else {
        insurance_vault.balance_u64 as int
    };
    let left = if remainder >= 0 {
        remainder
    } else {
        0
    };
    let paid_fee = vstd::math::min(fee, vault_amount as int);
    let paid_penalty = vstd::math::min(penalty, vault_amount - paid_fee);
    let insurance_balance = insurance_vault.balance_u64 - bad_debt + paid_penalty;
    let open_interest = if fits_i128(market.open_interest_i128 - closed_notional) {
        market.open_interest_i128 - closed_notional
    } else {
        0
    };
    if !fits_i128(closed_notional * market.liquidation_fee_bps) || !fits_i128(
        closed_notional * market.liquidation_penalty_bps,
    ) || !fits_i128(with_pnl - fee) || !fits_i128(remainder) || left > u64::MAX
        || insurance_balance > u64::MAX || (full && user.collateral_quote_u64 + left
        > u64::MAX) {
        Err(CustomError::CalculationOverflow)
    } else {
        Ok(
            LiquidationOutcome {
                position: if full {
                    closed_position(settled, trade.new_realized_pnl)
                } else {
                    PerpsPosition {
                        side: side_of(trade.new_base_position as int),
                        base_position_i64: trade.new_base_position,
                        entry_price_i64: trade.new_entry_price,
                        realized_pnl_i128: trade.new_realized_pnl,
                        collateral_u64: left as u64,
                        ..settled
                    }
                },
                user: if full {
                    PerpsUserAccount {
                        collateral_quote_u64: (user.collateral_quote_u64 + left) as u64,
                        positions_count_u8: one_position_fewer(user.positions_count_u8),
                        ..user
                    }
                } else {
                    user
                },
                market: PerpsMarket {
                    open_interest_i128: open_interest as i128,
                    emergency: market.emergency || !covered,
                    ..market
                },
                insurance_vault: InsuranceVault {
                    balance_u64: insurance_balance as u64,
                    ..insurance_vault
                },
                funding_delta,
                settled_collateral: settled.collateral_u64,
                size_closed: size as i64,
                liquidator_fee: paid_fee as u64,
                insurance_penalty: paid_penalty as u64,
                bad_debt: bad_debt as u64,
                emergency: !covered,
            },
        )
    }
}

/// What liquidating a position at `price` does.
///
/// After the checks of `liquidate_position_checks`, the funding of the
/// position is settled. The position must then be liquidatable at the
/// price; the size to close is sized by the margin deficit; a trade of that
/// size against the position is applied; and the result is settled as
/// `liquidation_settlement` says.
///
/// - The errors of the checks, of the settlement of funding and of the
///   trade.
/// - `CalculationOverflow` where the figures that decide on liquidation or
///   the size to close cannot be computed.
/// - `NotLiquidatable` where the position is not under-margined.
/// - The errors of `liquidation_settlement`.
pub open spec fn liquidate_position_outcome(
    global: PerpsGlobalState,
    user: PerpsUserAccount,
    market: PerpsMarket,
    position: PerpsPosition,
    insurance_vault: InsuranceVault,
    liquidator: Address,
    position_owner: Address,
    oracle_price_account: Address,
    vault_amount: u64,
    price: i64,
) -> Result<LiquidationOutcome, CustomError> {
    match liquidate_position_checks(
        global,
        market,
        position,
        liquidator,
        position_owner,
        oracle_price_account,
    ) {
        Err(e) => Err(e),
        Ok(_) => match settled_position(position, market.cumulative_funding_i128) {
            Err(e) => Err(e),
            Ok((settled, funding_delta)) => {
                let c = settled.collateral_u64 as int;
                let b = settled.base_position_i64 as int;
                let e = settled.entry_price_i64 as int;
                let bps = market.maintenance_margin_bps as int;
                let size = liquidation_close_size(c, b, e, price as int, bps);
                let delta = if b > 0 {
                    -size
                } else {
                    size
                };
                if !liquidation_is_computable(c, b, e, price as int, bps) {
                    Err(CustomError::CalculationOverflow)
                } else if !liquidatable_at(c, b, e, price as int, bps) {
                    Err(CustomError::NotLiquidatable)
                } else if !close_size_is_computable(c, b, e, price as int, bps) {
                    Err(CustomError::CalculationOverflow)
                } else {
                    match trade_outcome(settled.engine_state(), delta as i64, price) {
                        Err(e) => Err(e),
                        Ok(trade) => liquidation_settlement(
                            settled,
                            trade,
                            size,
                            user,
                            market,
                            insurance_vault,
                            vault_amount,
                            price,
                            funding_delta,
                        ),
                    }
                }
            },
        },
    }
}

/// A charge on a closed notional value: see `liquidation_charge`. Fails
/// with `CalculationOverflow` exactly where the notional value times the
/// rate is not an `i128`.
fn charge_on_closed_notional(closed_notional: i128, bps: u16) -> (r: Result<u64, CustomError>)
    requires
        closed_notional >= 0,
    ensures
        r == if fits_i128(closed_notional * bps) {
            Ok::<u64, CustomError>(liquidation_charge(closed_notional as int, bps as int) as u64)
        } else {
            Err(CustomError::CalculationOverflow)
        },
{
    let scaled: i128 = match closed_notional.checked_mul(bps as i128) {
        Some(v) => v,
        None => { return Err(CustomError::CalculationOverflow); },
    };
    proof {
        assert(closed_notional * bps >= 0) by (nonlinear_arith)
            requires
                closed_notional >= 0,
                bps >= 0,
        ;
        vstd::arithmetic::div_mod::lemma_div_pos_is_pos(scaled as int, BPS_DENOMINATOR as int);
        vstd::arithmetic::div_mod::lemma_div_pos_is_pos(
            scaled as int / (BPS_DENOMINATOR as int),
            PRICE_SCALE as int,
        );
        vstd::arithmetic::div_mod::lemma_div_nonincreasing(scaled as int, BPS_DENOMINATOR as int);
        vstd::arithmetic::div_mod::lemma_div_nonincreasing(
            scaled as int / (BPS_DENOMINATOR as int),
            PRICE_SCALE as int,
        );
    }
    let charge: i128 = scaled / BPS_DENOMINATOR / PRICE_SCALE;
    if charge > u64::MAX as i128 {
        Ok(0)
    } else {
        Ok(charge as u64)
    }
}

/// Liquidates a position at the oracle's `price`, the market's collateral
/// vault holding `vault_amount`: see `liquidate_position_outcome`.
pub fn liquidate_position(
    global: &PerpsGlobalState,
    user: &PerpsUserAccount,
    market: &PerpsMarket,
    position: &PerpsPosition,
    insurance_vault: &InsuranceVault,
    liquidator: Address,
    position_owner: Address,
    oracle_price_account: Address,
    vault_amount: u64,
    price: i64,
) -> (r: Result<LiquidationOutcome, CustomError>)
    ensures
        r == liquidate_position_outcome(
            *global,
            *user,
            *market,
            *position,
            *insurance_vault,
            liquidator,
            position_owner,
            oracle_price_account,
            vault_amount,
            price,
        ),
{
    match check_liquidate_position(
        global,
        market,
        position,
        liquidator,
        position_owner,
        oracle_price_account,
    ) {
        Err(e) => { return Err(e); },
        Ok(_) => {},
    }
    let (settled, funding_delta) = match settle_position_funding(position, market) {
        Err(e) => { return Err(e); },
        Ok(v) => v,
    };
    let liquidatable: bool = match is_liquidatable(
        settled.collateral_u64,
        settled.base_position_i64,
        settled.entry_price_i64,
        price,
        market.maintenance_margin_bps,
    ) {
        Err(e) => { return Err(e); },
        Ok(v) => v,
    };
    if !liquidatable {
        return Err(CustomError::NotLiquidatable);
    }
    let close_size_abs: i64 = match compute_liquidation_close_size(
        settled.collateral_u64,
        settled.base_position_i64,
        settled.entry_price_i64,
        price,
        market.maintenance_margin_bps,
    ) {
        Err(e) => { return Err(e); },
        Ok(v) => v,
    };
    let abs_base: i64 = if settled.base_position_i64 < 0 {
        -settled.base_position_i64
    } else {
        settled.base_position_i64
    };
    let actual_close: i64 = if close_size_abs <= abs_base {
        close_size_abs
    } else {
        abs_base
    };
    let is_full_close: bool = actual_close >= abs_base;
    let close_delta: i64 = if settled.base_position_i64 > 0 {
        -actual_close
    } else {
        actual_close
    };
    let current_state = settled.to_engine_state();
    let result = match apply_trade_to_position(&current_state, close_delta, price) {
        Err(e) => { return Err(e); },
        Ok(v) => v,
    };
    proof {
        lemma_trade_pnl_bounds(current_state, close_delta as int, price);
    }
    settle_liquidation(
        &settled,
        &result,
        actual_close,
        user,
        market,
        insurance_vault,
        vault_amount,
        price,
        funding_delta,
    )
}

/// Settles a liquidation that closed `actual_close` of the position
/// `settled` by the trade `result`: see `liquidation_settlement`.
fn settle_liquidation(
    settled: &PerpsPosition,
    result: &TradeResult,
    actual_close: i64,
    user: &PerpsUserAccount,
    market: &PerpsMarket,
    insurance_vault: &InsuranceVault,
    vault_amount: u64,
    price: i64,
    funding_delta: i128,
) -> (r: Result<LiquidationOutcome, CustomError>)
    requires
        settled.base_position_i64 != i64::MIN,
        0 <= actual_close <= magnitude(settled.base_position_i64 as int),
        -0x7FFF_FFFF_FFFF_FFFE_8000_0000_0000_0001 <= result.pnl_delta
            <= 0x7FFF_FFFF_FFFF_FFFE_8000_0000_0000_0001,
    ensures
        r == liquidation_settlement(
            *settled,
            *result,
            actual_close as int,
            *user,
            *market,
            *insurance_vault,
            vault_amount,
            price,
            funding_delta,
        ),
{
    let abs_base: i64 = if settled.base_position_i64 < 0 {
        -settled.base_position_i64
    } else {
        settled.base_position_i64
    };
    let is_full_close: bool = actual_close >= abs_base;
    let closed_notional: i128 = match notional_value(actual_close, price) {
        Err(e) => { return Err(e); },
        Ok(v) => v,
    };
    proof {
        lemma_valuation_bounds(actual_close, 0, price);
    }
    let liq_fee: u64 = match charge_on_closed_notional(closed_notional, market.liquidation_fee_bps) {
        Err(e) => { return Err(e); },
        Ok(v) => v,
    };
    let insurance_penalty: u64 = match charge_on_closed_notional(
        closed_notional,
        market.liquidation_penalty_bps,
    ) {
        Err(e) => { return Err(e); },
        Ok(v) => v,
    };
    let with_pnl: i128 = (settled.collateral_u64 as i128) + result.pnl_delta;
    let after_fee: i128 = match with_pnl.checked_sub(liq_fee as i128) {
        Some(v) => v,
        None => { return Err(CustomError::CalculationOverflow); },
    };
    let mut remaining: i128 = match after_fee.checked_sub(insurance_penalty as i128) {
        Some(v) => v,
        None => { return Err(CustomError::CalculationOverflow); },
    };
    let mut bad_debt: u64 = 0;
    let mut emergency: bool = false;
    let mut insurance_balance: u64 = insurance_vault.balance_u64;
    if remaining < 0 {
        bad_debt = if remaining < -(u64::MAX as i128) {
            u64::MAX
        } else {
            (-remaining) as u64
        };
        if insurance_balance >= bad_debt {
            insurance_balance = insurance_balance - bad_debt;
        } else {
            bad_debt = insurance_balance;
            insurance_balance = 0;
            emergency = true;
        }
        remaining = 0;
    }
    if remaining > u64::MAX as i128 {
        return Err(CustomError::CalculationOverflow);
    }
    let remaining_collateral: u64 = remaining as u64;
    let actual_liq_fee: u64 = if liq_fee <= vault_amount {
        liq_fee
    } else {
        vault_amount
    };
    let vault_left: u64 = vault_amount - actual_liq_fee;
    let actual_penalty: u64 = if insurance_penalty <= vault_left {
        insurance_penalty
    } else {
        vault_left
    };
    if actual_penalty > 0 {
        insurance_balance = match insurance_balance.checked_add(actual_penalty) {
            Some(v) => v,
            None => { return Err(CustomError::CalculationOverflow); },
        };
    }
    let open_interest: i128 = match market.open_interest_i128.checked_sub(closed_notional) {
        Some(v) => v,
        None => 0,
    };
    let new_position: PerpsPosition = if is_full_close {
        PerpsPosition {
            side: 0,
            base_position_i64: 0,
            entry_price_i64: 0,
            collateral_u64: 0,
            leverage_u16: 0,
            last_funding_i128: 0,
            realized_pnl_i128: result.new_realized_pnl,
            ..*settled
        }
    } else {
        PerpsPosition {
            side: if result.new_base_position >= 0 {
                0
            } else {
                1
            },
            base_position_i64: result.new_base_position,
            entry_price_i64: result.new_entry_price,
            realized_pnl_i128: result.new_realized_pnl,
            collateral_u64: remaining_collateral,
            ..*settled
        }
    };
    let new_user: PerpsUserAccount = if is_full_close {
        let free_collateral: u64 = if remaining_collateral > 0 {
            match user.collateral_quote_u64.checked_add(remaining_collateral) {
                Some(v) => v,
                None => { return Err(CustomError::CalculationOverflow); },
            }
        } else {
            user.collateral_quote_u64
        };
        PerpsUserAccount {
            collateral_quote_u64: free_collateral,
            positions_count_u8: user.positions_count_u8.saturating_sub(1),
            ..*user
        }
    } else {
        *user
    };
    Ok(
        LiquidationOutcome {
            position: new_position,
            user: new_user,
            market: PerpsMarket {
                open_interest_i128: open_interest,
                emergency: market.emergency || emergency,
                ..*market
            },
            insurance_vault: InsuranceVault { balance_u64: insurance_balance, ..*insurance_vault },
            funding_delta,
            settled_collateral: settled.collateral_u64,
            size_closed: actual_close,
            liquidator_fee: actual_liq_fee,
            insurance_penalty: actual_penalty,
            bad_debt,
            emergency,
        },
    )
}

} // verus!
