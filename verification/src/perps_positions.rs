use vstd::prelude::*;
use crate::errors::CustomError;
use crate::funding::{funding_outcome, settle_funding_inner};
use crate::math::fits_i128;
use crate::perps_state::{
    side_of,
    OrderType,
    PerpsGlobalState,
    PerpsMarket,
    PerpsPosition,
    PerpsUserAccount,
    PositionSide,
};
use crate::pool_state::Address;
use crate::position::{apply_trade_to_position, lemma_trade_pnl_bounds, trade_outcome};
use crate::valuation::{
    initial_margin_of,
    lemma_valuation_bounds,
    notional_of,
    notional_value,
    required_margin_scaled,
};

verus! {

/// The position with the funding accrued since its checkpoint settled
/// against its collateral, and the funding settled.
pub open spec fn settled_position(position: PerpsPosition, market_cum_funding: i128) -> Result<
    (PerpsPosition, i128),
    CustomError,
> {
    match funding_outcome(
        position.base_position_i64,
        position.collateral_u64,
        position.last_funding_i128,
        market_cum_funding,
    ) {
        Err(e) => Err(e),
        Ok((new_collateral, new_checkpoint, funding_delta)) => Ok(
            (
                PerpsPosition {
                    collateral_u64: new_collateral,
                    last_funding_i128: new_checkpoint,
                    ..position
                },
                funding_delta,
            ),
        ),
    }
}

/// Settles the funding of a position against the market's cumulative
/// funding: see `settled_position`. Every operation on a position starts
/// with this.
pub fn settle_position_funding(position: &PerpsPosition, market: &PerpsMarket) -> (r: Result<
    (PerpsPosition, i128),
    CustomError,
>)
    ensures
        r == settled_position(*position, market.cumulative_funding_i128),
{
    match settle_funding_inner(
        position.base_position_i64,
        position.collateral_u64,
        position.last_funding_i128,
        market.cumulative_funding_i128,
    ) {
        Err(e) => Err(e),
        Ok((new_collateral, new_checkpoint, funding_delta)) => Ok(
            (
                PerpsPosition {
                    collateral_u64: new_collateral,
                    last_funding_i128: new_checkpoint,
                    ..*position
                },
                funding_delta,
            ),
        ),
    }
}

/// The number of open positions after one more is closed: it stops at zero.
pub open spec fn one_position_fewer(count: u8) -> u8 {
    if count == 0 {
        0
    } else {
        (count - 1) as u8
    }
}

/// The signed size of a trade of `size` on `side`.
pub open spec fn signed_size(side: PositionSide, size: i64) -> int {
    match side {
        PositionSide::Long => size as int,
        PositionSide::Short => -size,
    }
}

/// What an order changes: the position, the trader's account and the
/// market, and the funding that was settled first (`funding_delta`, which
/// left the position `settled_collateral`).
#[derive(Debug, Clone, Copy, PartialEq, Eq, Structural)]
pub struct OpenPositionOutcome {
    pub position: PerpsPosition,
    pub user: PerpsUserAccount,
    pub market: PerpsMarket,
    pub funding_delta: i128,
    pub settled_collateral: u64,
}

/// What is checked of an order before a price is read.
///
/// - `PerpsPaused` where trading is paused.
/// - `OrderTypeNotSupported` for any order but a market order.
/// - `InvalidAmount` where the size is not positive.
/// - `InvalidLeverage` where the leverage is zero or above the market's
///   limit.
/// - `OraclePriceUnavailable` where the price account is not the market's.
pub open spec fn open_position_checks(
    global: PerpsGlobalState,
    market: PerpsMarket,
    oracle_price_account: Address,
    size_i64: i64,
    leverage_u16: u16,
    order_type: OrderType,
) -> Result<(), CustomError> {
    if global.paused {
        Err(CustomError::PerpsPaused)
    } else if order_type != OrderType::Market {
        Err(CustomError::OrderTypeNotSupported)
    } else if size_i64 <= 0 {
        Err(CustomError::InvalidAmount)
    } else if leverage_u16 == 0 || leverage_u16 > market.max_leverage {
        Err(CustomError::InvalidLeverage)
    } else if oracle_price_account != market.oracle_price_account {
        Err(CustomError::OraclePriceUnavailable)
    } else {
        Ok(())
    }
}

/// Checks an order before a price is read: see `open_position_checks`.
pub fn check_open_position(
    global: &PerpsGlobalState,
    market: &PerpsMarket,
    oracle_price_account: Address,
    size_i64: i64,
    leverage_u16: u16,
    order_type: OrderType,
) -> (r: Result<(), CustomError>)
    ensures
        r == open_position_checks(
            *global,
            *market,
            oracle_price_account,
            size_i64,
            leverage_u16,
            order_type,
        ),
{
    if global.paused {
        return Err(CustomError::PerpsPaused);
    }
    match order_type {
        OrderType::Market => {},
        OrderType::Limit => { return Err(CustomError::OrderTypeNotSupported); },
    }
    if size_i64 <= 0 {
        return Err(CustomError::InvalidAmount);
    }
    if leverage_u16 == 0 {
        return Err(CustomError::InvalidLeverage);
    }
    if leverage_u16 > market.max_leverage {
        return Err(CustomError::InvalidLeverage);
    }
    if !(oracle_price_account == market.oracle_price_account) {
        return Err(CustomError::OraclePriceUnavailable);
    }
    Ok(())
}

/// What an order of `size_i64` on `side` at `leverage_u16` does at `price`.
///
/// After the checks of `open_position_checks`, the funding of the position
/// is settled and the trade applied to it. The position then locks the
/// initial margin of its new notional value as collateral; what it lacks of
/// that is taken from the trader's free collateral, and a profit that the
/// trade realized is added to it. The open interest of the market moves by
/// the change of the notional value, and the count of the trader's open
/// positions follows the position from flat to open or from open to flat.
///
/// - The errors of the checks, of the settlement and of the trade.
/// - `CalculationOverflow` where the margin does not fit in `u64`.
/// - `InsufficientCollateral` where the trader's free collateral does not
///   cover what the position lacks.
/// - `CalculationOverflow` where the profit or the trader's collateral with
///   it does not fit in `u64`, the open interest leaves `i128`, or the
///   count of positions is full.
pub open spec fn open_position_outcome(
    global: PerpsGlobalState,
    user: PerpsUserAccount,
    market: PerpsMarket,
    position: PerpsPosition,
    owner: Address,
    market_address: Address,
    position_bump: u8,
    oracle_price_account: Address,
    side: PositionSide,
    size_i64: i64,
    leverage_u16: u16,
    order_type: OrderType,
    price: i64,
) -> Result<OpenPositionOutcome, CustomError> {
    match open_position_checks(
        global,
        market,
        oracle_price_account,
        size_i64,
        leverage_u16,
        order_type,
    ) {
        Err(e) => Err(e),
        Ok(_) => match settled_position(position, market.cumulative_funding_i128) {
            Err(e) => Err(e),
            Ok((settled, funding_delta)) => match trade_outcome(
                settled.engine_state(),
                signed_size(side, size_i64) as i64,
                price,
            ) {
                Err(e) => Err(e),
                Ok(trade) => {
                    let required = initial_margin_of(
                        notional_of(trade.new_base_position as int, price as int),
                        leverage_u16 as int,
                    );
                    let additional = if required > settled.collateral_u64 {
                        required - settled.collateral_u64
                    } else {
                        0
                    };
                    let credit = if trade.pnl_delta > 0 {
                        trade.pnl_delta as int
                    } else {
                        0
                    };
                    let open_interest = market.open_interest_i128 + notional_of(
                        trade.new_base_position as int,
                        price as int,
                    ) - notional_of(settled.base_position_i64 as int, price as int);
                    let opens = settled.base_position_i64 == 0 && trade.new_base_position != 0;
                    let closes = settled.base_position_i64 != 0 && trade.new_base_position == 0;
                    if required > u64::MAX {
                        Err(CustomError::CalculationOverflow)
                    } else if user.collateral_quote_u64 < additional {
                        Err(CustomError::InsufficientCollateral)
                    } else if user.collateral_quote_u64 - additional + credit > u64::MAX
                        || !fits_i128(open_interest) || (opens && user.positions_count_u8
                        == u8::MAX) {
                        Err(CustomError::CalculationOverflow)
                    } else {
                        Ok(
                            OpenPositionOutcome {
                                position: PerpsPosition {
                                    owner,
                                    market: market_address,
                                    side: side_of(trade.new_base_position as int),
                                    base_position_i64: trade.new_base_position,
                                    entry_price_i64: trade.new_entry_price,
                                    collateral_u64: required as u64,
                                    leverage_u16,
                                    last_funding_i128: market.cumulative_funding_i128,
                                    bump: position_bump,
                                    realized_pnl_i128: trade.new_realized_pnl,
                                },
                                user: PerpsUserAccount {
                                    collateral_quote_u64: (user.collateral_quote_u64 - additional
                                        + credit) as u64,
                                    positions_count_u8: if opens {
                                        (user.positions_count_u8 + 1) as u8
                                    } else if closes {
                                        one_position_fewer(user.positions_count_u8)
                                    } else {
                                        user.positions_count_u8
                                    },
                                    ..user
                                },
                                market: PerpsMarket {
                                    open_interest_i128: open_interest as i128,
                                    ..market
                                },
                                funding_delta,
                                settled_collateral: settled.collateral_u64,
                            },
                        )
                    }
                },
            },
        },
    }
}

/// Places a market order of `size_i64` on `side` at `leverage_u16`, filled
/// at the oracle's `price`: see `open_position_outcome`.
pub fn open_position(
    global: &PerpsGlobalState,
    user: &PerpsUserAccount,
    market: &PerpsMarket,
    position: &PerpsPosition,
    owner: Address,
    market_address: Address,
    position_bump: u8,
    oracle_price_account: Address,
    side: PositionSide,
    size_i64: i64,
    leverage_u16: u16,
    order_type: OrderType,
    price: i64,
) -> (r: Result<OpenPositionOutcome, CustomError>)
    ensures
        r == open_position_outcome(
            *global,
            *user,
            *market,
            *position,
            owner,
            market_address,
            position_bump,
            oracle_price_account,
            side,
            size_i64,
            leverage_u16,
            order_type,
            price,
        ),
{
    match check_open_position(
        global,
        market,
        oracle_price_account,
        size_i64,
        leverage_u16,
        order_type,
    ) {
        Err(e) => { return Err(e); },
        Ok(_) => {},
    }
    let (settled, funding_delta) = match settle_position_funding(position, market) {
        Err(e) => { return Err(e); },
        Ok(v) => v,
    };
    let trade_base_delta: i64 = match side {
        PositionSide::Long => size_i64,
        PositionSide::Short => -size_i64,
    };
    let current_state = settled.to_engine_state();
    let result = match apply_trade_to_position(&current_state, trade_base_delta, price) {
        Err(e) => { return Err(e); },
        Ok(v) => v,
    };
    let new_notional: i128 = match notional_value(result.new_base_position, price) {
        Err(e) => { return Err(e); },
        Ok(v) => v,
    };
    let required: i128 = match required_margin_scaled(new_notional, leverage_u16) {
        Err(e) => { return Err(e); },
        Ok(v) => v,
    };
    proof {
        crate::math::lemma_div_ceil_sign(new_notional as int, leverage_u16 as int);
        lemma_valuation_bounds(settled.base_position_i64, 0, price);
    }
    if required > u64::MAX as i128 {
        return Err(CustomError::CalculationOverflow);
    }
    let required_u64: u64 = required as u64;
    let additional_collateral: u64 = required_u64.saturating_sub(settled.collateral_u64);
    if user.collateral_quote_u64 < additional_collateral {
        return Err(CustomError::InsufficientCollateral);
    }
    let mut free_collateral: u64 = user.collateral_quote_u64 - additional_collateral;
    if result.pnl_delta > 0 {
        if result.pnl_delta > u64::MAX as i128 {
            return Err(CustomError::CalculationOverflow);
        }
        free_collateral = match free_collateral.checked_add(result.pnl_delta as u64) {
            Some(v) => v,
            None => { return Err(CustomError::CalculationOverflow); },
        };
    }
    let was_empty: bool = settled.base_position_i64 == 0;
    let old_notional: i128 = match notional_value(settled.base_position_i64, price) {
        Err(e) => { return Err(e); },
        Ok(v) => v,
    };
    let oi_delta: i128 = new_notional - old_notional;
    let open_interest: i128 = match market.open_interest_i128.checked_add(oi_delta) {
        Some(v) => v,
        None => { return Err(CustomError::CalculationOverflow); },
    };
    let mut positions_count: u8 = user.positions_count_u8;
    if was_empty && result.new_base_position != 0 {
        positions_count = match positions_count.checked_add(1) {
            Some(v) => v,
            None => { return Err(CustomError::CalculationOverflow); },
        };
    }
    if !was_empty && result.new_base_position == 0 {
        positions_count = positions_count.saturating_sub(1);
    }
    Ok(
        OpenPositionOutcome {
            position: PerpsPosition {
                owner,
                market: market_address,
                side: if result.new_base_position >= 0 {
                    0
                } else {
                    1
                },
                base_position_i64: result.new_base_position,
                entry_price_i64: result.new_entry_price,
                collateral_u64: required_u64,
                leverage_u16,
                last_funding_i128: market.cumulative_funding_i128,
                bump: position_bump,
                realized_pnl_i128: result.new_realized_pnl,
            },
            user: PerpsUserAccount {
                collateral_quote_u64: free_collateral,
                positions_count_u8: positions_count,
                ..*user
            },
            market: PerpsMarket { open_interest_i128: open_interest, ..*market },
            funding_delta,
            settled_collateral: settled.collateral_u64,
        },
    )
}

/// What closing a position changes: the position, the trader's account and
/// the market; the funding that was settled first; and what the close
/// realized and returned to the trader.
#[derive(Debug, Clone, Copy, PartialEq, Eq, Structural)]
pub struct ClosePositionOutcome {
    pub position: PerpsPosition,
    pub user: PerpsUserAccount,
    pub market: PerpsMarket,
    pub funding_delta: i128,
    pub settled_collateral: u64,
    pub pnl_delta: i128,
    pub collateral_return: u64,
}

/// What is checked of a close before a price is read.
///
/// - `PerpsPaused` where trading is paused.
/// - `NoOpenPosition` where the position is flat.
/// - `OraclePriceUnavailable` where the price account is not the market's.
pub open spec fn close_position_checks(
    global: PerpsGlobalState,
    market: PerpsMarket,
    position: PerpsPosition,
    oracle_price_account: Address,
) -> Result<(), CustomError> {
    if global.paused {
        Err(CustomError::PerpsPaused)
    } else if position.base_position_i64 == 0 {
        Err(CustomError::NoOpenPosition)
    } else if oracle_price_account != market.oracle_price_account {
        Err(CustomError::OraclePriceUnavailable)
    } else {
        Ok(())
    }
}

/// Checks a close before a price is read: see `close_position_checks`.
pub fn check_close_position(
    global: &PerpsGlobalState,
    market: &PerpsMarket,
    position: &PerpsPosition,
    oracle_price_account: Address,
) -> (r: Result<(), CustomError>)
    ensures
        r == close_position_checks(*global, *market, *position, oracle_price_account),
{
    if global.paused {
        return Err(CustomError::PerpsPaused);
    }
    if position.base_position_i64 == 0 {
        return Err(CustomError::NoOpenPosition);
    }
    if !(oracle_price_account == market.oracle_price_account) {
        return Err(CustomError::OraclePriceUnavailable);
    }
    Ok(())
}

/// A position closed in full: flat, with nothing locked, keeping only its
/// owner and the profit and loss it has realized.
pub open spec fn closed_position(position: PerpsPosition, realized_pnl: i128) -> PerpsPosition {
    PerpsPosition {
        side: 0,
        base_position_i64: 0,
        entry_price_i64: 0,
        collateral_u64: 0,
        leverage_u16: 0,
        last_funding_i128: 0,
        realized_pnl_i128: realized_pnl,
        ..position
    }
}

/// The collateral that a close returns: what the position held plus what
/// the close realized, but not less than nothing.
pub open spec fn collateral_returned(collateral: int, pnl_delta: int) -> int {
    if collateral + pnl_delta < 0 {
        0
    } else {
        collateral + pnl_delta
    }
}

/// What closing a position at `price` does.
///
/// After the checks of `close_position_checks`, the funding of the position
/// is settled and a trade of its whole size against it applied. The trader
/// gets back the collateral of the position with the profit or loss of the
/// close, the open interest of the market falls by the notional value of
/// the position, and the trader has one open position fewer.
///
/// - The errors of the checks, of the settlement and of the trade.
/// - `CalculationOverflow` where the size has no negation in `i64`, the
///   collateral returned or the trader's collateral with it does not fit in
///   `u64`, or the open interest leaves `i128`.
pub open spec fn close_position_outcome(
    global: PerpsGlobalState,
    user: PerpsUserAccount,
    market: PerpsMarket,
    position: PerpsPosition,
    oracle_price_account: Address,
    price: i64,
) -> Result<ClosePositionOutcome, CustomError> {
    match close_position_checks(global, market, position, oracle_price_account) {
        Err(e) => Err(e),
        Ok(_) => match settled_position(position, market.cumulative_funding_i128) {
            Err(e) => Err(e),
            Ok((settled, funding_delta)) => if settled.base_position_i64 == i64::MIN {
                Err(CustomError::CalculationOverflow)
            } else {
                match trade_outcome(
                    settled.engine_state(),
                    (-settled.base_position_i64) as i64,
                    price,
                ) {
                    Err(e) => Err(e),
                    Ok(trade) => {
                        let returned = collateral_returned(
                            settled.collateral_u64 as int,
                            trade.pnl_delta as int,
                        );
                        let open_interest = market.open_interest_i128 - notional_of(
                            settled.base_position_i64 as int,
                            price as int,
                        );
                        if returned > u64::MAX || user.collateral_quote_u64 + returned > u64::MAX
                            || !fits_i128(open_interest) {
                            Err(CustomError::CalculationOverflow)
                        } else {
                            Ok(
                                ClosePositionOutcome {
                                    position: closed_position(settled, trade.new_realized_pnl),
                                    user: PerpsUserAccount {
                                        collateral_quote_u64: (user.collateral_quote_u64
                                            + returned) as u64,
                                        positions_count_u8: one_position_fewer(
                                            user.positions_count_u8,
                                        ),
                                        ..user
                                    },
                                    market: PerpsMarket {
                                        open_interest_i128: open_interest as i128,
                                        ..market
                                    },
                                    funding_delta,
                                    settled_collateral: settled.collateral_u64,
                                    pnl_delta: trade.pnl_delta,
                                    collateral_return: returned as u64,
                                },
                            )
                        }
                    },
                }
            },
        },
    }
}

/// Closes a position in full at the oracle's `price`: see
/// `close_position_outcome`.
pub fn close_position(
    global: &PerpsGlobalState,
    user: &PerpsUserAccount,
    market: &PerpsMarket,
    position: &PerpsPosition,
    oracle_price_account: Address,
    price: i64,
) -> (r: Result<ClosePositionOutcome, CustomError>)
    ensures
        r == close_position_outcome(*global, *user, *market, *position, oracle_price_account, price),
{
    match check_close_position(global, market, position, oracle_price_account) {
        Err(e) => { return Err(e); },
        Ok(_) => {},
    }
    let (settled, funding_delta) = match settle_position_funding(position, market) {
        Err(e) => { return Err(e); },
        Ok(v) => v,
    };
    let current_state = settled.to_engine_state();
    if settled.base_position_i64 == i64::MIN {
        return Err(CustomError::CalculationOverflow);
    }
    let close_delta: i64 = -settled.base_position_i64;
    let result = match apply_trade_to_position(&current_state, close_delta, price) {
        Err(e) => { return Err(e); },
        Ok(v) => v,
    };
    proof {
        lemma_trade_pnl_bounds(current_state, close_delta as int, price);
        lemma_valuation_bounds(settled.base_position_i64, 0, price);
    }
    let mut collateral_wide: i128 = (settled.collateral_u64 as i128) + result.pnl_delta;
    if collateral_wide < 0 {
        collateral_wide = 0;
    }
    if collateral_wide > u64::MAX as i128 {
        return Err(CustomError::CalculationOverflow);
    }
    let collateral_return: u64 = collateral_wide as u64;
    let free_collateral: u64 = match user.collateral_quote_u64.checked_add(collateral_return) {
        Some(v) => v,
        None => { return Err(CustomError::CalculationOverflow); },
    };
    let old_notional: i128 = match notional_value(settled.base_position_i64, price) {
        Err(e) => { return Err(e); },
        Ok(v) => v,
    };
    let open_interest: i128 = match market.open_interest_i128.checked_sub(old_notional) {
        Some(v) => v,
        None => { return Err(CustomError::CalculationOverflow); },
    };
    Ok(
        ClosePositionOutcome {
            position: PerpsPosition {
                side: 0,
                base_position_i64: 0,
                entry_price_i64: 0,
                collateral_u64: 0,
                leverage_u16: 0,
                last_funding_i128: 0,
                realized_pnl_i128: result.new_realized_pnl,
                ..settled
            },
            user: PerpsUserAccount {
                collateral_quote_u64: free_collateral,
                positions_count_u8: user.positions_count_u8.saturating_sub(1),
                ..*user
            },
            market: PerpsMarket { open_interest_i128: open_interest, ..*market },
            funding_delta,
            settled_collateral: settled.collateral_u64,
            pnl_delta: result.pnl_delta,
            collateral_return,
        },
    )
}

} // verus!
