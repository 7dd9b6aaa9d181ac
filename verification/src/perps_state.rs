use vstd::prelude::*;
use crate::pool_state::Address;
use crate::position::PositionState;

verus! {

/// The kinds of order a trader can place.
#[derive(Debug, Clone, Copy, PartialEq, Eq, Structural)]
pub enum OrderType {
    Market,
    Limit,
}

/// The direction of a trade.
#[derive(Debug, Clone, Copy, PartialEq, Eq, Structural)]
pub enum PositionSide {
    Long,
    Short,
}

/// The state shared by all perpetual markets.
#[derive(Debug, Clone, Copy, PartialEq, Eq, Structural)]
pub struct PerpsGlobalState {
    pub authority: Address,
    pub paused: bool,
    pub fee_bps: u16,
    pub bump: u8,
}

/// A perpetual market: its limits, its funding state and its open interest.
#[derive(Debug, Clone, Copy, PartialEq, Eq, Structural)]
pub struct PerpsMarket {
    pub base_mint: Address,
    pub quote_mint: Address,
    pub pyth_feed_id: Address,
    pub oracle_price_account: Address,
    pub max_leverage: u16,
    pub maintenance_margin_bps: u16,
    pub funding_rate_i64: i64,
    pub open_interest_i128: i128,
    /// The cumulative funding per unit of size. Longs pay as it rises.
    pub cumulative_funding_i128: i128,
    pub last_funding_ts: i64,
    /// The largest funding rate of one interval, scaled by `PRICE_SCALE`.
    pub max_funding_rate_i64: i64,
    /// The least number of seconds between two funding updates.
    pub funding_interval_secs: i64,
    pub collateral_vault: Address,
    pub bump: u8,
    /// The part of the closed notional that a liquidator earns.
    pub liquidation_fee_bps: u16,
    /// The part of the closed notional that goes to the insurance fund.
    pub liquidation_penalty_bps: u16,
    /// Set once the insurance fund could not cover a bad debt.
    pub emergency: bool,
}

/// A price that the administrator publishes for a market.
#[derive(Debug, Clone, Copy, PartialEq, Eq, Structural)]
pub struct PerpsOraclePrice {
    pub admin: Address,
    pub price_i64: i64,
    pub last_update_ts: i64,
    pub bump: u8,
}

/// A trader's account: the collateral not locked in positions, and the
/// number of open positions.
#[derive(Debug, Clone, Copy, PartialEq, Eq, Structural)]
pub struct PerpsUserAccount {
    pub owner: Address,
    pub collateral_quote_u64: u64,
    pub positions_count_u8: u8,
    pub bump: u8,
}

/// A trader's position in one market.
///
/// `side` is 0 for a long or a flat position and 1 for a short; it follows
/// the sign of `base_position_i64`.
#[derive(Debug, Clone, Copy, PartialEq, Eq, Structural)]
pub struct PerpsPosition {
    pub owner: Address,
    pub market: Address,
    pub side: u8,
    pub base_position_i64: i64,
    pub entry_price_i64: i64,
    pub collateral_u64: u64,
    pub leverage_u16: u16,
    pub last_funding_i128: i128,
    pub bump: u8,
    pub realized_pnl_i128: i128,
}

/// The insurance fund of a market, which covers the bad debt of
/// liquidations.
#[derive(Debug, Clone, Copy, PartialEq, Eq, Structural)]
pub struct InsuranceVault {
    pub market: Address,
    pub vault_ata: Address,
    pub balance_u64: u64,
    pub bump: u8,
}

/// The side that a signed size stands for: 0 for zero and above, 1 below.
pub open spec fn side_of(base_position: int) -> u8 {
    if base_position >= 0 {
        0
    } else {
        1
    }
}

impl PerpsPosition {
    /// What the position engine reads of the position.
    pub open spec fn engine_state(&self) -> PositionState {
        PositionState {
            base_position: self.base_position_i64,
            entry_price: self.entry_price_i64,
            realized_pnl: self.realized_pnl_i128,
            last_cum_funding: self.last_funding_i128,
        }
    }

    /// Whether the position is flat.
    pub fn is_empty(&self) -> (b: bool)
        ensures
            b == (self.base_position_i64 == 0),
    {
        self.base_position_i64 == 0
    }

    /// The side that the size stands for.
    pub fn derived_side(&self) -> (side: u8)
        ensures
            side == side_of(self.base_position_i64 as int),
    {
        if self.base_position_i64 >= 0 {
            0
        } else {
            1
        }
    }

    /// What the position engine reads of the position.
    pub fn to_engine_state(&self) -> (state: PositionState)
        ensures
            state == self.engine_state(),
    {
        PositionState {
            base_position: self.base_position_i64,
            entry_price: self.entry_price_i64,
            realized_pnl: self.realized_pnl_i128,
            last_cum_funding: self.last_funding_i128,
        }
    }
}

} // verus!
