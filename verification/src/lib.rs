// The rules of a decentralised exchange as pure functions on plain values.
//
// At the core is a fixed-point risk engine for leveraged positions: an
// overflow-safe arithmetic kernel (`wide`, `fixed_point`) and, on top of it,
// trade application (`position`), margin figures (`valuation`), liquidation
// sizing (`liquidation`) and funding settlement (`funding`), with the laws
// that hold of them (`laws`).
//
// Around it stand the operations of the perpetual markets (`perps`,
// `perps_positions`, `perps_liquidation`, `oracle`) and of the spot pools
// (`amm`, `pool`, `swap`, `limit_orders`, `rewards`), each as a function
// from the state it reads to the state it leaves and what is to be paid.

pub mod errors;
pub mod math;
pub mod wide;
pub mod fixed_point;
pub mod position;
pub mod valuation;
pub mod liquidation;
pub mod funding;
pub mod laws;
pub mod amm;
pub mod pool_state;
pub mod pool;
pub mod swap;
pub mod limit_orders;
pub mod rewards;
pub mod perps_state;
pub mod oracle;
pub mod perps;
pub mod perps_positions;
pub mod perps_liquidation;

pub use crate::errors::CustomError;
pub use crate::fixed_point::{
    ceil_div, checked_add_signed, checked_sub_signed, floor_div, mul_div, signed_mul_div,
    signed_mul_div_ceil, signed_mul_div_floor, unsigned_abs_i128, wide_mul_div_u128,
    wide_mul_div_with_rem_u128, BASE_SCALE, PRICE_SCALE, QUOTE_SCALE,
};
pub use crate::funding::settle_funding_inner;
pub use crate::liquidation::{
    can_increase_position, compute_liquidation_close_size, is_liquidatable, is_liquidatable_check,
};
pub use crate::position::{apply_trade_to_position, PositionState, TradeResult};
pub use crate::valuation::{
    compute_equity, initial_margin, maintenance_margin, notional_value, position_equity,
    required_margin_scaled, unrealized_pnl, BPS_DENOMINATOR,
};
pub use crate::wide::{full_mul_u128, wide_div_u256};
