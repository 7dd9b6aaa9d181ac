use vstd::prelude::*;

verus! {

/// The failures the library reports. Every one is a deterministic function
/// of the inputs of the call that returned it.
#[derive(Debug, Clone, Copy, PartialEq, Eq, Structural)]
pub enum CustomError {
    /// Initial deposits must be greater than zero.
    InvalidInitialDeposit,
    /// The pool holds too little liquidity.
    InsufficientLiquidity,
    /// The fee parameters are invalid.
    InvalidFeeParameters,
    /// The pool's reserves do not cover the amount.
    InsufficientPoolReserves,
    /// An arithmetic step left the representable range, a quotient did not
    /// fit its result width, or a divisor was zero.
    CalculationOverflow,
    /// The ratio of a deposit is too far from the ratio of the pool.
    RatioImbalance,
    /// The balance of liquidity tokens does not cover the amount.
    InsufficientLPBalance,
    /// An amount must be greater than zero.
    InvalidAmount,
    /// The result is worse than the slippage limit allows.
    SlippageTooHigh,
    /// The pool is not empty.
    PoolNotEmpty,
    /// The user's token balance does not cover the amount.
    InsufficientBalance,
    /// The limit order was not found.
    OrderNotFound,
    /// The order's status does not allow the operation.
    InvalidOrderStatus,
    /// The limit order has expired.
    OrderExpired,
    /// Only the owner of an order can cancel it.
    UnauthorizedOrderOwner,
    /// The price condition of the order is not met.
    PriceConditionNotMet,
    /// The expiry time is invalid.
    InvalidExpiryTime,
    /// The signer is not the configured authority.
    InvalidAuthority,
    /// Rewards are paused.
    RewardsPaused,
    /// The yield configuration is invalid.
    InvalidAPY,
    /// The supply of the reward token is exhausted.
    SupplyExhausted,
    /// The deadline of the transaction has passed.
    DeadlineExceeded,
    /// The vault is not the pool's token vault.
    InvalidVault,
    /// The order does not belong to the pool.
    InvalidPool,
    /// The mint is not the pool's liquidity token mint.
    InvalidMint,
    /// Perpetual trading is paused.
    PerpsPaused,
    /// The signer is not the administrator.
    UnauthorizedAdmin,
    /// The leverage is zero or above the market's limit.
    InvalidLeverage,
    /// The collateral does not cover the requirement.
    InsufficientCollateral,
    /// The position is already open.
    PositionAlreadyOpen,
    /// There is no open position.
    NoOpenPosition,
    /// The order type is not supported.
    OrderTypeNotSupported,
    /// No usable oracle price.
    OraclePriceUnavailable,
    /// The maintenance margin would be violated.
    MaintenanceMarginViolation,
    /// The funding interval has not elapsed.
    FundingTooSoon,
    /// The funding parameters are invalid.
    InvalidFundingParams,
    /// The position is not liquidatable.
    NotLiquidatable,
    /// The insurance fund is depleted.
    InsuranceFundDepleted,
    /// The market is in emergency mode.
    MarketEmergency,
    /// A liquidator cannot liquidate their own position.
    SelfLiquidation,
    /// The close amount exceeds the position.
    CloseAmountExceedsPosition,
    /// The equity does not cover the initial margin of the increase.
    InsufficientMargin,
}

} // verus!
