use vstd::prelude::*;
use crate::amm::POOL_PRICE_SCALE;
use crate::math::{as_unsigned_64, lemma_i64_as_u64, lemma_low_64_of_u128, low_64};

verus! {

/// A 32-byte account address, held as two 128-bit halves: `high` is the
/// first sixteen bytes read as a big-endian number, `low` the last sixteen.
/// Addresses are ordered as their bytes are, first byte first.
#[derive(Debug, Clone, Copy, PartialEq, Eq, Structural)]
pub struct Address {
    pub high: u128,
    pub low: u128,
}

impl Address {
    /// Whether `self` comes before `other` in the order of addresses.
    pub open spec fn precedes(self, other: Address) -> bool {
        self.high < other.high || (self.high == other.high && self.low < other.low)
    }

    /// The address of all zero bytes, which no account has.
    pub fn default_address() -> (a: Address)
        ensures
            a == (Address { high: 0, low: 0 }),
    {
        Address { high: 0, low: 0 }
    }

    /// Whether this is the address of all zero bytes.
    pub fn is_default(&self) -> (b: bool)
        ensures
            b == (*self == Address { high: 0, low: 0 }),
    {
        self.high == 0 && self.low == 0
    }

    /// Whether `self` comes before `other` in the order of addresses.
    pub fn is_before(&self, other: &Address) -> (b: bool)
        ensures
            b == self.precedes(*other),
    {
        self.high < other.high || (self.high == other.high && self.low < other.low)
    }
}

/// Where a limit order stands.
#[derive(Debug, Clone, Copy, PartialEq, Eq, Structural)]
pub enum OrderStatus {
    Pending,
    Executed,
    Cancelled,
    Expired,
}

impl OrderStatus {
    /// Only a pending order can be executed.
    pub fn is_executable(&self) -> (b: bool)
        ensures
            b == (*self == OrderStatus::Pending),
    {
        match self {
            OrderStatus::Pending => true,
            _ => false,
        }
    }

    /// Only a pending order can be cancelled.
    pub fn is_cancellable(&self) -> (b: bool)
        ensures
            b == (*self == OrderStatus::Pending),
    {
        match self {
            OrderStatus::Pending => true,
            _ => false,
        }
    }

    /// Every status but pending is final.
    pub fn is_final(&self) -> (b: bool)
        ensures
            b == (*self != OrderStatus::Pending),
    {
        match self {
            OrderStatus::Pending => false,
            _ => true,
        }
    }
}

/// An order to sell `sell_amount` of `sell_token` for `buy_token` once the
/// pool price reaches `target_price`.
#[derive(Debug, Clone, Copy, PartialEq, Eq, Structural)]
pub struct LimitOrder {
    pub owner: Address,
    pub pool: Address,
    pub sell_token: Address,
    pub buy_token: Address,
    pub sell_amount: u64,
    pub target_price: u64,
    pub minimum_receive: u64,
    pub created_at: i64,
    pub expires_at: i64,
    pub status: OrderStatus,
    pub bump: u8,
    pub order_id: u64,
}

impl LimitOrder {
    /// An order has expired from its expiry time on.
    pub fn is_expired(&self, current_timestamp: i64) -> (b: bool)
        ensures
            b == (current_timestamp >= self.expires_at),
    {
        current_timestamp >= self.expires_at
    }

    /// An order can execute while it is pending and has not expired.
    pub fn can_execute(&self, current_timestamp: i64) -> (b: bool)
        ensures
            b == (self.status == OrderStatus::Pending && current_timestamp < self.expires_at),
    {
        self.status.is_executable() && !self.is_expired(current_timestamp)
    }

    /// The seconds left until the order expires; zero once it has.
    pub fn time_until_expiry(&self, current_timestamp: i64) -> (seconds: u64)
        ensures
            seconds == if current_timestamp >= self.expires_at {
                0
            } else {
                self.expires_at - current_timestamp
            },
    {
        if current_timestamp >= self.expires_at {
            0
        } else {
            ((self.expires_at as i128) - (current_timestamp as i128)) as u64
        }
    }

    /// Whether the order sells the pool's first token.
    pub fn is_sell_order(&self, token_a_mint: &Address) -> (b: bool)
        ensures
            b == (self.sell_token == *token_a_mint),
    {
        self.sell_token == *token_a_mint
    }

    /// The price the order asks for.
    pub fn get_asking_price(&self) -> (price: u64)
        ensures
            price == self.target_price,
    {
        self.target_price
    }
}

/// A pool of two tokens that trades them by the constant-product rule.
#[derive(Debug, Clone, Copy, PartialEq, Eq, Structural)]
pub struct LiquidityPool {
    pub authority: Address,
    pub token_a_mint: Address,
    pub token_b_mint: Address,
    pub token_a_vault: Address,
    pub token_b_vault: Address,
    pub lp_token_mint: Address,
    pub reserve_a: u64,
    pub reserve_b: u64,
    pub total_lp_supply: u64,
    pub fee_numerator: u64,
    pub fee_denominator: u64,
    pub token_a_decimals: u8,
    pub token_b_decimals: u8,
    pub is_stablecoin_pool: bool,
    pub created_at: i64,
    pub total_volume_a: u64,
    pub total_volume_b: u64,
    pub locked_liquidity: u64,
    pub bump: u8,
}

/// The price of a token with reserve `base` in units of the token with
/// reserve `quote`, scaled by `POOL_PRICE_SCALE` and rounded down, the low
/// 64 bits of it; zero for a reserve of zero.
pub open spec fn reserve_price(base: int, quote: int) -> int {
    if base == 0 {
        0
    } else {
        low_64((quote * POOL_PRICE_SCALE) / base)
    }
}

/// `quote * POOL_PRICE_SCALE / base`, stored in 64 bits; zero for a base of
/// zero.
fn scaled_price(base: u64, quote: u64) -> (price: u64)
    ensures
        price == reserve_price(base as int, quote as int),
{
    if base == 0 {
        return 0;
    }
    let numerator: u128 = (quote as u128) * POOL_PRICE_SCALE;
    let price: u128 = numerator / (base as u128);
    proof {
        lemma_low_64_of_u128(price);
    }
    #[verifier::truncate]
    (price as u64)
}

impl LiquidityPool {
    /// Whether the pool trades two stablecoins.
    pub fn is_stable_pair(&self) -> (b: bool)
        ensures
            b == self.is_stablecoin_pool,
    {
        self.is_stablecoin_pool
    }

    /// The price of the first token in units of the second: see
    /// `reserve_price`.
    pub fn get_price_a_to_b(&self) -> (price: u64)
        ensures
            price == reserve_price(self.reserve_a as int, self.reserve_b as int),
    {
        scaled_price(self.reserve_a, self.reserve_b)
    }

    /// The price of the second token in units of the first: see
    /// `reserve_price`.
    pub fn get_price_b_to_a(&self) -> (price: u64)
        ensures
            price == reserve_price(self.reserve_b as int, self.reserve_a as int),
    {
        scaled_price(self.reserve_b, self.reserve_a)
    }

    /// The product of the reserves, which a swap without fee keeps.
    pub fn get_constant_product(&self) -> (k: u128)
        ensures
            k == self.reserve_a * self.reserve_b,
    {
        proof {
            assert(0 <= self.reserve_a * self.reserve_b <= 0xFFFF_FFFF_FFFF_FFFF
                * 0xFFFF_FFFF_FFFF_FFFF) by (nonlinear_arith);
        }
        (self.reserve_a as u128) * (self.reserve_b as u128)
    }
}

/// The configuration of the reward token.
#[derive(Debug, Clone, Copy, PartialEq, Eq, Structural)]
pub struct RushConfig {
    pub mint: Address,
    pub authority: Address,
    pub total_supply: u64,
    pub minted_so_far: u64,
    pub rewards_per_second: u64,
    pub apy_numerator: u64,
    pub apy_denominator: u64,
    pub start_timestamp: i64,
    pub is_paused: bool,
    pub bump: u8,
}

/// The seconds of a year of 365 days.
pub const SECONDS_PER_YEAR: u64 = 31_536_000;

impl RushConfig {
    /// What is left of the supply to mint.
    pub open spec fn remaining(&self) -> int {
        if self.minted_so_far >= self.total_supply {
            0
        } else {
            self.total_supply - self.minted_so_far
        }
    }

    /// What a holder of `user_lp_tokens` of `total_lp_supply` earns in
    /// `time_elapsed` seconds: that share of the rewards of the period,
    /// rounded down, but no more than is left to mint. Nothing while the
    /// rewards are paused.
    pub open spec fn rewards_for(
        &self,
        time_elapsed: int,
        user_lp_tokens: int,
        total_lp_supply: int,
    ) -> int {
        if total_lp_supply == 0 || user_lp_tokens == 0 || self.is_paused {
            0
        } else {
            vstd::math::min(
                (self.rewards_per_second * time_elapsed * user_lp_tokens) / total_lp_supply,
                self.remaining(),
            )
        }
    }

    /// The rewards of a year: the supply times the yield.
    pub fn yearly_rewards(&self) -> (rewards: u64)
        requires
            self.apy_denominator != 0,
            self.total_supply * self.apy_numerator <= u64::MAX,
        ensures
            rewards == (self.total_supply * self.apy_numerator) / (self.apy_denominator as int),
    {
        (self.total_supply * self.apy_numerator) / self.apy_denominator
    }

    /// What is left of the supply to mint.
    pub fn remaining_rewards(&self) -> (left: u64)
        ensures
            left == self.remaining(),
    {
        self.total_supply.saturating_sub(self.minted_so_far)
    }

    /// Whether anything is left to mint.
    pub fn has_remaining_rewards(&self) -> (b: bool)
        ensures
            b == (self.remaining() > 0),
    {
        self.remaining_rewards() > 0
    }

    /// Rewards are active while they are not paused and something is left.
    pub fn is_active(&self) -> (b: bool)
        ensures
            b == (!self.is_paused && self.remaining() > 0),
    {
        !self.is_paused && self.has_remaining_rewards()
    }

    /// What a liquidity position earns in a period: see `rewards_for`.
    pub fn calculate_rewards(&self, time_elapsed: u64, user_lp_tokens: u64, total_lp_supply: u64) -> (rewards:
        u64)
        requires
            total_lp_supply != 0 && !self.is_paused ==> self.rewards_per_second * time_elapsed
                * user_lp_tokens <= u128::MAX,
        ensures
            rewards == self.rewards_for(
                time_elapsed as int,
                user_lp_tokens as int,
                total_lp_supply as int,
            ),
    {
        if total_lp_supply == 0 || user_lp_tokens == 0 || self.is_paused {
            return 0;
        }
        proof {
            assert(0 <= self.rewards_per_second * time_elapsed <= 0xFFFF_FFFF_FFFF_FFFF
                * 0xFFFF_FFFF_FFFF_FFFF) by (nonlinear_arith);
        }
        let base_rewards: u128 = (self.rewards_per_second as u128) * (time_elapsed as u128);
        let user_rewards: u128 = base_rewards * (user_lp_tokens as u128) / (total_lp_supply
            as u128);
        let remaining: u128 = self.remaining_rewards() as u128;
        let final_rewards: u128 = if user_rewards <= remaining {
            user_rewards
        } else {
            remaining
        };
        final_rewards as u64
    }
}

/// A user's share of a pool's liquidity.
#[derive(Debug, Clone, Copy, PartialEq, Eq, Structural)]
pub struct UserLiquidityPosition {
    pub owner: Address,
    pub pool: Address,
    pub lp_tokens: u64,
    pub deposit_timestamp: i64,
    pub last_claim_timestamp: i64,
    pub total_rush_claimed: u64,
    pub bump: u8,
}

/// The seconds of a day.
pub const SECONDS_PER_DAY: u64 = 86_400;

impl UserLiquidityPosition {
    /// The position's share of `total_lp_supply` in millionths, rounded
    /// down, the low 64 bits of it; zero for a supply of zero.
    pub fn get_pool_share(&self, total_lp_supply: u64) -> (share: u64)
        ensures
            share == reserve_price(total_lp_supply as int, self.lp_tokens as int),
    {
        scaled_price(total_lp_supply, self.lp_tokens)
    }

    /// The seconds since the last claim.
    pub fn get_time_since_last_claim(&self, current_timestamp: i64) -> (seconds: i64)
        requires
            i64::MIN <= current_timestamp - self.last_claim_timestamp <= i64::MAX,
        ensures
            seconds == current_timestamp - self.last_claim_timestamp,
    {
        current_timestamp - self.last_claim_timestamp
    }

    /// Whether the position holds liquidity tokens.
    pub fn has_liquidity(&self) -> (b: bool)
        ensures
            b == (self.lp_tokens > 0),
    {
        self.lp_tokens > 0
    }

    /// The whole days since the deposit. The seconds since the deposit are
    /// read as unsigned: a time before the deposit counts as a very long
    /// time after it.
    pub fn get_position_age_days(&self, current_timestamp: i64) -> (days: u64)
        requires
            i64::MIN <= current_timestamp - self.deposit_timestamp <= i64::MAX,
        ensures
            days == as_unsigned_64(current_timestamp - self.deposit_timestamp) / (SECONDS_PER_DAY
                as int),
    {
        let elapsed: i64 = current_timestamp - self.deposit_timestamp;
        proof {
            lemma_i64_as_u64(elapsed);
        }
        let seconds_elapsed: u64 =
            #[verifier::truncate]
            (elapsed as u64);
        seconds_elapsed / SECONDS_PER_DAY
    }
}

/// Whether two mints can form a pool: they differ.
pub fn is_valid_pair(token_a_mint: &Address, token_b_mint: &Address) -> (b: bool)
    ensures
        b == (*token_a_mint != *token_b_mint),
{
    !(*token_a_mint == *token_b_mint)
}

/// The two mints in the order of addresses: the one that comes first, then
/// the other. Of two equal mints, the second is given first.
pub fn get_canonical_pair(mint_a: Address, mint_b: Address) -> (pair: (Address, Address))
    ensures
        pair == if mint_a.precedes(mint_b) {
            (mint_a, mint_b)
        } else {
            (mint_b, mint_a)
        },
{
    if mint_a.is_before(&mint_b) {
        (mint_a, mint_b)
    } else {
        (mint_b, mint_a)
    }
}

} // verus!
