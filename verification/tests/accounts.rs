use solrush_dex::perps_state::PerpsPosition;
use solrush_dex::pool_state::{
    get_canonical_pair, is_valid_pair, Address, LimitOrder, LiquidityPool, OrderStatus,
    RushConfig, UserLiquidityPosition, SECONDS_PER_DAY, SECONDS_PER_YEAR,
};

fn address(low: u128) -> Address {
    Address { high: 0, low }
}

fn order(status: OrderStatus, expires_at: i64) -> LimitOrder {
    LimitOrder {
        owner: address(1),
        pool: address(2),
        sell_token: address(3),
        buy_token: address(4),
        sell_amount: 500,
        target_price: 2_000_000,
        minimum_receive: 900,
        created_at: 10,
        expires_at,
        status,
        bump: 254,
        order_id: 7,
    }
}

fn pool(reserve_a: u64, reserve_b: u64) -> LiquidityPool {
    LiquidityPool {
        authority: address(1),
        token_a_mint: address(3),
        token_b_mint: address(4),
        token_a_vault: address(5),
        token_b_vault: address(6),
        lp_token_mint: address(7),
        reserve_a,
        reserve_b,
        total_lp_supply: 1000,
        fee_numerator: 3,
        fee_denominator: 1000,
        token_a_decimals: 9,
        token_b_decimals: 6,
        is_stablecoin_pool: false,
        created_at: 0,
        total_volume_a: 0,
        total_volume_b: 0,
        locked_liquidity: 0,
        bump: 255,
    }
}

fn config(total_supply: u64, minted_so_far: u64, is_paused: bool) -> RushConfig {
    RushConfig {
        mint: address(8),
        authority: address(1),
        total_supply,
        minted_so_far,
        rewards_per_second: 10,
        apy_numerator: 50,
        apy_denominator: 100,
        start_timestamp: 0,
        is_paused,
        bump: 255,
    }
}

fn liquidity(lp_tokens: u64, deposit_timestamp: i64, last_claim_timestamp: i64) -> UserLiquidityPosition {
    UserLiquidityPosition {
        owner: address(1),
        pool: address(2),
        lp_tokens,
        deposit_timestamp,
        last_claim_timestamp,
        total_rush_claimed: 0,
        bump: 255,
    }
}

#[test]
fn address_order_is_the_order_of_bytes() {
    let zero = Address::default_address();
    assert_eq!(zero, Address { high: 0, low: 0 });
    assert!(zero.is_default());
    assert!(!address(1).is_default());
    assert!(!Address { high: 1, low: 0 }.is_default());
    assert!(zero.is_before(&address(1)));
    assert!(!address(1).is_before(&zero));
    assert!(!address(1).is_before(&address(1)));
    assert!(address(u128::MAX).is_before(&Address { high: 1, low: 0 }));
    assert!(!Address { high: 1, low: 0 }.is_before(&address(u128::MAX)));
    assert!(Address { high: 1, low: 5 }.is_before(&Address { high: 1, low: 6 }));
}

#[test]
fn pairs_are_valid_and_canonical() {
    assert!(is_valid_pair(&address(1), &address(2)));
    assert!(!is_valid_pair(&address(2), &address(2)));
    assert!(is_valid_pair(&Address { high: 1, low: 2 }, &address(2)));
    assert_eq!(get_canonical_pair(address(1), address(2)), (address(1), address(2)));
    assert_eq!(get_canonical_pair(address(2), address(1)), (address(1), address(2)));
    assert_eq!(get_canonical_pair(address(2), address(2)), (address(2), address(2)));
    let high = Address { high: 1, low: 0 };
    assert_eq!(get_canonical_pair(high, address(u128::MAX)), (address(u128::MAX), high));
}

#[test]
fn order_status_predicates() {
    assert!(OrderStatus::Pending.is_executable());
    assert!(OrderStatus::Pending.is_cancellable());
    assert!(!OrderStatus::Pending.is_final());
    for status in [OrderStatus::Executed, OrderStatus::Cancelled, OrderStatus::Expired] {
        assert!(!status.is_executable());
        assert!(!status.is_cancellable());
        assert!(status.is_final());
    }
}

#[test]
fn order_expiry() {
    let pending = order(OrderStatus::Pending, 1000);
    assert!(!pending.is_expired(999));
    assert!(pending.is_expired(1000));
    assert!(pending.is_expired(1001));
    assert!(pending.can_execute(999));
    assert!(!pending.can_execute(1000));
    assert!(!order(OrderStatus::Executed, 1000).can_execute(999));
    assert!(!order(OrderStatus::Cancelled, 1000).can_execute(0));
    assert_eq!(pending.time_until_expiry(400), 600);
    assert_eq!(pending.time_until_expiry(1000), 0);
    assert_eq!(pending.time_until_expiry(1001), 0);
    assert_eq!(pending.time_until_expiry(-1), 1001);
    assert_eq!(order(OrderStatus::Pending, i64::MAX).time_until_expiry(i64::MIN), u64::MAX);
    assert_eq!(order(OrderStatus::Pending, i64::MIN).time_until_expiry(i64::MAX), 0);
}

#[test]
fn order_side_and_price() {
    let pending = order(OrderStatus::Pending, 1000);
    assert!(pending.is_sell_order(&address(3)));
    assert!(!pending.is_sell_order(&address(4)));
    assert!(!pending.is_sell_order(&Address { high: 3, low: 3 }));
    assert_eq!(pending.get_asking_price(), 2_000_000);
}

#[test]
fn pool_prices() {
    let p = pool(1000, 2000);
    assert!(!p.is_stable_pair());
    assert!(LiquidityPool { is_stablecoin_pool: true, ..p }.is_stable_pair());
    assert_eq!(p.get_price_a_to_b(), 2_000_000);
    assert_eq!(p.get_price_b_to_a(), 500_000);
    assert_eq!(p.get_constant_product(), 2_000_000);
    assert_eq!(pool(0, 2000).get_price_a_to_b(), 0);
    assert_eq!(pool(0, 2000).get_price_b_to_a(), 0);
    assert_eq!(pool(1000, 0).get_price_b_to_a(), 0);
    assert_eq!(pool(3, 1).get_price_a_to_b(), 333_333);
    assert_eq!(pool(1, u64::MAX).get_price_a_to_b(), 18_446_744_073_708_551_616);
    assert_eq!(pool(u64::MAX, u64::MAX).get_constant_product(), u128::MAX - (1 << 65) + 2);
}

#[test]
fn rush_config_rewards() {
    assert_eq!(SECONDS_PER_YEAR, 31_536_000);
    let c = config(1_000_000, 400_000, false);
    assert_eq!(c.yearly_rewards(), 500_000);
    assert_eq!(config(7, 0, false).yearly_rewards(), 3);
    assert_eq!(c.remaining_rewards(), 600_000);
    assert_eq!(config(5, 9, false).remaining_rewards(), 0);
    assert!(c.has_remaining_rewards());
    assert!(!config(5, 5, false).has_remaining_rewards());
    assert!(c.is_active());
    assert!(!config(1_000_000, 400_000, true).is_active());
    assert!(!config(5, 5, false).is_active());
}

#[test]
fn rush_config_calculates_rewards() {
    let c = config(1_000_000, 400_000, false);
    // 10 * 100 * 250 / 1000 = 250
    assert_eq!(c.calculate_rewards(100, 250, 1000), 250);
    // 10 * 7 * 1 / 3 = 23.3
    assert_eq!(c.calculate_rewards(7, 1, 3), 23);
    // no more than is left
    assert_eq!(c.calculate_rewards(1_000_000, 1000, 1000), 600_000);
    assert_eq!(c.calculate_rewards(100, 0, 1000), 0);
    assert_eq!(c.calculate_rewards(100, 250, 0), 0);
    assert_eq!(c.calculate_rewards(0, 250, 1000), 0);
    assert_eq!(config(1_000_000, 400_000, true).calculate_rewards(100, 250, 1000), 0);
    assert_eq!(config(5, 5, false).calculate_rewards(100, 250, 1000), 0);
}

#[test]
fn liquidity_position_figures() {
    assert_eq!(SECONDS_PER_DAY, 86_400);
    let p = liquidity(250, 1000, 5000);
    assert!(p.has_liquidity());
    assert!(!liquidity(0, 0, 0).has_liquidity());
    assert_eq!(p.get_pool_share(1000), 250_000);
    assert_eq!(p.get_pool_share(3), 83_333_333);
    assert_eq!(p.get_pool_share(0), 0);
    assert_eq!(liquidity(u64::MAX, 0, 0).get_pool_share(1), 18_446_744_073_708_551_616);
    assert_eq!(p.get_time_since_last_claim(5600), 600);
    assert_eq!(p.get_time_since_last_claim(4000), -1000);
    assert_eq!(p.get_position_age_days(1000), 0);
    assert_eq!(p.get_position_age_days(1000 + 86_399), 0);
    assert_eq!(p.get_position_age_days(1000 + 86_400), 1);
    assert_eq!(p.get_position_age_days(1000 + 10 * 86_400 + 5), 10);
    // one second before the deposit: (2^64 - 1) / 86400
    assert_eq!(p.get_position_age_days(999), 213_503_982_334_601);
}

#[test]
fn perps_position_side() {
    let position = PerpsPosition {
        owner: address(1),
        market: address(2),
        side: 0,
        base_position_i64: 5,
        entry_price_i64: 100,
        collateral_u64: 50,
        leverage_u16: 5,
        last_funding_i128: 0,
        bump: 255,
        realized_pnl_i128: -3,
    };
    assert!(!position.is_empty());
    assert_eq!(position.derived_side(), 0);
    let short = PerpsPosition { base_position_i64: -5, ..position };
    assert_eq!(short.derived_side(), 1);
    let flat = PerpsPosition { base_position_i64: 0, ..position };
    assert!(flat.is_empty());
    assert_eq!(flat.derived_side(), 0);
    let state = short.to_engine_state();
    assert_eq!(state.base_position, -5);
    assert_eq!(state.entry_price, 100);
    assert_eq!(state.realized_pnl, -3);
    assert_eq!(state.last_cum_funding, 0);
}
