use solrush_dex::{
    apply_trade_to_position, can_increase_position, ceil_div, compute_equity,
    compute_liquidation_close_size, floor_div, initial_margin, is_liquidatable,
    is_liquidatable_check, maintenance_margin, mul_div, notional_value, position_equity,
    required_margin_scaled, signed_mul_div, signed_mul_div_ceil, signed_mul_div_floor,
    unrealized_pnl, PositionState,
};

#[test]
fn test_mul_div_basic() {
    // 100 * 200 / 50 = 400
    assert_eq!(mul_div(100, 200, 50).unwrap(), 400);
}

#[test]
fn test_mul_div_large_values() {
    // Near-max u128 values that would overflow simple u128 multiply
    let a: u128 = u128::MAX / 2;
    let b: u128 = 2;
    let d: u128 = 1;
    assert_eq!(mul_div(a, b, d).unwrap(), u128::MAX - 1);
}

#[test]
fn test_mul_div_zero_denom() {
    assert!(mul_div(100, 200, 0).is_err());
}

#[test]
fn test_mul_div_truncation() {
    // 7 * 3 / 2 = 10 (truncated, not 10.5)
    assert_eq!(mul_div(7, 3, 2).unwrap(), 10);
}

#[test]
fn test_signed_mul_div_positive() {
    assert_eq!(signed_mul_div(100, 200, 50).unwrap(), 400);
}

#[test]
fn test_signed_mul_div_negative() {
    // -100 * 200 / 50 = -400
    assert_eq!(signed_mul_div(-100, 200, 50).unwrap(), -400);
}

#[test]
fn test_signed_mul_div_both_negative() {
    // -100 * -200 / 50 = 400
    assert_eq!(signed_mul_div(-100, -200, 50).unwrap(), 400);
}

#[test]
fn test_signed_mul_div_truncation_toward_zero() {
    // -7 * 3 / 2 = -10 (truncated toward zero, not -10.5 → -11)
    assert_eq!(signed_mul_div(-7, 3, 2).unwrap(), -10);
}

#[test]
fn test_floor_div_positive() {
    assert_eq!(floor_div(7, 2).unwrap(), 3);
}

#[test]
fn test_floor_div_negative() {
    // -7 / 2 = -3.5, floor = -4
    assert_eq!(floor_div(-7, 2).unwrap(), -4);
}

#[test]
fn test_floor_div_exact() {
    assert_eq!(floor_div(-8, 2).unwrap(), -4);
}

#[test]
fn test_ceil_div_positive() {
    // 7 / 2 = 3.5, ceil = 4
    assert_eq!(ceil_div(7, 2).unwrap(), 4);
}

#[test]
fn test_ceil_div_negative() {
    // -7 / 2 = -3.5, ceil = -3
    assert_eq!(ceil_div(-7, 2).unwrap(), -3);
}

#[test]
fn test_ceil_div_exact() {
    assert_eq!(ceil_div(8, 2).unwrap(), 4);
}

#[test]
fn test_signed_mul_div_floor_negative_pnl() {
    // -7 * 1 / 2 => floor(-3.5) = -4
    assert_eq!(signed_mul_div_floor(-7, 1, 2).unwrap(), -4);
}

#[test]
fn test_signed_mul_div_ceil_margin() {
    // 7 * 1 / 2 => ceil(3.5) = 4
    assert_eq!(signed_mul_div_ceil(7, 1, 2).unwrap(), 4);
}

fn make_pos(base: i64, entry: i64, rpnl: i128) -> PositionState {
    PositionState {
        base_position: base,
        entry_price: entry,
        realized_pnl: rpnl,
        last_cum_funding: 0,
    }
}

#[test]
fn test_open_from_zero_long() {
    let pos = make_pos(0, 0, 0);
    let r = apply_trade_to_position(&pos, 10_000_000, 50_000_000).unwrap();
    assert_eq!(r.new_base_position, 10_000_000);
    assert_eq!(r.new_entry_price, 50_000_000);
    assert_eq!(r.pnl_delta, 0);
}

#[test]
fn test_open_from_zero_short() {
    let pos = make_pos(0, 0, 0);
    let r = apply_trade_to_position(&pos, -10_000_000, 50_000_000).unwrap();
    assert_eq!(r.new_base_position, -10_000_000);
    assert_eq!(r.new_entry_price, 50_000_000);
    assert_eq!(r.pnl_delta, 0);
}

#[test]
fn test_increase_long() {
    // Long 10 @ 50, add 10 @ 60 → avg = (10*50 + 10*60) / 20 = 55
    let pos = make_pos(10_000_000, 50_000_000, 0);
    let r = apply_trade_to_position(&pos, 10_000_000, 60_000_000).unwrap();
    assert_eq!(r.new_base_position, 20_000_000);
    assert_eq!(r.new_entry_price, 55_000_000);
    assert_eq!(r.pnl_delta, 0);
}

#[test]
fn test_increase_short() {
    // Short 10 @ 50, add short 10 @ 40 → avg = (10*50 + 10*40) / 20 = 45
    let pos = make_pos(-10_000_000, 50_000_000, 0);
    let r = apply_trade_to_position(&pos, -10_000_000, 40_000_000).unwrap();
    assert_eq!(r.new_base_position, -20_000_000);
    assert_eq!(r.new_entry_price, 45_000_000);
    assert_eq!(r.pnl_delta, 0);
}

#[test]
fn test_partial_close_long_profit() {
    // Long 10 @ 50, close 5 @ 60
    // PnL = 5 * (60 - 50) * 1 = 50 (in scaled units: 5e6 * 10e6 = 50e12)
    let pos = make_pos(10_000_000, 50_000_000, 0);
    let r = apply_trade_to_position(&pos, -5_000_000, 60_000_000).unwrap();
    assert_eq!(r.new_base_position, 5_000_000);
    assert_eq!(r.new_entry_price, 50_000_000); // entry price unchanged
    let expected_pnl: i128 = 5_000_000i128 * 10_000_000i128; // 50_000_000_000_000
    assert_eq!(r.pnl_delta, expected_pnl);
    assert_eq!(r.new_realized_pnl, expected_pnl);
}

#[test]
fn test_partial_close_long_loss() {
    // Long 10 @ 50, close 5 @ 40
    // PnL = 5 * (40 - 50) * 1 = -50 (in scaled units)
    let pos = make_pos(10_000_000, 50_000_000, 0);
    let r = apply_trade_to_position(&pos, -5_000_000, 40_000_000).unwrap();
    assert_eq!(r.new_base_position, 5_000_000);
    let expected_pnl: i128 = 5_000_000i128 * (-10_000_000i128); // -50_000_000_000_000
    assert_eq!(r.pnl_delta, expected_pnl);
}

#[test]
fn test_full_close_long() {
    let pos = make_pos(10_000_000, 50_000_000, 0);
    let r = apply_trade_to_position(&pos, -10_000_000, 60_000_000).unwrap();
    assert_eq!(r.new_base_position, 0);
    assert_eq!(r.new_entry_price, 0);
    let expected_pnl: i128 = 10_000_000i128 * 10_000_000i128;
    assert_eq!(r.pnl_delta, expected_pnl);
}

#[test]
fn test_full_close_short_profit() {
    // Short 10 @ 50, close at 40 → profit = 10 * (40 - 50) * -1 = +100
    let pos = make_pos(-10_000_000, 50_000_000, 0);
    let r = apply_trade_to_position(&pos, 10_000_000, 40_000_000).unwrap();
    assert_eq!(r.new_base_position, 0);
    assert_eq!(r.new_entry_price, 0);
    // pnl = close_size * (trade_price - entry_price) * direction
    // direction for short (old_base < 0) = -1
    // = 10e6 * (40e6 - 50e6) * (-1) = 10e6 * (-10e6) * (-1) = +100e12
    let expected_pnl: i128 = 10_000_000i128 * 10_000_000i128;
    assert_eq!(r.pnl_delta, expected_pnl);
}

#[test]
fn test_full_close_short_loss() {
    // Short 10 @ 50, close at 60 → loss = 10 * (60 - 50) * -1 = -100
    let pos = make_pos(-10_000_000, 50_000_000, 0);
    let r = apply_trade_to_position(&pos, 10_000_000, 60_000_000).unwrap();
    assert_eq!(r.new_base_position, 0);
    assert_eq!(r.new_entry_price, 0);
    let expected_pnl: i128 = 10_000_000i128 * (-10_000_000i128);
    assert_eq!(r.pnl_delta, expected_pnl);
}

#[test]
fn test_flip_long_to_short() {
    // Long 10 @ 50, sell 15 @ 60 → close 10 @ 60 (profit), open short 5 @ 60
    let pos = make_pos(10_000_000, 50_000_000, 0);
    let r = apply_trade_to_position(&pos, -15_000_000, 60_000_000).unwrap();
    assert_eq!(r.new_base_position, -5_000_000);
    assert_eq!(r.new_entry_price, 60_000_000); // new direction
    let expected_pnl: i128 = 10_000_000i128 * 10_000_000i128;
    assert_eq!(r.pnl_delta, expected_pnl);
}

#[test]
fn test_flip_short_to_long() {
    // Short 10 @ 50, buy 15 @ 40 → close 10 @ 40 (profit), open long 5 @ 40
    let pos = make_pos(-10_000_000, 50_000_000, 0);
    let r = apply_trade_to_position(&pos, 15_000_000, 40_000_000).unwrap();
    assert_eq!(r.new_base_position, 5_000_000);
    assert_eq!(r.new_entry_price, 40_000_000);
    let expected_pnl: i128 = 10_000_000i128 * 10_000_000i128; // profit
    assert_eq!(r.pnl_delta, expected_pnl);
}

#[test]
fn test_unrealized_pnl_long_profit() {
    // Long 10 @ 50, mark = 60 → upnl = 10 * (60-50) = 100
    let pnl = unrealized_pnl(10_000_000, 50_000_000, 60_000_000).unwrap();
    assert_eq!(pnl, 10_000_000i128 * 10_000_000i128);
}

#[test]
fn test_unrealized_pnl_long_loss() {
    let pnl = unrealized_pnl(10_000_000, 50_000_000, 40_000_000).unwrap();
    assert_eq!(pnl, 10_000_000i128 * (-10_000_000i128));
}

#[test]
fn test_unrealized_pnl_short_profit() {
    // Short -10 @ 50, mark = 40 → upnl = -10 * (40-50) = +100
    let pnl = unrealized_pnl(-10_000_000, 50_000_000, 40_000_000).unwrap();
    assert_eq!(pnl, -10_000_000i128 * (-10_000_000i128));
    assert!(pnl > 0);
}

#[test]
fn test_unrealized_pnl_short_loss() {
    let pnl = unrealized_pnl(-10_000_000, 50_000_000, 60_000_000).unwrap();
    assert_eq!(pnl, -10_000_000i128 * 10_000_000i128);
    assert!(pnl < 0);
}

#[test]
fn test_unrealized_pnl_zero_position() {
    assert_eq!(unrealized_pnl(0, 50_000_000, 60_000_000).unwrap(), 0);
}

#[test]
fn test_required_margin_ceil() {
    // notional = 1001, leverage = 10 → ceil(1001/10) = 101
    assert_eq!(required_margin_scaled(1001, 10).unwrap(), 101);
}

#[test]
fn test_required_margin_exact() {
    assert_eq!(required_margin_scaled(1000, 10).unwrap(), 100);
}

#[test]
fn test_required_margin_zero_leverage() {
    assert!(required_margin_scaled(1000, 0).is_err());
}

#[test]
fn test_multiple_partial_closes() {
    // Long 20 @ 50, close 5 @ 60 (profit), then close 5 @ 45 (loss)
    let pos0 = make_pos(20_000_000, 50_000_000, 0);
    let r1 = apply_trade_to_position(&pos0, -5_000_000, 60_000_000).unwrap();
    assert_eq!(r1.new_base_position, 15_000_000);
    let pnl1 = 5_000_000i128 * 10_000_000i128; // +50e12
    assert_eq!(r1.pnl_delta, pnl1);

    let pos1 = PositionState {
        base_position: r1.new_base_position,
        entry_price: r1.new_entry_price,
        realized_pnl: r1.new_realized_pnl,
        last_cum_funding: 0,
    };
    let r2 = apply_trade_to_position(&pos1, -5_000_000, 45_000_000).unwrap();
    assert_eq!(r2.new_base_position, 10_000_000);
    let pnl2 = 5_000_000i128 * (-5_000_000i128); // -25e12
    assert_eq!(r2.pnl_delta, pnl2);
    assert_eq!(r2.new_realized_pnl, pnl1 + pnl2);
}

#[test]
fn test_large_position_pnl() {
    // 1 billion base units @ price 100_000 (1e5 scaled)
    // This tests that i128 can handle the multiplication
    let pos = make_pos(1_000_000_000, 100_000_000_000, 0); // 1e9 base, 1e11 price
    let r = apply_trade_to_position(&pos, -1_000_000_000, 100_001_000_000).unwrap();
    // PnL = 1e9 * (100_001e6 - 100_000e6) = 1e9 * 1e6 = 1e15
    assert_eq!(r.pnl_delta, 1_000_000_000i128 * 1_000_000i128);
}

#[test]
fn test_notional_value() {
    let n = notional_value(10_000_000, 50_000_000).unwrap();
    // |10e6| * |50e6| = 500e12
    assert_eq!(n, 500_000_000_000_000i128);
}

#[test]
fn test_notional_value_short() {
    let n = notional_value(-10_000_000, 50_000_000).unwrap();
    assert_eq!(n, 500_000_000_000_000i128);
}

#[test]
fn test_healthy_position_not_liquidatable() {
    // Long 10 @ 100, mark = 100, collateral = 200, mm_bps = 500 (5%)
    // equity = 200 + 10*(100-100) = 200
    // mm = |10|*|100| * 500/10000 = 1000 * 0.05 = 50
    // 200 >= 50 → not liquidatable
    assert_eq!(
        is_liquidatable(200, 10, 100, 100, 500).unwrap(),
        false
    );
}

#[test]
fn test_underwater_position_liquidatable() {
    // Long 10 @ 100, mark = 91, collateral = 100
    // upnl = 10 * (91 - 100) = -90
    // equity = 100 + (-90) = 10
    // mm = 10 * 91 * 500 / 10000 = 45.5
    // 10 < 45.5 → liquidatable
    assert_eq!(
        is_liquidatable(100, 10, 100, 91, 500).unwrap(),
        true
    );
}

#[test]
fn test_zero_position_not_liquidatable() {
    assert_eq!(is_liquidatable(0, 0, 0, 100, 500).unwrap(), false);
}

#[test]
fn test_short_position_liquidatable() {
    // Short -10 @ 100, mark rises to 109, collateral = 100
    // upnl = -10 * (109 - 100) = -90
    // equity = 100 + (-90) = 10
    // mm = 10 * 109 * 500/10000 = 54.5
    // 10 < 54.5 → liquidatable
    assert_eq!(
        is_liquidatable(100, -10, 100, 109, 500).unwrap(),
        true
    );
}

#[test]
fn test_position_equity_profit() {
    // Long 10 @ 100, mark = 110, collateral = 100
    // equity = 100 + 10*(110-100) = 200
    assert_eq!(position_equity(100, 10, 100, 110).unwrap(), 200);
}

#[test]
fn test_position_equity_loss() {
    // Long 10 @ 100, mark = 90, collateral = 100
    // equity = 100 + 10*(90-100) = 0
    assert_eq!(position_equity(100, 10, 100, 90).unwrap(), 0);
}

#[test]
fn test_position_equity_negative() {
    // Long 10 @ 100, mark = 80, collateral = 100
    // equity = 100 + 10*(80-100) = -100
    assert_eq!(position_equity(100, 10, 100, 80).unwrap(), -100);
}

#[test]
fn test_close_size_full_when_equity_zero() {
    // equity <= 0 → full liquidation
    assert_eq!(
        compute_liquidation_close_size(100, 10, 100, 80, 500).unwrap(),
        10
    );
}

#[test]
fn test_close_size_partial() {
    // Long 100 @ 100, mark = 96, collateral = 1000
    // upnl = 100 * (96-100) = -400
    // equity = 1000 - 400 = 600
    // mm = 100 * 96 * 500/10000 = 480
    // 600 > 480 → not liquidatable → close_size = 0
    assert_eq!(
        compute_liquidation_close_size(1000, 100, 100, 96, 500).unwrap(),
        0
    );
}

#[test]
fn test_close_size_zero_position() {
    assert_eq!(
        compute_liquidation_close_size(100, 0, 100, 50, 500).unwrap(),
        0
    );
}

#[test]
fn test_initial_margin_basic() {
    // notional = 1000, leverage = 5 → im = ceil(1000/5) = 200
    assert_eq!(initial_margin(1000, 5).unwrap(), 200);
}

#[test]
fn test_initial_margin_ceil_rounding() {
    // notional = 1001, leverage = 5 → ceil(1001/5) = ceil(200.2) = 201
    assert_eq!(initial_margin(1001, 5).unwrap(), 201);
}

#[test]
fn test_initial_margin_zero_leverage() {
    assert!(initial_margin(1000, 0).is_err());
}

#[test]
fn test_maintenance_margin_basic() {
    // notional = 10000, mm_bps = 500 → mm = ceil(10000*500/10000) = 500
    assert_eq!(maintenance_margin(10000, 500).unwrap(), 500);
}

#[test]
fn test_maintenance_margin_ceil_rounding() {
    // notional = 10001, mm_bps = 500 → ceil(10001*500/10000) = ceil(500.05) = 501
    assert_eq!(maintenance_margin(10001, 500).unwrap(), 501);
}

#[test]
fn test_compute_equity_all_components() {
    // collateral=1000, realized_pnl=200, base=10, entry=100, mark=110, funding=50
    // upnl = 10*(110-100) = 100
    // equity = 1000 + 200 + 100 - 50 = 1250
    assert_eq!(compute_equity(1000, 200, 10, 100, 110, 50).unwrap(), 1250);
}

#[test]
fn test_compute_equity_negative() {
    // collateral=100, realized_pnl=0, base=10, entry=100, mark=80, funding=0
    // upnl = 10*(80-100) = -200
    // equity = 100 + 0 + (-200) - 0 = -100
    assert_eq!(compute_equity(100, 0, 10, 100, 80, 0).unwrap(), -100);
}

#[test]
fn test_compute_equity_with_funding() {
    // collateral=500, rpnl=0, base=10, entry=100, mark=100, funding=100
    // upnl = 0, equity = 500 + 0 + 0 - 100 = 400
    assert_eq!(compute_equity(500, 0, 10, 100, 100, 100).unwrap(), 400);
}

#[test]
fn test_can_increase_position_sufficient() {
    assert!(can_increase_position(200, 200));  // equality allowed
    assert!(can_increase_position(201, 200));
}

#[test]
fn test_can_increase_position_insufficient() {
    assert!(!can_increase_position(199, 200));
    assert!(!can_increase_position(-100, 200));
}

#[test]
fn test_is_liquidatable_check_below_mm() {
    assert!(is_liquidatable_check(49, 50));
}

#[test]
fn test_is_liquidatable_check_at_mm() {
    // At exactly MM → NOT liquidatable (strict less-than)
    assert!(!is_liquidatable_check(50, 50));
}

#[test]
fn test_is_liquidatable_check_above_mm() {
    assert!(!is_liquidatable_check(51, 50));
}

#[test]
fn test_position_blocked_insufficient_margin() {
    // User has a losing long and tries to increase.
    // Long 20 @ 95 (weighted avg after increase), mark = 90.
    // notional = |20| * 90 = 1800
    // im = ceil(1800 / 5) = 360   (5× leverage)
    // upnl = 20 * (90 - 95) = -100
    // equity(with collateral=im) = 360 + 0 + (-100) - 0 = 260
    // 260 < 360 → CANNOT increase
    let notional = notional_value(20, 90).unwrap();
    let im = initial_margin(notional, 5).unwrap();
    let equity = compute_equity(im as u64, 0, 20, 95, 90, 0).unwrap();
    assert!(!can_increase_position(equity, im));
}

#[test]
fn test_position_allowed_with_extra_collateral() {
    // Same scenario but user locks more collateral to cover the uPnL gap.
    // Need: collateral + upnl >= im → collateral >= im - upnl = 360 + 100 = 460
    let notional = notional_value(20, 90).unwrap();
    let im = initial_margin(notional, 5).unwrap();
    let equity = compute_equity(460, 0, 20, 95, 90, 0).unwrap();
    // equity = 460 - 100 = 360 = im → allowed (equality)
    assert!(can_increase_position(equity, im));
}

#[test]
fn test_borderline_im_exactly_at_margin() {
    // Long 10 @ 100, mark = 100 → upnl = 0
    // notional = 1000, im(5×) = 200, collateral = 200
    // equity = 200 → exactly IM → allowed
    let notional = notional_value(10, 100).unwrap();
    let im = initial_margin(notional, 5).unwrap();
    let equity = compute_equity(im as u64, 0, 10, 100, 100, 0).unwrap();
    assert!(can_increase_position(equity, im));
}

#[test]
fn test_borderline_im_one_below() {
    // collateral is 1 less than IM → blocked
    let notional = notional_value(10, 100).unwrap();
    let im = initial_margin(notional, 5).unwrap();
    let equity = compute_equity((im - 1) as u64, 0, 10, 100, 100, 0).unwrap();
    assert!(!can_increase_position(equity, im));
}

#[test]
fn test_borderline_mm_exactly_at_margin() {
    // equity exactly at MM → NOT liquidatable
    let notional = notional_value(10, 100).unwrap();  // 1000
    let mm = maintenance_margin(notional, 500).unwrap();  // ceil(500000/10000) = 50
    assert!(!is_liquidatable_check(mm, mm));
}

#[test]
fn test_borderline_mm_one_below() {
    // equity one unit below MM → liquidatable
    let notional = notional_value(10, 100).unwrap();
    let mm = maintenance_margin(notional, 500).unwrap();
    assert!(is_liquidatable_check(mm - 1, mm));
}

#[test]
fn test_high_leverage_blocked() {
    // 100× leverage: even a 1-tick move blows through margin.
    // Long 100 @ 100, mark drops to 99.
    // notional = 100 * 99 = 9900
    // im = ceil(9900/100) = 99
    // upnl = 100 * (99 - 100) = -100
    // equity = 99 + 0 + (-100) - 0 = -1
    // -1 < 99 → cannot increase
    let notional = notional_value(100, 99).unwrap();
    let im = initial_margin(notional, 100).unwrap();
    let equity = compute_equity(im as u64, 0, 100, 100, 99, 0).unwrap();
    assert!(!can_increase_position(equity, im));
}

#[test]
fn test_high_leverage_also_liquidatable() {
    // Same position, check MM with 2% (200 bps)
    // mm = ceil(9900 * 200 / 10000) = ceil(198) = 198
    // equity = -1 < 198 → liquidatable
    let notional = notional_value(100, 99).unwrap();
    let mm = maintenance_margin(notional, 200).unwrap();
    let equity = compute_equity(99, 0, 100, 100, 99, 0).unwrap();
    assert!(is_liquidatable_check(equity, mm));
}

#[test]
fn test_conservative_rounding_favors_protocol() {
    // Verify ceil rounding makes IM/MM slightly larger, protecting protocol.
    // notional = 999, leverage = 7 → exact = 142.71… → ceil = 143
    assert_eq!(initial_margin(999, 7).unwrap(), 143);
    // notional = 999, mm_bps = 333 → exact = 999*333/10000 = 33.2667 → ceil = 34
    assert_eq!(maintenance_margin(999, 333).unwrap(), 34);
}
