use solrush_dex::{apply_trade_to_position, CustomError, PositionState, TradeResult};

fn position(base: i64, entry: i64, realized: i128) -> PositionState {
    PositionState {
        base_position: base,
        entry_price: entry,
        realized_pnl: realized,
        last_cum_funding: 7,
    }
}

fn after(state: &PositionState, result: &TradeResult) -> PositionState {
    PositionState {
        base_position: result.new_base_position,
        entry_price: result.new_entry_price,
        realized_pnl: result.new_realized_pnl,
        last_cum_funding: state.last_cum_funding,
    }
}

#[test]
fn zero_trade_returns_the_state_unchanged() {
    let states = [
        position(0, 0, 0),
        position(10, 50, -3),
        position(-10, 50, 12),
        position(i64::MAX, i64::MAX, i128::MAX),
        position(i64::MIN, -5, i128::MIN),
        position(0, 99, 1),
    ];
    for state in states {
        for price in [i64::MIN, -1, 0, 1, 60, i64::MAX] {
            let r = apply_trade_to_position(&state, 0, price).unwrap();
            assert_eq!(
                r,
                TradeResult {
                    new_base_position: state.base_position,
                    new_entry_price: state.entry_price,
                    new_realized_pnl: state.realized_pnl,
                    pnl_delta: 0,
                }
            );
            assert_eq!(after(&state, &r), state);
        }
    }
}

#[test]
fn open_average_close_is_consistent() {
    let flat = position(0, 0, 0);
    let opened = apply_trade_to_position(&flat, 10, 50).unwrap();
    assert_eq!(
        opened,
        TradeResult { new_base_position: 10, new_entry_price: 50, new_realized_pnl: 0, pnl_delta: 0 }
    );
    let long = after(&flat, &opened);
    let increased = apply_trade_to_position(&long, 10, 60).unwrap();
    assert_eq!(
        increased,
        TradeResult { new_base_position: 20, new_entry_price: 55, new_realized_pnl: 0, pnl_delta: 0 }
    );
    let larger = after(&long, &increased);
    let closed = apply_trade_to_position(&larger, -20, 55).unwrap();
    assert_eq!(
        closed,
        TradeResult { new_base_position: 0, new_entry_price: 0, new_realized_pnl: 0, pnl_delta: 0 }
    );
}

#[test]
fn flip_closes_the_whole_and_opens_the_rest() {
    let long = position(10, 50, 0);
    let r = apply_trade_to_position(&long, -15, 60).unwrap();
    assert_eq!(
        r,
        TradeResult {
            new_base_position: -5,
            new_entry_price: 60,
            new_realized_pnl: 100,
            pnl_delta: 100,
        }
    );
    let short = position(-10, 50, 1000);
    let r = apply_trade_to_position(&short, 15, 60).unwrap();
    assert_eq!(
        r,
        TradeResult {
            new_base_position: 5,
            new_entry_price: 60,
            new_realized_pnl: 900,
            pnl_delta: -100,
        }
    );
}

#[test]
fn mirrored_short_realizes_the_negated_amount_at_the_same_price() {
    for (base, entry, delta, price) in
        [(10i64, 50i64, -4i64, 60i64), (10, 50, -10, 45), (10, 50, -25, 71), (3, 7, -1, 7)]
    {
        let long = apply_trade_to_position(&position(base, entry, 0), delta, price).unwrap();
        let short = apply_trade_to_position(&position(-base, entry, 0), -delta, price).unwrap();
        assert_eq!(short.pnl_delta, -long.pnl_delta);
        assert_eq!(short.new_base_position, -long.new_base_position);
        assert_eq!(short.new_entry_price, long.new_entry_price);
    }
}

#[test]
fn mirrored_short_realizes_the_same_amount_at_the_reflected_price() {
    for (base, entry, delta, price) in
        [(10i64, 50i64, -4i64, 60i64), (10, 50, -10, 45), (10, 50, -25, 71), (3, 7, -1, 7)]
    {
        let reflected = 2 * entry - price;
        let long = apply_trade_to_position(&position(base, entry, 0), delta, price).unwrap();
        let short = apply_trade_to_position(&position(-base, entry, 0), -delta, reflected).unwrap();
        assert_eq!(short.pnl_delta, long.pnl_delta);
    }
}

#[test]
fn increase_averages_with_truncation() {
    // (3 * 10 + 2 * 11) / 5 = 52 / 5 = 10.4
    let r = apply_trade_to_position(&position(3, 10, 5), 2, 11).unwrap();
    assert_eq!(
        r,
        TradeResult { new_base_position: 5, new_entry_price: 10, new_realized_pnl: 5, pnl_delta: 0 }
    );
    // (1 * 10 + 2 * 11) / 3 = 32 / 3 = 10.67
    let r = apply_trade_to_position(&position(-1, 10, 5), -2, 11).unwrap();
    assert_eq!(
        r,
        TradeResult { new_base_position: -3, new_entry_price: 10, new_realized_pnl: 5, pnl_delta: 0 }
    );
}

#[test]
fn increase_at_the_largest_values() {
    let half = i64::MAX / 2;
    let r = apply_trade_to_position(&position(half, i64::MAX, 0), half, i64::MAX).unwrap();
    assert_eq!(r.new_base_position, i64::MAX - 1);
    assert_eq!(r.new_entry_price, i64::MAX);
    let r = apply_trade_to_position(&position(half, i64::MAX, 0), half + 1, 0).unwrap();
    assert_eq!(r.new_base_position, i64::MAX);
    // half * MAX / MAX = half
    assert_eq!(r.new_entry_price, half);
    let r = apply_trade_to_position(&position(i64::MIN + 1, 1, 0), -1, i64::MAX).unwrap();
    assert_eq!(r.new_base_position, i64::MIN);
    // (MAX * 1 + 1 * MAX) / 2^63 = 1
    assert_eq!(r.new_entry_price, 1);
}

#[test]
fn new_size_outside_64_bits_is_refused() {
    assert_eq!(
        apply_trade_to_position(&position(i64::MAX, 50, 0), 1, 50),
        Err(CustomError::CalculationOverflow)
    );
    assert_eq!(
        apply_trade_to_position(&position(i64::MIN, 50, 0), -1, 50),
        Err(CustomError::CalculationOverflow)
    );
    assert_eq!(
        apply_trade_to_position(&position(1, 50, 0), i64::MAX, 50),
        Err(CustomError::CalculationOverflow)
    );
}

#[test]
fn increase_at_a_negative_price_is_refused() {
    assert_eq!(
        apply_trade_to_position(&position(10, 50, 0), 10, -1),
        Err(CustomError::CalculationOverflow)
    );
    assert_eq!(
        apply_trade_to_position(&position(10, -50, 0), 10, 60),
        Err(CustomError::CalculationOverflow)
    );
    assert_eq!(
        apply_trade_to_position(&position(-1, -50, 0), -1, 60),
        Err(CustomError::CalculationOverflow)
    );
    assert_eq!(
        apply_trade_to_position(&position(1, 50, 0), 1, i64::MIN),
        Err(CustomError::CalculationOverflow)
    );
}

#[test]
fn opening_takes_any_price() {
    let r = apply_trade_to_position(&position(0, 0, 9), i64::MIN, -5).unwrap();
    assert_eq!(
        r,
        TradeResult {
            new_base_position: i64::MIN,
            new_entry_price: -5,
            new_realized_pnl: 9,
            pnl_delta: 0,
        }
    );
}

#[test]
fn realized_total_outside_128_bits_is_refused() {
    assert_eq!(
        apply_trade_to_position(&position(10, 50, i128::MAX), -5, 60),
        Err(CustomError::CalculationOverflow)
    );
    assert_eq!(
        apply_trade_to_position(&position(10, 50, i128::MIN), -5, 40),
        Err(CustomError::CalculationOverflow)
    );
    let r = apply_trade_to_position(&position(10, 50, i128::MAX), -5, 40).unwrap();
    assert_eq!(r.pnl_delta, -50);
    assert_eq!(r.new_realized_pnl, i128::MAX - 50);
    let r = apply_trade_to_position(&position(10, 50, i128::MAX - 50), -5, 60).unwrap();
    assert_eq!(r.new_realized_pnl, i128::MAX);
}

#[test]
fn closing_at_the_largest_price_move() {
    // 2^63 * (2^64 - 1), the largest amount one trade can realize
    let r = apply_trade_to_position(&position(i64::MIN, i64::MAX, 0), i64::MAX, i64::MIN).unwrap();
    assert_eq!(r.new_base_position, -1);
    assert_eq!(r.new_entry_price, i64::MAX);
    assert_eq!(r.pnl_delta, (i64::MAX as i128) * ((1i128 << 64) - 1));
    let r = apply_trade_to_position(&position(i64::MAX, i64::MIN, 0), i64::MIN, i64::MAX).unwrap();
    assert_eq!(r.new_base_position, -1);
    assert_eq!(r.new_entry_price, i64::MAX);
    assert_eq!(r.pnl_delta, (i64::MAX as i128) * ((1i128 << 64) - 1));
}

#[test]
fn realized_total_moves_by_the_delta_only() {
    let mut state = position(0, 0, 0);
    let trades: [(i64, i64); 8] =
        [(10, 50), (10, 60), (-5, 70), (-5, 40), (-20, 55), (-3, 50), (13, 45), (0, 1)];
    let mut total: i128 = 0;
    for (delta, price) in trades {
        let r = apply_trade_to_position(&state, delta, price).unwrap();
        assert_eq!(r.new_realized_pnl, state.realized_pnl + r.pnl_delta);
        total += r.pnl_delta;
        assert_eq!(r.new_realized_pnl, total);
        assert_eq!(r.new_entry_price == 0, r.new_base_position == 0);
        state = after(&state, &r);
    }
    assert_eq!(state.base_position, 0);
    // 5 * 15 + 5 * (-15) + 10 * 0, then short 13 @ 53 closed at 45: 13 * 8
    assert_eq!(total, 104);
}

#[test]
fn trade_at_the_entry_price_realizes_nothing() {
    for base in [10i64, -10, 1, i64::MAX, i64::MIN + 1] {
        for delta in [-3i64, 3, -10, 10, -25, 25] {
            let state = position(base, 55, 9);
            if let Ok(r) = apply_trade_to_position(&state, delta, 55) {
                assert_eq!(r.pnl_delta, 0);
                assert_eq!(r.new_realized_pnl, 9);
            }
        }
    }
}

#[test]
fn flip_realizes_the_move_on_the_whole_old_size() {
    for (base, entry, delta, price) in
        [(10i64, 50i64, -15i64, 60i64), (-10, 50, 11, 45), (3, 7, -1000, 0), (-1, 100, 2, 300)]
    {
        let r = apply_trade_to_position(&position(base, entry, 0), delta, price).unwrap();
        assert_eq!(r.pnl_delta, base as i128 * (price - entry) as i128);
        assert_eq!(r.new_base_position, base + delta);
        assert_eq!(r.new_entry_price, price);
        assert_eq!(r.new_base_position > 0, delta > 0);
    }
}
