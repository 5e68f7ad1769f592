use beethoven::constants::WAD;
use beethoven::errors::ErrorCode;
use beethoven::funding::{calculate_funding_rate, compute_position_funding};
use beethoven::liquidation::{
    compute_lending_health_factor, compute_liquidation_price, compute_perp_health_factor,
    compute_pnl, is_perp_liquidatable,
};
use beethoven::perp::{
    close_position, liquidate_perp, open_position, update_funding_rate, OpenPositionParams,
};
use beethoven::setup::{
    create_perp_market, create_user_account, initialize_exchange, CreatePerpMarketParams,
    InitializeExchangeParams,
};
use beethoven::state::{Exchange, PerpMarket, PositionSide, UserAccount};

fn exchange() -> Exchange {
    initialize_exchange(InitializeExchangeParams {
        swap_fee_bps: 50,
        perp_open_fee_bps: 10,
        perp_close_fee_bps: 10,
        lending_fee_bps: 100,
        max_leverage: 20,
        liquidation_bonus_bps: 500,
        max_liquidation_fraction_bps: 5_000,
    })
    .unwrap()
}

fn market(ex: &mut Exchange) -> PerpMarket {
    create_perp_market(
        ex,
        CreatePerpMarketParams {
            market_index: 0,
            max_leverage: 10,
            min_position_size: 10,
            max_open_interest: 1_000_000,
        },
        0,
    )
    .unwrap()
}

fn user(ex: &mut Exchange) -> UserAccount {
    create_user_account(ex, 0).unwrap()
}

#[test]
fn long_pnl_follows_the_price_move() {
    // size 10 at entry 100 (1e6 precision), price rises to 120: pnl = 200
    let r = compute_pnl(&PositionSide::Long, 10, 100_000_000, 120_000_000);
    assert_eq!(r, Ok(200));
}

#[test]
fn short_pnl_negates_the_price_move() {
    let r = compute_pnl(&PositionSide::Short, 10, 100_000_000, 120_000_000);
    assert_eq!(r, Ok(-200));
    let r = compute_pnl(&PositionSide::Short, 10, 100_000_000, 80_000_000);
    assert_eq!(r, Ok(200));
}

#[test]
fn pnl_truncates_toward_zero() {
    // 100 * -95_000 / 1_000_000 = -9.5, truncated to -9
    let r = compute_pnl(&PositionSide::Long, 100, 1_000_000, 905_000);
    assert_eq!(r, Ok(-9));
}

#[test]
fn health_factor_is_collateral_share_of_notional() {
    let r = compute_perp_health_factor(50_000_000, 200, 0, 10, 120_000_000);
    assert_eq!(r, Ok(416_668_333));
}

#[test]
fn zero_notional_with_positive_collateral_is_never_liquidatable() {
    let r = compute_perp_health_factor(100, 0, 0, 0, 1_000_000).unwrap();
    assert_eq!(r, 10_000);
    assert!(!is_perp_liquidatable(r));
}

#[test]
fn exhausted_collateral_is_always_liquidatable() {
    // effective collateral 100 + (-200) < 0 even with zero notional
    let r = compute_perp_health_factor(100, -200, 0, 0, 1_000_000).unwrap();
    assert_eq!(r, 0);
    assert!(is_perp_liquidatable(r));
}

#[test]
fn liquidation_threshold_is_strict() {
    assert!(is_perp_liquidatable(499));
    assert!(!is_perp_liquidatable(500));
}

#[test]
fn liquidation_price_shifts_entry_by_discounted_margin() {
    // margin per unit 100_000, discounted by 5%: 95_000
    assert_eq!(
        compute_liquidation_price(&PositionSide::Long, 100_000_000, 100, 1_000),
        Ok(99_905_000)
    );
    assert_eq!(
        compute_liquidation_price(&PositionSide::Short, 100_000_000, 100, 1_000),
        Ok(100_095_000)
    );
    // a long's liquidation price floors at zero
    assert_eq!(
        compute_liquidation_price(&PositionSide::Long, 1_000, 100, 1),
        Ok(0)
    );
    // zero size has no liquidation price
    assert_eq!(
        compute_liquidation_price(&PositionSide::Long, 1_000, 100, 0),
        Ok(0)
    );
}

#[test]
fn lending_health_is_infinite_without_debt() {
    assert_eq!(compute_lending_health_factor(500, 0), Ok(u128::MAX));
    assert_eq!(
        compute_lending_health_factor(8 * WAD, 4 * WAD),
        Ok(2 * WAD)
    );
}

#[test]
fn funding_rate_is_clamped_imbalance_fraction() {
    let mut ex = exchange();
    let mut m = market(&mut ex);
    // heavy long imbalance clamps at the 1% cap
    m.long_open_interest = 1_500;
    m.short_open_interest = 500;
    assert_eq!(calculate_funding_rate(&m), Ok(10_000_000_000_000_000));
    // mirrored imbalance clamps at the negative cap
    m.long_open_interest = 500;
    m.short_open_interest = 1_500;
    assert_eq!(calculate_funding_rate(&m), Ok(-10_000_000_000_000_000));
    // a small imbalance stays inside the clamp
    m.long_open_interest = 1_000_003;
    m.short_open_interest = 1_000_001;
    assert_eq!(calculate_funding_rate(&m), Ok(999_998_000_003));
    // an empty market has no funding
    m.long_open_interest = 0;
    m.short_open_interest = 0;
    assert_eq!(calculate_funding_rate(&m), Ok(0));
}

#[test]
fn position_funding_settles_against_the_snapshot() {
    // size 100 against an index moved by 0.01 WAD: pays 1
    let r = compute_position_funding(100, true, 20_000_000_000_000_000, 0, 10_000_000_000_000_000);
    assert_eq!(r, Ok(1));
    // the short side reads the short index
    let r = compute_position_funding(100, false, 0, -50_000_000_000_000_000, 0);
    assert_eq!(r, Ok(-5));
}

#[test]
fn funding_update_moves_indices_in_opposite_directions() {
    let mut ex = exchange();
    let mut m = market(&mut ex);
    m.long_open_interest = 1_500;
    m.short_open_interest = 500;
    assert_eq!(update_funding_rate(&mut m, 3_600), Ok(()));
    assert_eq!(m.funding_rate, 10_000_000_000_000_000);
    assert_eq!(m.cumulative_funding_long, 10_000_000_000_000_000);
    assert_eq!(m.cumulative_funding_short, -10_000_000_000_000_000);
    assert_eq!(m.cumulative_funding_long + m.cumulative_funding_short, 0);
    assert_eq!(m.last_funding_update, 3_600);
    // a second update inside the interval is rejected
    assert_eq!(
        update_funding_rate(&mut m, 3_601),
        Err(ErrorCode::FundingIntervalNotElapsed)
    );
}

#[test]
fn open_position_books_oi_and_user_stats() {
    let mut ex = exchange();
    let mut m = market(&mut ex);
    let mut u = user(&mut ex);
    let params = OpenPositionParams { is_long: true, size: 100, collateral: 10 };
    let p = open_position(&ex, &mut u, &mut m, params, 1_000_000, 50).unwrap();
    assert_eq!(p.side, PositionSide::Long);
    assert_eq!(p.size, 100);
    assert_eq!(p.collateral, 10);
    assert_eq!(p.entry_price, 1_000_000);
    assert_eq!(p.leverage, 10);
    assert_eq!(p.liquidation_price, 905_000);
    assert_eq!(m.long_open_interest, 100);
    assert_eq!(u.open_perp_positions, 1);
    assert_eq!(u.total_trades, 1);
    assert_eq!(u.total_volume, 100);
}

#[test]
fn open_position_rejects_bad_inputs_in_order() {
    let mut ex = exchange();
    let mut m = market(&mut ex);
    let mut u = user(&mut ex);
    let ok = OpenPositionParams { is_long: true, size: 100, collateral: 10 };

    let mut paused = ex;
    paused.perp_paused = true;
    assert_eq!(
        open_position(&paused, &mut u, &mut m, ok, 1_000_000, 0),
        Err(ErrorCode::ExchangePaused)
    );
    assert_eq!(
        open_position(
            &ex,
            &mut u,
            &mut m,
            OpenPositionParams { size: 0, ..ok },
            1_000_000,
            0
        ),
        Err(ErrorCode::PositionTooSmall)
    );
    assert_eq!(
        open_position(
            &ex,
            &mut u,
            &mut m,
            OpenPositionParams { collateral: 0, ..ok },
            1_000_000,
            0
        ),
        Err(ErrorCode::InsufficientCollateral)
    );
    // leverage 20 exceeds the market cap of 10
    assert_eq!(
        open_position(
            &ex,
            &mut u,
            &mut m,
            OpenPositionParams { collateral: 5, ..ok },
            1_000_000,
            0
        ),
        Err(ErrorCode::ExcessiveLeverage)
    );
    // size below the market minimum
    assert_eq!(
        open_position(
            &ex,
            &mut u,
            &mut m,
            OpenPositionParams { size: 5, collateral: 1, ..ok },
            1_000_000,
            0
        ),
        Err(ErrorCode::PositionTooSmall)
    );
    // open interest limit
    m.max_open_interest = 50;
    assert_eq!(
        open_position(&ex, &mut u, &mut m, ok, 1_000_000, 0),
        Err(ErrorCode::OpenInterestLimitExceeded)
    );
    m.max_open_interest = 1_000_000;
    // position slots exhausted
    u.open_perp_positions = 10;
    assert_eq!(
        open_position(&ex, &mut u, &mut m, ok, 1_000_000, 0),
        Err(ErrorCode::MaxPerpPositionsReached)
    );
}

#[test]
fn close_position_settles_pnl_funding_and_fee() {
    let mut ex = exchange();
    let mut m = market(&mut ex);
    let mut u = user(&mut ex);
    let params = OpenPositionParams { is_long: true, size: 100, collateral: 10 };
    let p = open_position(&ex, &mut u, &mut m, params, 1_000_000, 0).unwrap();
    // price rises 10%: pnl = 100 * 100_000 / 1e6 = 10; notional 110 at
    // 10 bps gives fee 0
    let outcome = close_position(&ex, &mut u, &mut m, &p, 1_100_000, 60).unwrap();
    assert_eq!(outcome.pnl, 10);
    assert_eq!(outcome.funding_payment, 0);
    assert_eq!(outcome.fee, 0);
    assert_eq!(outcome.payout, 20);
    assert_eq!(m.long_open_interest, 0);
    assert_eq!(u.open_perp_positions, 0);
    assert_eq!(u.total_pnl, 10);
}

#[test]
fn liquidate_perp_rejects_a_healthy_position() {
    let mut ex = exchange();
    let mut m = market(&mut ex);
    let mut u = user(&mut ex);
    let params = OpenPositionParams { is_long: true, size: 100, collateral: 10 };
    let p = open_position(&ex, &mut u, &mut m, params, 1_000_000, 0).unwrap();
    assert_eq!(
        liquidate_perp(&ex, &mut u, &mut m, &p, 1_000_000),
        Err(ErrorCode::NotLiquidatable)
    );
}

#[test]
fn liquidate_perp_settles_an_unhealthy_position() {
    let mut ex = exchange();
    let mut m = market(&mut ex);
    let mut u = user(&mut ex);
    let params = OpenPositionParams { is_long: true, size: 100, collateral: 10 };
    let p = open_position(&ex, &mut u, &mut m, params, 1_000_000, 0).unwrap();
    // at 905_000 the pnl is -9, health 1/90 of a notional in bps: 111
    let outcome = liquidate_perp(&ex, &mut u, &mut m, &p, 905_000).unwrap();
    assert_eq!(outcome.pnl, -9);
    assert_eq!(outcome.health_factor, 111);
    assert_eq!(outcome.liquidator_reward, 0);
    assert_eq!(m.long_open_interest, 0);
    assert_eq!(u.open_perp_positions, 0);
    assert_eq!(u.total_pnl, -9);
}

#[test]
fn perp_health_rises_with_collateral_and_falls_with_notional() {
    let mut last: u64 = 0;
    for collateral in [1u64, 10, 100, 1_000, 10_000] {
        let h = compute_perp_health_factor(collateral, 0, 0, 1_000, 1_000_000).unwrap();
        assert!(h >= last);
        last = h;
    }
    let mut last: u64 = u64::MAX;
    for size in [100u64, 1_000, 10_000, 100_000] {
        let h = compute_perp_health_factor(1_000, 0, 0, size, 1_000_000).unwrap();
        assert!(h <= last);
        last = h;
    }
}

#[test]
fn lending_health_rises_with_collateral_and_falls_with_debt() {
    let mut last: u128 = 0;
    for wc in [1u128, 10, 100, 1_000] {
        let h = compute_lending_health_factor(wc, 50).unwrap();
        assert!(h >= last);
        last = h;
    }
    let mut last: u128 = u128::MAX;
    for bv in [1u128, 10, 100, 1_000] {
        let h = compute_lending_health_factor(50, bv).unwrap();
        assert!(h <= last);
        last = h;
    }
}
