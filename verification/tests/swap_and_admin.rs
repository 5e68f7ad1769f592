use beethoven::errors::ErrorCode;
use beethoven::setup::{
    collect_fees, create_lending_pool, create_perp_market, initialize_exchange,
    CreateLendingPoolParams, CreatePerpMarketParams, InitializeExchangeParams,
};
use beethoven::state::VaultState;
use beethoven::swap::{execute_swap, ExecuteSwapParams};

fn exchange_params() -> InitializeExchangeParams {
    InitializeExchangeParams {
        swap_fee_bps: 50,
        perp_open_fee_bps: 10,
        perp_close_fee_bps: 10,
        lending_fee_bps: 100,
        max_leverage: 20,
        liquidation_bonus_bps: 500,
        max_liquidation_fraction_bps: 5_000,
    }
}

#[test]
fn initialize_exchange_caps_fees_and_leverage() {
    assert!(initialize_exchange(exchange_params()).is_ok());
    let mut p = exchange_params();
    p.swap_fee_bps = 101;
    assert_eq!(initialize_exchange(p), Err(ErrorCode::FeeExceedsMaximum));
    let mut p = exchange_params();
    p.perp_close_fee_bps = 51;
    assert_eq!(initialize_exchange(p), Err(ErrorCode::FeeExceedsMaximum));
    let mut p = exchange_params();
    p.max_leverage = 51;
    assert_eq!(initialize_exchange(p), Err(ErrorCode::LeverageOutOfBounds));
    let mut p = exchange_params();
    p.max_leverage = 0;
    assert_eq!(initialize_exchange(p), Err(ErrorCode::LeverageOutOfBounds));
}

#[test]
fn create_perp_market_starts_mirrored_and_counts() {
    let mut ex = initialize_exchange(exchange_params()).unwrap();
    let m = create_perp_market(
        &mut ex,
        CreatePerpMarketParams {
            market_index: 1,
            max_leverage: 10,
            min_position_size: 1,
            max_open_interest: 1_000,
        },
        42,
    )
    .unwrap();
    assert_eq!(m.cumulative_funding_long, 0);
    assert_eq!(m.cumulative_funding_short, 0);
    assert_eq!(m.last_funding_update, 42);
    assert_eq!(ex.total_perp_markets, 1);
    // leverage out of the allowed band
    let r = create_perp_market(
        &mut ex,
        CreatePerpMarketParams {
            market_index: 2,
            max_leverage: 51,
            min_position_size: 1,
            max_open_interest: 1_000,
        },
        42,
    );
    assert_eq!(r, Err(ErrorCode::LeverageOutOfBounds));
    assert_eq!(ex.total_perp_markets, 1);
}

#[test]
fn create_lending_pool_rejects_a_collateral_factor_above_one() {
    let mut ex = initialize_exchange(exchange_params()).unwrap();
    let r = create_lending_pool(
        &mut ex,
        CreateLendingPoolParams {
            pool_index: 0,
            optimal_utilization: 800_000_000_000_000_000,
            base_rate: 0,
            slope1: 0,
            slope2: 0,
            collateral_factor: 1_000_000_000_000_000_001,
            deposit_limit: 0,
            borrow_limit: 0,
        },
        0,
    );
    assert_eq!(r, Err(ErrorCode::InvalidCollateralFactor));
    assert_eq!(ex.total_lending_pools, 0);
}

#[test]
fn collect_fees_draws_down_the_counter() {
    let mut v = VaultState { collected_fees: 100, insurance_balance: 0 };
    assert_eq!(collect_fees(&mut v, 0), Err(ErrorCode::InvalidAmount));
    assert_eq!(collect_fees(&mut v, 150), Err(ErrorCode::InsufficientVaultBalance));
    assert_eq!(collect_fees(&mut v, 40), Ok(()));
    assert_eq!(v.collected_fees, 60);
}

#[test]
fn swap_settlement_books_fee_and_output() {
    let ex = initialize_exchange(exchange_params()).unwrap();
    let mut user = beethoven::setup::create_user_account(&mut ex.clone(), 0).unwrap();
    let mut vault = VaultState { collected_fees: 0, insurance_balance: 0 };
    let params = ExecuteSwapParams { amount_in: 10_000, minimum_amount_out: 9_000 };
    let outcome = execute_swap(&ex, &mut user, &mut vault, params, 500, 10_400, 77).unwrap();
    assert_eq!(outcome.fee, 50);
    assert_eq!(outcome.amount_routed, 9_950);
    assert_eq!(outcome.amount_out, 9_900);
    assert_eq!(vault.collected_fees, 50);
    assert_eq!(user.total_trades, 1);
    assert_eq!(user.total_volume, 10_000);
    assert_eq!(user.total_fees_paid, 50);
}

#[test]
fn swap_settlement_rejects_bad_fills() {
    let ex = initialize_exchange(exchange_params()).unwrap();
    let mut user = beethoven::setup::create_user_account(&mut ex.clone(), 0).unwrap();
    let mut vault = VaultState { collected_fees: 0, insurance_balance: 0 };
    let params = ExecuteSwapParams { amount_in: 10_000, minimum_amount_out: 9_901 };
    assert_eq!(
        execute_swap(&ex, &mut user, &mut vault, params, 500, 500, 77),
        Err(ErrorCode::SwapOutputZero)
    );
    assert_eq!(
        execute_swap(&ex, &mut user, &mut vault, params, 500, 10_400, 77),
        Err(ErrorCode::SlippageExceeded)
    );
    let zero = ExecuteSwapParams { amount_in: 0, minimum_amount_out: 0 };
    assert_eq!(
        execute_swap(&ex, &mut user, &mut vault, zero, 0, 0, 77),
        Err(ErrorCode::InvalidAmount)
    );
    let mut paused = ex;
    paused.swap_paused = true;
    assert_eq!(
        execute_swap(&paused, &mut user, &mut vault, params, 500, 10_400, 77),
        Err(ErrorCode::ExchangePaused)
    );
    assert_eq!(user.total_trades, 0);
    assert_eq!(vault.collected_fees, 0);
}
