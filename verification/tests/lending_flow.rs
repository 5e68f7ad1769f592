use beethoven::constants::WAD;
use beethoven::errors::ErrorCode;
use beethoven::lending::{
    borrow, deposit_collateral, liquidate_lending, repay, withdraw_collateral,
};
use beethoven::setup::{
    create_lending_pool, create_user_account, initialize_exchange, CreateLendingPoolParams,
    InitializeExchangeParams,
};
use beethoven::state::{Exchange, LendingPool, LendingPosition, UserAccount};

fn exchange() -> Exchange {
    initialize_exchange(InitializeExchangeParams {
        swap_fee_bps: 50,
        perp_open_fee_bps: 10,
        perp_close_fee_bps: 10,
        lending_fee_bps: 100,
        max_leverage: 20,
        liquidation_bonus_bps: 500,
        max_liquidation_fraction_bps: 5_000,
    })
    .unwrap()
}

fn pool(ex: &mut Exchange) -> LendingPool {
    create_lending_pool(
        ex,
        CreateLendingPoolParams {
            pool_index: 0,
            optimal_utilization: 800_000_000_000_000_000,
            base_rate: 20_000_000_000_000_000,
            slope1: 40_000_000_000_000_000,
            slope2: 750_000_000_000_000_000,
            collateral_factor: 800_000_000_000_000_000,
            deposit_limit: 0,
            borrow_limit: 0,
        },
        1,
    )
    .unwrap()
}

fn user(ex: &mut Exchange) -> UserAccount {
    create_user_account(ex, 0).unwrap()
}

const PRICE: u64 = 1_000_000;

#[test]
fn deposit_stamps_a_fresh_position() {
    let mut ex = exchange();
    let mut p = pool(&mut ex);
    let mut pos = LendingPosition::empty();
    let mut u = user(&mut ex);
    assert_eq!(deposit_collateral(&ex, &mut p, &mut pos, &mut u, 1_000, 1), Ok(()));
    assert_eq!(p.total_deposits, 1_000);
    assert_eq!(pos.deposited_amount, 1_000);
    assert_eq!(pos.cumulative_deposit_rate_snapshot, WAD);
    assert_eq!(pos.cumulative_borrow_rate_snapshot, WAD);
    assert_eq!(u.open_lending_positions, 1);
    // a second deposit does not take another slot
    assert_eq!(deposit_collateral(&ex, &mut p, &mut pos, &mut u, 500, 2), Ok(()));
    assert_eq!(pos.deposited_amount, 1_500);
    assert_eq!(u.open_lending_positions, 1);
}

#[test]
fn deposit_rejects_zero_pauses_and_limits() {
    let mut ex = exchange();
    let mut p = pool(&mut ex);
    let mut pos = LendingPosition::empty();
    let mut u = user(&mut ex);
    assert_eq!(
        deposit_collateral(&ex, &mut p, &mut pos, &mut u, 0, 1),
        Err(ErrorCode::InvalidAmount)
    );
    let mut paused = ex;
    paused.lending_paused = true;
    assert_eq!(
        deposit_collateral(&paused, &mut p, &mut pos, &mut u, 10, 1),
        Err(ErrorCode::ExchangePaused)
    );
    p.deposit_limit = 100;
    assert_eq!(
        deposit_collateral(&ex, &mut p, &mut pos, &mut u, 101, 1),
        Err(ErrorCode::InvalidAmount)
    );
}

#[test]
fn deposit_rejects_a_full_slot_table() {
    let mut ex = exchange();
    let mut p = pool(&mut ex);
    let mut pos = LendingPosition::empty();
    let mut u = user(&mut ex);
    u.open_lending_positions = 255;
    assert_eq!(
        deposit_collateral(&ex, &mut p, &mut pos, &mut u, 10, 1),
        Err(ErrorCode::MaxLendingPositionsReached)
    );
}

#[test]
fn borrow_requires_liquidity_and_health() {
    let mut ex = exchange();
    let mut p = pool(&mut ex);
    let mut pos = LendingPosition::empty();
    let mut u = user(&mut ex);
    deposit_collateral(&ex, &mut p, &mut pos, &mut u, 1_000, 1).unwrap();
    // 500 against 1000 deposited at factor 0.8: health 1.6, fine
    assert_eq!(borrow(&ex, &mut p, &mut pos, 500, PRICE, 1), Ok(()));
    assert_eq!(p.total_borrows, 500);
    assert_eq!(pos.borrowed_amount, 500);
    // only 500 of liquidity is left
    assert_eq!(
        borrow(&ex, &mut p, &mut pos, 600, PRICE, 1),
        Err(ErrorCode::InsufficientPoolLiquidity)
    );
    // 400 more would put the debt at 900 > 800 weighted collateral
    assert_eq!(
        borrow(&ex, &mut p, &mut pos, 400, PRICE, 1),
        Err(ErrorCode::InsufficientCollateralValue)
    );
}

#[test]
fn withdraw_protects_an_indebted_position() {
    let mut ex = exchange();
    let mut p = pool(&mut ex);
    let mut pos = LendingPosition::empty();
    let mut u = user(&mut ex);
    deposit_collateral(&ex, &mut p, &mut pos, &mut u, 1_000, 1).unwrap();
    borrow(&ex, &mut p, &mut pos, 500, PRICE, 1).unwrap();
    // withdrawing 600 leaves 400 * 0.8 = 320 against 500 of debt
    assert_eq!(
        withdraw_collateral(&mut p, &mut pos, 600, PRICE, 1),
        Err(ErrorCode::WithdrawalWouldLiquidate)
    );
    // withdrawing 300 leaves 700 * 0.8 = 560 against 500, still healthy
    assert_eq!(withdraw_collateral(&mut p, &mut pos, 300, PRICE, 1), Ok(()));
    assert_eq!(pos.deposited_amount, 700);
    assert_eq!(p.total_deposits, 700);
    // more than the position holds
    assert_eq!(
        withdraw_collateral(&mut p, &mut pos, 701, PRICE, 1),
        Err(ErrorCode::InsufficientCollateralValue)
    );
}

#[test]
fn repay_caps_at_the_live_debt() {
    let mut ex = exchange();
    let mut p = pool(&mut ex);
    let mut pos = LendingPosition::empty();
    let mut u = user(&mut ex);
    deposit_collateral(&ex, &mut p, &mut pos, &mut u, 1_000, 1).unwrap();
    borrow(&ex, &mut p, &mut pos, 500, PRICE, 1).unwrap();
    assert_eq!(repay(&mut p, &mut pos, 200, 1), Ok(200));
    assert_eq!(pos.borrowed_amount, 300);
    assert_eq!(p.total_borrows, 300);
    // offering more than the debt repays exactly the debt
    assert_eq!(repay(&mut p, &mut pos, 1_000, 1), Ok(300));
    assert_eq!(pos.borrowed_amount, 0);
    assert_eq!(p.total_borrows, 0);
    // nothing left to repay
    assert_eq!(repay(&mut p, &mut pos, 10, 1), Err(ErrorCode::InvalidAmount));
}

#[test]
fn liquidation_rejects_a_healthy_position() {
    let mut ex = exchange();
    let mut p = pool(&mut ex);
    let mut pos = LendingPosition::empty();
    let mut u = user(&mut ex);
    deposit_collateral(&ex, &mut p, &mut pos, &mut u, 1_000, 1).unwrap();
    borrow(&ex, &mut p, &mut pos, 500, PRICE, 1).unwrap();
    assert_eq!(
        liquidate_lending(&ex, &mut p, &mut pos, 100, PRICE, 1),
        Err(ErrorCode::LendingNotLiquidatable)
    );
}

#[test]
fn liquidation_caps_repay_and_seizes_with_bonus() {
    let mut ex = exchange();
    let mut p = pool(&mut ex);
    p.total_deposits = 1_000;
    p.total_borrows = 900;
    let mut pos = LendingPosition {
        deposited_amount: 1_000,
        borrowed_amount: 900,
        cumulative_deposit_rate_snapshot: WAD,
        cumulative_borrow_rate_snapshot: WAD,
        last_updated: 1,
    };
    // weighted collateral 800 against 900 of debt: health 0.88, liquidatable;
    // half the debt (450) can be repaid, seizing 450 + 5% bonus = 472
    let outcome = liquidate_lending(&ex, &mut p, &mut pos, 1_000, PRICE, 1).unwrap();
    assert_eq!(outcome.debt_repaid, 450);
    assert_eq!(outcome.liquidation_bonus, 22);
    assert_eq!(outcome.collateral_seized, 472);
    assert_eq!(pos.borrowed_amount, 450);
    assert_eq!(pos.deposited_amount, 528);
    assert_eq!(p.total_borrows, 450);
    assert_eq!(p.total_deposits, 528);
}

#[test]
fn liquidation_seizure_is_capped_by_the_deposit() {
    let mut ex = exchange();
    let mut p = pool(&mut ex);
    p.total_deposits = 100;
    p.total_borrows = 900;
    let mut pos = LendingPosition {
        deposited_amount: 100,
        borrowed_amount: 900,
        cumulative_deposit_rate_snapshot: WAD,
        cumulative_borrow_rate_snapshot: WAD,
        last_updated: 1,
    };
    // the 450 + bonus seizure cannot exceed the 100 deposited: the
    // shortfall is not an error
    let outcome = liquidate_lending(&ex, &mut p, &mut pos, 1_000, PRICE, 1).unwrap();
    assert_eq!(outcome.debt_repaid, 450);
    assert_eq!(outcome.collateral_seized, 100);
    assert_eq!(pos.deposited_amount, 0);
    assert_eq!(pos.borrowed_amount, 450);
}
