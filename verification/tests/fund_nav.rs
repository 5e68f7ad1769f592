use beethoven::constants::WAD;
use beethoven::errors::ErrorCode;
use beethoven::fund_ops::{
    deposit_to_fund, initialize_fund, update_fund_nav, withdraw_from_fund, InitializeFundParams,
};
use beethoven::nav::calculate_total_nav;
use beethoven::state::{Fund, FundHolding, FundStatus, HoldingType};

fn fund() -> Fund {
    initialize_fund(
        InitializeFundParams { performance_fee_bps: 1_000, management_fee_bps: 100 },
        100,
    )
    .unwrap()
}

fn holding(amount: u64, holding_type: HoldingType) -> FundHolding {
    FundHolding { amount, value_usd: 0, holding_type, holding_index: 0, last_updated: 0 }
}

#[test]
fn new_fund_prices_shares_at_one() {
    let f = fund();
    assert_eq!(f.nav_per_share, WAD);
    assert_eq!(f.high_water_mark, WAD);
    assert_eq!(f.total_shares, 0);
    assert_eq!(f.status, FundStatus::Active);
}

#[test]
fn initialize_fund_caps_fees() {
    let r = initialize_fund(
        InitializeFundParams { performance_fee_bps: 2_001, management_fee_bps: 0 },
        0,
    );
    assert_eq!(r, Err(ErrorCode::FeeExceedsMaximum));
    let r = initialize_fund(
        InitializeFundParams { performance_fee_bps: 0, management_fee_bps: 501 },
        0,
    );
    assert_eq!(r, Err(ErrorCode::FeeExceedsMaximum));
}

#[test]
fn first_deposit_mints_one_share_per_unit() {
    let mut f = fund();
    assert_eq!(deposit_to_fund(&mut f, 1_000_000), Ok(1_000_000));
    assert_eq!(f.total_shares, 1_000_000);
    assert_eq!(f.total_deposits, 1_000_000);
    assert_eq!(f.nav_per_share, WAD);
}

#[test]
fn later_deposits_mint_at_nav_per_share() {
    let mut f = fund();
    deposit_to_fund(&mut f, 1_000_000).unwrap();
    f.nav_per_share = 1_200_000_000_000_000_000;
    // floor(500_000 * WAD / 1.2 WAD) = 416_666
    assert_eq!(deposit_to_fund(&mut f, 500_000), Ok(416_666));
    assert_eq!(f.total_shares, 1_416_666);
}

#[test]
fn deposits_reject_zero_paused_and_dust() {
    let mut f = fund();
    assert_eq!(deposit_to_fund(&mut f, 0), Err(ErrorCode::InvalidAmount));
    f.status = FundStatus::Paused;
    assert_eq!(deposit_to_fund(&mut f, 10), Err(ErrorCode::FundPaused));
    f.status = FundStatus::Active;
    deposit_to_fund(&mut f, 1_000).unwrap();
    // at an enormous NAV per share a one-unit deposit mints nothing
    f.nav_per_share = u128::MAX / 2;
    assert_eq!(deposit_to_fund(&mut f, 1), Err(ErrorCode::InvalidAmount));
}

#[test]
fn withdrawals_pay_at_nav_per_share() {
    let mut f = fund();
    deposit_to_fund(&mut f, 1_000_000).unwrap();
    f.nav_per_share = 1_200_000_000_000_000_000;
    let r = withdraw_from_fund(&mut f, 100_000, 100_000, 1_000_000);
    assert_eq!(r, Ok(120_000));
    assert_eq!(f.total_shares, 900_000);
}

#[test]
fn withdrawals_respect_shares_liquidity_and_pause() {
    let mut f = fund();
    deposit_to_fund(&mut f, 1_000_000).unwrap();
    assert_eq!(
        withdraw_from_fund(&mut f, 0, 0, 0),
        Err(ErrorCode::InvalidAmount)
    );
    assert_eq!(
        withdraw_from_fund(&mut f, 100, 99, 1_000_000),
        Err(ErrorCode::InsufficientShares)
    );
    assert_eq!(
        withdraw_from_fund(&mut f, 100_000, 100_000, 100),
        Err(ErrorCode::InsufficientFundLiquidity)
    );
    f.status = FundStatus::Paused;
    assert_eq!(
        withdraw_from_fund(&mut f, 100, 100, 1_000),
        Err(ErrorCode::FundPaused)
    );
    // a winding-down fund still honors withdrawals
    f.status = FundStatus::WindingDown;
    assert_eq!(withdraw_from_fund(&mut f, 100_000, 100_000, 1_000_000), Ok(100_000));
}

#[test]
fn nav_of_empty_holdings_is_the_vault_balance() {
    let r = calculate_total_nav(100, &vec![], 0).unwrap();
    assert_eq!(r.total_nav_wad, 100 * WAD);
    assert_eq!(r.nav_per_share_wad, WAD);
}

#[test]
fn nav_prices_each_leg_with_its_sign() {
    // 5 units at price 2.0 add 10.0; 3 units at 1.0 borrowed subtract 3.0
    let holdings = vec![
        (holding(5, HoldingType::Spot), 2_000_000u64),
        (holding(3, HoldingType::LendingBorrow), 1_000_000u64),
    ];
    let r = calculate_total_nav(100, &holdings, 0).unwrap();
    assert_eq!(r.total_nav_wad, 107 * WAD);
}

#[test]
fn nav_is_invariant_under_reordering() {
    let a = (holding(5, HoldingType::Spot), 2_000_000u64);
    let b = (holding(2, HoldingType::PerpShort), 1_000_000u64);
    let c = (holding(7, HoldingType::LendingDeposit), 3_000_000u64);
    let d = (holding(4, HoldingType::PerpLong), 500_000u64);
    let orders = [
        vec![a, b, c, d],
        vec![d, c, b, a],
        vec![b, d, a, c],
        vec![c, a, d, b],
    ];
    let expected = calculate_total_nav(100, &orders[0], 0).unwrap();
    for order in &orders {
        assert_eq!(calculate_total_nav(100, order, 0).unwrap(), expected);
    }
}

#[test]
fn nav_order_decides_only_intermediate_underflow() {
    // with an empty vault, meeting the borrow leg first drags the running
    // total below zero; the asset-first order succeeds
    let borrow_leg = (holding(1, HoldingType::LendingBorrow), 1_000_000u64);
    let asset_leg = (holding(2, HoldingType::Spot), 1_000_000u64);
    assert_eq!(
        calculate_total_nav(0, &vec![borrow_leg, asset_leg], 0),
        Err(ErrorCode::MathUnderflow)
    );
    let r = calculate_total_nav(0, &vec![asset_leg, borrow_leg], 0).unwrap();
    assert_eq!(r.total_nav_wad, WAD);
}

#[test]
fn nav_per_share_divides_by_outstanding_shares() {
    let holdings = vec![(holding(10, HoldingType::Spot), 1_000_000u64)];
    let r = calculate_total_nav(100, &holdings, 110).unwrap();
    assert_eq!(r.total_nav_wad, 110 * WAD);
    assert_eq!(r.nav_per_share_wad, WAD);
}

#[test]
fn update_fund_nav_ratchets_the_high_water_mark() {
    let mut f = fund();
    f.total_shares = 100;
    let growing = vec![(holding(10, HoldingType::Spot), 1_000_000u64)];
    assert_eq!(update_fund_nav(&mut f, 100, &growing, 200), Ok(()));
    assert_eq!(f.total_nav, 110 * WAD);
    assert_eq!(f.nav_per_share, 1_100_000_000_000_000_000);
    assert_eq!(f.high_water_mark, 1_100_000_000_000_000_000);
    assert_eq!(f.last_nav_update, 200);
    // NAV falls back: the mark holds
    assert_eq!(update_fund_nav(&mut f, 100, &vec![], 300), Ok(()));
    assert_eq!(f.nav_per_share, WAD);
    assert_eq!(f.high_water_mark, 1_100_000_000_000_000_000);
}
