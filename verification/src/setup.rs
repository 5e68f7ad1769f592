//! Administrative setup: the exchange configuration, new markets and
//! pools, user accounts and fee collection.

use vstd::prelude::*;

use crate::constants::{
    MAX_LEVERAGE, MAX_PERP_FEE_BPS, MAX_SWAP_FEE_BPS, MIN_LEVERAGE, WAD,
};
use crate::errors::ErrorCode;
use crate::state::{Exchange, LendingPool, PerpMarket, UserAccount, VaultState};

verus! {

/// Parameters of a new exchange: fees, the leverage cap and liquidation
/// settings.
#[derive(Clone, Copy, Debug, PartialEq, Eq, Structural)]
pub struct InitializeExchangeParams {
    pub swap_fee_bps: u64,
    pub perp_open_fee_bps: u64,
    pub perp_close_fee_bps: u64,
    pub lending_fee_bps: u64,
    pub max_leverage: u64,
    pub liquidation_bonus_bps: u64,
    pub max_liquidation_fraction_bps: u64,
}

/// Create the exchange configuration.
///
/// The swap fee and both perpetual fees must not exceed their caps
/// (`FeeExceedsMaximum`, checked in that order) and the leverage cap must
/// sit within the allowed band (`LeverageOutOfBounds`). A new exchange
/// runs unpaused with zeroed counters.
pub fn initialize_exchange(params: InitializeExchangeParams) -> (r: Result<Exchange, ErrorCode>)
    ensures
        params.swap_fee_bps > MAX_SWAP_FEE_BPS ==> r == Err::<Exchange, ErrorCode>(
            ErrorCode::FeeExceedsMaximum,
        ),
        params.swap_fee_bps <= MAX_SWAP_FEE_BPS && (params.perp_open_fee_bps > MAX_PERP_FEE_BPS
            || params.perp_close_fee_bps > MAX_PERP_FEE_BPS) ==> r == Err::<Exchange, ErrorCode>(
            ErrorCode::FeeExceedsMaximum,
        ),
        params.swap_fee_bps <= MAX_SWAP_FEE_BPS && params.perp_open_fee_bps <= MAX_PERP_FEE_BPS
            && params.perp_close_fee_bps <= MAX_PERP_FEE_BPS && !(MIN_LEVERAGE
            <= params.max_leverage <= MAX_LEVERAGE) ==> r == Err::<Exchange, ErrorCode>(
            ErrorCode::LeverageOutOfBounds,
        ),
        params.swap_fee_bps <= MAX_SWAP_FEE_BPS && params.perp_open_fee_bps <= MAX_PERP_FEE_BPS
            && params.perp_close_fee_bps <= MAX_PERP_FEE_BPS && MIN_LEVERAGE <= params.max_leverage
            <= MAX_LEVERAGE ==> r == Ok::<Exchange, ErrorCode>(Exchange {
            swap_fee_bps: params.swap_fee_bps,
            perp_open_fee_bps: params.perp_open_fee_bps,
            perp_close_fee_bps: params.perp_close_fee_bps,
            lending_fee_bps: params.lending_fee_bps,
            max_leverage: params.max_leverage,
            liquidation_bonus_bps: params.liquidation_bonus_bps,
            max_liquidation_fraction_bps: params.max_liquidation_fraction_bps,
            swap_paused: false,
            perp_paused: false,
            lending_paused: false,
            total_perp_markets: 0,
            total_lending_pools: 0,
            total_users: 0,
        }),
{
    if params.swap_fee_bps > MAX_SWAP_FEE_BPS {
        return Err(ErrorCode::FeeExceedsMaximum);
    }
    if params.perp_open_fee_bps > MAX_PERP_FEE_BPS {
        return Err(ErrorCode::FeeExceedsMaximum);
    }
    if params.perp_close_fee_bps > MAX_PERP_FEE_BPS {
        return Err(ErrorCode::FeeExceedsMaximum);
    }
    if params.max_leverage < MIN_LEVERAGE || params.max_leverage > MAX_LEVERAGE {
        return Err(ErrorCode::LeverageOutOfBounds);
    }
    Ok(
        Exchange {
            swap_fee_bps: params.swap_fee_bps,
            perp_open_fee_bps: params.perp_open_fee_bps,
            perp_close_fee_bps: params.perp_close_fee_bps,
            lending_fee_bps: params.lending_fee_bps,
            max_leverage: params.max_leverage,
            liquidation_bonus_bps: params.liquidation_bonus_bps,
            max_liquidation_fraction_bps: params.max_liquidation_fraction_bps,
            swap_paused: false,
            perp_paused: false,
            lending_paused: false,
            total_perp_markets: 0,
            total_lending_pools: 0,
            total_users: 0,
        },
    )
}

/// Parameters of a new perpetual market.
#[derive(Clone, Copy, Debug, PartialEq, Eq, Structural)]
pub struct CreatePerpMarketParams {
    pub market_index: u16,
    pub max_leverage: u64,
    pub min_position_size: u64,
    pub max_open_interest: u64,
}

/// Create a perpetual market under the exchange.
///
/// The market's leverage cap must sit within the allowed band
/// (`LeverageOutOfBounds`). A new market starts unpaused with no open
/// interest and both cumulative funding indices at zero — mirror images
/// from the start — and its funding clock at `now`. The exchange's
/// market counter advances; on failure it is unchanged.
pub fn create_perp_market(exchange: &mut Exchange, params: CreatePerpMarketParams, now: i64) -> (r:
    Result<PerpMarket, ErrorCode>)
    ensures
        !(MIN_LEVERAGE <= params.max_leverage <= MAX_LEVERAGE) ==> r == Err::<
            PerpMarket,
            ErrorCode,
        >(ErrorCode::LeverageOutOfBounds) && *final(exchange) == *old(exchange),
        MIN_LEVERAGE <= params.max_leverage <= MAX_LEVERAGE && old(exchange).total_perp_markets + 1
            > u64::MAX ==> r == Err::<PerpMarket, ErrorCode>(ErrorCode::MathOverflow)
            && *final(exchange) == *old(exchange),
        MIN_LEVERAGE <= params.max_leverage <= MAX_LEVERAGE && old(exchange).total_perp_markets + 1
            <= u64::MAX ==> {
            &&& r == Ok::<PerpMarket, ErrorCode>(PerpMarket {
                market_index: params.market_index,
                max_leverage: params.max_leverage,
                min_position_size: params.min_position_size,
                long_open_interest: 0,
                short_open_interest: 0,
                max_open_interest: params.max_open_interest,
                funding_rate: 0,
                cumulative_funding_long: 0,
                cumulative_funding_short: 0,
                last_funding_update: now,
                paused: false,
            })
            &&& *final(exchange) == (Exchange {
                total_perp_markets: (old(exchange).total_perp_markets + 1) as u64,
                ..*old(exchange)
            })
            &&& r->Ok_0.funding_mirrored()
        },
{
    if params.max_leverage < MIN_LEVERAGE || params.max_leverage > MAX_LEVERAGE {
        return Err(ErrorCode::LeverageOutOfBounds);
    }
    let new_count: u64 = match exchange.total_perp_markets.checked_add(1) {
        Some(v) => v,
        None => {
            return Err(ErrorCode::MathOverflow);
        },
    };
    exchange.total_perp_markets = new_count;
    Ok(
        PerpMarket {
            market_index: params.market_index,
            max_leverage: params.max_leverage,
            min_position_size: params.min_position_size,
            long_open_interest: 0,
            short_open_interest: 0,
            max_open_interest: params.max_open_interest,
            funding_rate: 0,
            cumulative_funding_long: 0,
            cumulative_funding_short: 0,
            last_funding_update: now,
            paused: false,
        },
    )
}

/// Parameters of a new lending pool: its rate curve, collateral factor
/// and limits.
#[derive(Clone, Copy, Debug, PartialEq, Eq, Structural)]
pub struct CreateLendingPoolParams {
    pub pool_index: u16,
    pub optimal_utilization: u128,
    pub base_rate: u128,
    pub slope1: u128,
    pub slope2: u128,
    pub collateral_factor: u128,
    pub deposit_limit: u64,
    pub borrow_limit: u64,
}

/// Create a lending pool under the exchange.
///
/// The collateral factor must not exceed 1.0 WAD
/// (`InvalidCollateralFactor`). A new pool starts unpaused and empty with
/// both cumulative indices at exactly 1.0 WAD and its accrual clock at
/// `now`, so it is well-formed. The exchange's pool counter advances; on
/// failure it is unchanged.
pub fn create_lending_pool(exchange: &mut Exchange, params: CreateLendingPoolParams, now: i64) -> (r:
    Result<LendingPool, ErrorCode>)
    requires
        now >= 0,
    ensures
        params.collateral_factor > WAD ==> r == Err::<LendingPool, ErrorCode>(
            ErrorCode::InvalidCollateralFactor,
        ) && *final(exchange) == *old(exchange),
        params.collateral_factor <= WAD && old(exchange).total_lending_pools + 1 > u64::MAX ==> r
            == Err::<LendingPool, ErrorCode>(ErrorCode::MathOverflow)
            && *final(exchange) == *old(exchange),
        params.collateral_factor <= WAD && old(exchange).total_lending_pools + 1 <= u64::MAX ==> {
            &&& r == Ok::<LendingPool, ErrorCode>(LendingPool {
                pool_index: params.pool_index,
                optimal_utilization: params.optimal_utilization,
                base_rate: params.base_rate,
                slope1: params.slope1,
                slope2: params.slope2,
                collateral_factor: params.collateral_factor,
                total_deposits: 0,
                total_borrows: 0,
                cumulative_deposit_rate: WAD,
                cumulative_borrow_rate: WAD,
                last_update_timestamp: now,
                deposit_limit: params.deposit_limit,
                borrow_limit: params.borrow_limit,
                paused: false,
            })
            &&& *final(exchange) == (Exchange {
                total_lending_pools: (old(exchange).total_lending_pools + 1) as u64,
                ..*old(exchange)
            })
            &&& r->Ok_0.wf()
        },
{
    if params.collateral_factor > WAD {
        return Err(ErrorCode::InvalidCollateralFactor);
    }
    let new_count: u64 = match exchange.total_lending_pools.checked_add(1) {
        Some(v) => v,
        None => {
            return Err(ErrorCode::MathOverflow);
        },
    };
    exchange.total_lending_pools = new_count;
    Ok(
        LendingPool {
            pool_index: params.pool_index,
            optimal_utilization: params.optimal_utilization,
            base_rate: params.base_rate,
            slope1: params.slope1,
            slope2: params.slope2,
            collateral_factor: params.collateral_factor,
            total_deposits: 0,
            total_borrows: 0,
            cumulative_deposit_rate: WAD,
            cumulative_borrow_rate: WAD,
            last_update_timestamp: now,
            deposit_limit: params.deposit_limit,
            borrow_limit: params.borrow_limit,
            paused: false,
        },
    )
}

/// Create a user account under the exchange.
///
/// A new account carries no positions and no history, stamped at `now`.
/// The exchange's user counter advances; on failure it is unchanged.
pub fn create_user_account(exchange: &mut Exchange, now: i64) -> (r: Result<
    UserAccount,
    ErrorCode,
>)
    ensures
        old(exchange).total_users + 1 > u64::MAX ==> r == Err::<UserAccount, ErrorCode>(
            ErrorCode::MathOverflow,
        ) && *final(exchange) == *old(exchange),
        old(exchange).total_users + 1 <= u64::MAX ==> {
            &&& r == Ok::<UserAccount, ErrorCode>(UserAccount {
                open_perp_positions: 0,
                open_lending_positions: 0,
                total_trades: 0,
                total_pnl: 0,
                total_volume: 0,
                total_fees_paid: 0,
                created_at: now,
                last_activity: now,
            })
            &&& *final(exchange) == (Exchange {
                total_users: (old(exchange).total_users + 1) as u64,
                ..*old(exchange)
            })
        },
{
    let new_count: u64 = match exchange.total_users.checked_add(1) {
        Some(v) => v,
        None => {
            return Err(ErrorCode::MathOverflow);
        },
    };
    exchange.total_users = new_count;
    Ok(
        UserAccount {
            open_perp_positions: 0,
            open_lending_positions: 0,
            total_trades: 0,
            total_pnl: 0,
            total_volume: 0,
            total_fees_paid: 0,
            created_at: now,
            last_activity: now,
        },
    )
}

/// Collect accumulated fees out of a vault's bookkeeping.
///
/// The amount must be positive (`InvalidAmount`) and covered by the
/// vault's collected fees (`InsufficientVaultBalance`); the fee counter
/// then shrinks by exactly the amount. On failure the vault is
/// unchanged.
pub fn collect_fees(vault_state: &mut VaultState, amount: u64) -> (r: Result<(), ErrorCode>)
    ensures
        amount == 0 ==> r == Err::<(), ErrorCode>(ErrorCode::InvalidAmount) && *final(vault_state)
            == *old(vault_state),
        amount > 0 && old(vault_state).collected_fees < amount ==> r == Err::<(), ErrorCode>(
            ErrorCode::InsufficientVaultBalance,
        ) && *final(vault_state) == *old(vault_state),
        amount > 0 && old(vault_state).collected_fees >= amount ==> r == Ok::<(), ErrorCode>(())
            && *final(vault_state) == (VaultState {
            collected_fees: (old(vault_state).collected_fees - amount) as u64,
            ..*old(vault_state)
        }),
{
    if amount == 0 {
        return Err(ErrorCode::InvalidAmount);
    }
    if vault_state.collected_fees < amount {
        return Err(ErrorCode::InsufficientVaultBalance);
    }
    vault_state.collected_fees = vault_state.collected_fees - amount;
    Ok(())
}

} // verus!
