//! Lending pool operations: deposit, withdraw, borrow, repay and
//! liquidation.
//!
//! Every operation first accrues interest up to the supplied clock, then
//! checks its limits and the position's health before it writes anything:
//! a failed call leaves pool, position and user exactly as they were,
//! accrual included.

use vstd::prelude::*;

use crate::constants::{
    LENDING_LIQUIDATION_THRESHOLD, MAX_LIQUIDATION_FRACTION_BPS, BPS_DENOMINATOR, WAD,
};
use crate::errors::ErrorCode;
use crate::fixed_point::bps_mul;
use crate::interest::{
    accrue_interest, get_borrow_balance, spec_accrue, spec_index_balance_outcome,
};
use crate::liquidation::{compute_lending_health_factor, spec_lending_health};
use crate::fixed_point::wad_mul;
use crate::state::{Exchange, LendingPool, LendingPosition, UserAccount};

verus! {

/// The exact outcome of valuing a position's health at a price: the
/// deposit value weighted by the collateral factor against the borrow
/// value, with each WAD scaling overflow-checked.
pub open spec fn spec_position_health(
    deposit_units: u64,
    borrow_units: u64,
    price: u64,
    collateral_factor: u128,
) -> Result<u128, ErrorCode> {
    let collateral_value = deposit_units * price;
    if collateral_value * collateral_factor > u128::MAX {
        Err(ErrorCode::MathOverflow)
    } else {
        let weighted = (collateral_value * collateral_factor) / (WAD as int);
        let borrow_value = borrow_units * price;
        if borrow_value == 0 {
            Ok(u128::MAX)
        } else if weighted * WAD > u128::MAX {
            Err(ErrorCode::MathOverflow)
        } else {
            Ok(spec_lending_health(weighted, borrow_value) as u128)
        }
    }
}

/// Health of a position's balances at an oracle price.
fn position_health(
    deposit_units: u64,
    borrow_units: u64,
    price: u64,
    collateral_factor: u128,
) -> (r: Result<u128, ErrorCode>)
    ensures
        r == spec_position_health(deposit_units, borrow_units, price, collateral_factor),
{
    assert(deposit_units * price <= u64::MAX * (u64::MAX as int)) by (nonlinear_arith)
        requires
            deposit_units <= u64::MAX,
            price <= u64::MAX,
    ;
    assert(borrow_units * price <= u64::MAX * (u64::MAX as int)) by (nonlinear_arith)
        requires
            borrow_units <= u64::MAX,
            price <= u64::MAX,
    ;
    let collateral_value: u128 = (deposit_units as u128) * (price as u128);
    let weighted: u128 = match wad_mul(collateral_value, collateral_factor) {
        Ok(v) => v,
        Err(e) => {
            return Err(e);
        },
    };
    let borrow_value: u128 = (borrow_units as u128) * (price as u128);
    compute_lending_health_factor(weighted, borrow_value)
}

/// The exact outcome of a deposit: accrual first, then the pool's deposit
/// limit; a fresh position is stamped with the accrued indices and counts
/// against the user's position slots.
pub open spec fn spec_deposit_collateral(
    ex: Exchange,
    pool: LendingPool,
    position: LendingPosition,
    user: UserAccount,
    amount: u64,
    now: i64,
) -> Result<(LendingPool, LendingPosition, UserAccount), ErrorCode> {
    if ex.lending_paused || pool.paused {
        Err(ErrorCode::ExchangePaused)
    } else if amount == 0 {
        Err(ErrorCode::InvalidAmount)
    } else {
        match spec_accrue(pool, now) {
            Err(e) => Err(e),
            Ok(accrued) => {
                if accrued.total_deposits + amount > u64::MAX {
                    Err(ErrorCode::MathOverflow)
                } else if accrued.deposit_limit > 0 && accrued.total_deposits + amount
                    > accrued.deposit_limit {
                    Err(ErrorCode::InvalidAmount)
                } else if position.is_fresh() && user.open_lending_positions + 1 > u8::MAX {
                    Err(ErrorCode::MaxLendingPositionsReached)
                } else if position.deposited_amount + amount > u64::MAX {
                    Err(ErrorCode::MathOverflow)
                } else {
                    let new_pool = LendingPool {
                        total_deposits: (accrued.total_deposits + amount) as u64,
                        ..accrued
                    };
                    let new_position = LendingPosition {
                        deposited_amount: (position.deposited_amount + amount) as u64,
                        cumulative_deposit_rate_snapshot: if position.is_fresh() {
                            accrued.cumulative_deposit_rate
                        } else {
                            position.cumulative_deposit_rate_snapshot
                        },
                        cumulative_borrow_rate_snapshot: if position.is_fresh() {
                            accrued.cumulative_borrow_rate
                        } else {
                            position.cumulative_borrow_rate_snapshot
                        },
                        last_updated: now,
                        ..position
                    };
                    let new_user = UserAccount {
                        open_lending_positions: if position.is_fresh() {
                            (user.open_lending_positions + 1) as u8
                        } else {
                            user.open_lending_positions
                        },
                        last_activity: now,
                        ..user
                    };
                    Ok((new_pool, new_position, new_user))
                }
            },
        }
    }
}

/// Deposit collateral into a pool.
///
/// Checks, in order: lending and the pool are not paused; the amount is
/// positive; accrual succeeds; the pool's deposit limit (when set) is
/// respected. A fresh position — one whose snapshots were never stamped —
/// takes a user position slot and snapshots the accrued indices. On any
/// failure pool, position and user are unchanged.
pub fn deposit_collateral(
    exchange: &Exchange,
    pool: &mut LendingPool,
    position: &mut LendingPosition,
    user: &mut UserAccount,
    amount: u64,
    now: i64,
) -> (r: Result<(), ErrorCode>)
    requires
        old(pool).wf(),
        now >= 0,
    ensures
        ({
            let outcome = spec_deposit_collateral(*exchange, *old(pool), *old(position),
                *old(user), amount, now);
            match outcome {
                Err(e) => r == Err::<(), ErrorCode>(e) && *final(pool) == *old(pool)
                    && *final(position) == *old(position) && *final(user) == *old(user),
                Ok(updated) => r == Ok::<(), ErrorCode>(()) && *final(pool) == updated.0
                    && *final(position) == updated.1 && *final(user) == updated.2,
            }
        }),
        final(pool).wf(),
{
    if exchange.lending_paused || pool.paused {
        return Err(ErrorCode::ExchangePaused);
    }
    if amount == 0 {
        return Err(ErrorCode::InvalidAmount);
    }
    let mut accrued: LendingPool = *pool;
    match accrue_interest(&mut accrued, now) {
        Ok(()) => {},
        Err(e) => {
            return Err(e);
        },
    }
    let new_total: u64 = match accrued.total_deposits.checked_add(amount) {
        Some(v) => v,
        None => {
            return Err(ErrorCode::MathOverflow);
        },
    };
    if accrued.deposit_limit > 0 && new_total > accrued.deposit_limit {
        return Err(ErrorCode::InvalidAmount);
    }
    let fresh: bool = position.cumulative_deposit_rate_snapshot == 0;
    let new_count: u8 = if fresh {
        match user.open_lending_positions.checked_add(1) {
            Some(v) => v,
            None => {
                return Err(ErrorCode::MaxLendingPositionsReached);
            },
        }
    } else {
        user.open_lending_positions
    };
    let new_deposited: u64 = match position.deposited_amount.checked_add(amount) {
        Some(v) => v,
        None => {
            return Err(ErrorCode::MathOverflow);
        },
    };
    *pool = accrued;
    pool.total_deposits = new_total;
    if fresh {
        position.cumulative_deposit_rate_snapshot = accrued.cumulative_deposit_rate;
        position.cumulative_borrow_rate_snapshot = accrued.cumulative_borrow_rate;
    }
    position.deposited_amount = new_deposited;
    position.last_updated = now;
    user.open_lending_positions = new_count;
    user.last_activity = now;
    Ok(())
}

/// The exact outcome of a withdrawal: accrual first, then the position
/// must hold the amount, and a position with debt must stay healthy at
/// the supplied price after the withdrawal.
pub open spec fn spec_withdraw_collateral(
    pool: LendingPool,
    position: LendingPosition,
    amount: u64,
    price: u64,
    now: i64,
) -> Result<(LendingPool, LendingPosition), ErrorCode> {
    if amount == 0 {
        Err(ErrorCode::InvalidAmount)
    } else {
        match spec_accrue(pool, now) {
            Err(e) => Err(e),
            Ok(accrued) => {
                if position.deposited_amount < amount {
                    Err(ErrorCode::InsufficientCollateralValue)
                } else {
                    let health_check = if position.borrowed_amount > 0 {
                        spec_position_health(
                            (position.deposited_amount - amount) as u64,
                            position.borrowed_amount,
                            price,
                            accrued.collateral_factor,
                        )
                    } else {
                        Ok(u128::MAX)
                    };
                    match health_check {
                        Err(e) => Err(e),
                        Ok(health) => {
                            if position.borrowed_amount > 0 && health
                                < LENDING_LIQUIDATION_THRESHOLD {
                                Err(ErrorCode::WithdrawalWouldLiquidate)
                            } else if accrued.total_deposits < amount {
                                Err(ErrorCode::MathUnderflow)
                            } else {
                                let new_pool = LendingPool {
                                    total_deposits: (accrued.total_deposits - amount) as u64,
                                    ..accrued
                                };
                                let new_position = LendingPosition {
                                    deposited_amount: (position.deposited_amount - amount) as u64,
                                    last_updated: now,
                                    ..position
                                };
                                Ok((new_pool, new_position))
                            }
                        },
                    }
                }
            },
        }
    }
}

/// Withdraw collateral from a pool.
///
/// Checks, in order: the amount is positive; accrual succeeds; the
/// position holds at least the amount (`InsufficientCollateralValue`);
/// and, when the position carries debt, its health at the supplied price
/// stays at or above 1.0 WAD after the withdrawal
/// (`WithdrawalWouldLiquidate`). On any failure pool and position are
/// unchanged.
pub fn withdraw_collateral(
    pool: &mut LendingPool,
    position: &mut LendingPosition,
    amount: u64,
    oracle_price: u64,
    now: i64,
) -> (r: Result<(), ErrorCode>)
    requires
        old(pool).wf(),
        now >= 0,
    ensures
        ({
            let outcome = spec_withdraw_collateral(*old(pool), *old(position), amount,
                oracle_price, now);
            match outcome {
                Err(e) => r == Err::<(), ErrorCode>(e) && *final(pool) == *old(pool)
                    && *final(position) == *old(position),
                Ok(updated) => r == Ok::<(), ErrorCode>(()) && *final(pool) == updated.0
                    && *final(position) == updated.1,
            }
        }),
        final(pool).wf(),
{
    if amount == 0 {
        return Err(ErrorCode::InvalidAmount);
    }
    let mut accrued: LendingPool = *pool;
    match accrue_interest(&mut accrued, now) {
        Ok(()) => {},
        Err(e) => {
            return Err(e);
        },
    }
    if position.deposited_amount < amount {
        return Err(ErrorCode::InsufficientCollateralValue);
    }
    if position.borrowed_amount > 0 {
        let health: u128 = match position_health(
            position.deposited_amount - amount,
            position.borrowed_amount,
            oracle_price,
            accrued.collateral_factor,
        ) {
            Ok(v) => v,
            Err(e) => {
                return Err(e);
            },
        };
        if health < LENDING_LIQUIDATION_THRESHOLD {
            return Err(ErrorCode::WithdrawalWouldLiquidate);
        }
    }
    let new_total: u64 = match accrued.total_deposits.checked_sub(amount) {
        Some(v) => v,
        None => {
            return Err(ErrorCode::MathUnderflow);
        },
    };
    *pool = accrued;
    pool.total_deposits = new_total;
    position.deposited_amount = position.deposited_amount - amount;
    position.last_updated = now;
    Ok(())
}

/// The exact outcome of a borrow: accrual first, then pool liquidity and
/// the borrow limit, then the position's health at the supplied price
/// with the new debt included.
pub open spec fn spec_borrow(
    ex: Exchange,
    pool: LendingPool,
    position: LendingPosition,
    amount: u64,
    price: u64,
    now: i64,
) -> Result<(LendingPool, LendingPosition), ErrorCode> {
    if ex.lending_paused || pool.paused {
        Err(ErrorCode::ExchangePaused)
    } else if amount == 0 {
        Err(ErrorCode::InvalidAmount)
    } else {
        match spec_accrue(pool, now) {
            Err(e) => Err(e),
            Ok(accrued) => {
                if accrued.total_deposits < accrued.total_borrows {
                    Err(ErrorCode::InsufficientPoolLiquidity)
                } else if amount > accrued.total_deposits - accrued.total_borrows {
                    Err(ErrorCode::InsufficientPoolLiquidity)
                } else if accrued.total_borrows + amount > u64::MAX {
                    Err(ErrorCode::MathOverflow)
                } else if accrued.borrow_limit > 0 && accrued.total_borrows + amount
                    > accrued.borrow_limit {
                    Err(ErrorCode::InsufficientPoolLiquidity)
                } else if position.borrowed_amount + amount > u64::MAX {
                    Err(ErrorCode::MathOverflow)
                } else {
                    match spec_position_health(
                        position.deposited_amount,
                        (position.borrowed_amount + amount) as u64,
                        price,
                        accrued.collateral_factor,
                    ) {
                        Err(e) => Err(e),
                        Ok(health) => {
                            if health < LENDING_LIQUIDATION_THRESHOLD {
                                Err(ErrorCode::InsufficientCollateralValue)
                            } else {
                                let new_pool = LendingPool {
                                    total_borrows: (accrued.total_borrows + amount) as u64,
                                    ..accrued
                                };
                                let new_position = LendingPosition {
                                    borrowed_amount: (position.borrowed_amount + amount) as u64,
                                    cumulative_borrow_rate_snapshot:
                                        accrued.cumulative_borrow_rate,
                                    last_updated: now,
                                    ..position
                                };
                                Ok((new_pool, new_position))
                            }
                        },
                    }
                }
            },
        }
    }
}

/// Borrow from a pool against the position's deposited collateral.
///
/// Checks, in order: lending and the pool are not paused; the amount is
/// positive; accrual succeeds; the pool has the liquidity and the borrow
/// limit (when set) is respected (`InsufficientPoolLiquidity`); and the
/// position's health at the supplied price, with the new debt included,
/// stays at or above 1.0 WAD (`InsufficientCollateralValue`). On success
/// the position's debt snapshot moves to the accrued borrow index. On
/// any failure pool and position are unchanged.
pub fn borrow(
    exchange: &Exchange,
    pool: &mut LendingPool,
    position: &mut LendingPosition,
    amount: u64,
    oracle_price: u64,
    now: i64,
) -> (r: Result<(), ErrorCode>)
    requires
        old(pool).wf(),
        now >= 0,
    ensures
        ({
            let outcome = spec_borrow(*exchange, *old(pool), *old(position), amount, oracle_price,
                now);
            match outcome {
                Err(e) => r == Err::<(), ErrorCode>(e) && *final(pool) == *old(pool)
                    && *final(position) == *old(position),
                Ok(updated) => r == Ok::<(), ErrorCode>(()) && *final(pool) == updated.0
                    && *final(position) == updated.1,
            }
        }),
        final(pool).wf(),
{
    if exchange.lending_paused || pool.paused {
        return Err(ErrorCode::ExchangePaused);
    }
    if amount == 0 {
        return Err(ErrorCode::InvalidAmount);
    }
    let mut accrued: LendingPool = *pool;
    match accrue_interest(&mut accrued, now) {
        Ok(()) => {},
        Err(e) => {
            return Err(e);
        },
    }
    let available: u64 = match accrued.total_deposits.checked_sub(accrued.total_borrows) {
        Some(v) => v,
        None => {
            return Err(ErrorCode::InsufficientPoolLiquidity);
        },
    };
    if amount > available {
        return Err(ErrorCode::InsufficientPoolLiquidity);
    }
    let new_total_borrows: u64 = match accrued.total_borrows.checked_add(amount) {
        Some(v) => v,
        None => {
            return Err(ErrorCode::MathOverflow);
        },
    };
    if accrued.borrow_limit > 0 && new_total_borrows > accrued.borrow_limit {
        return Err(ErrorCode::InsufficientPoolLiquidity);
    }
    let new_borrowed: u64 = match position.borrowed_amount.checked_add(amount) {
        Some(v) => v,
        None => {
            return Err(ErrorCode::MathOverflow);
        },
    };
    let health: u128 = match position_health(
        position.deposited_amount,
        new_borrowed,
        oracle_price,
        accrued.collateral_factor,
    ) {
        Ok(v) => v,
        Err(e) => {
            return Err(e);
        },
    };
    if health < LENDING_LIQUIDATION_THRESHOLD {
        return Err(ErrorCode::InsufficientCollateralValue);
    }
    *pool = accrued;
    pool.total_borrows = new_total_borrows;
    position.borrowed_amount = new_borrowed;
    position.cumulative_borrow_rate_snapshot = accrued.cumulative_borrow_rate;
    position.last_updated = now;
    Ok(())
}

/// The exact outcome of a repayment: accrual first, then the live debt
/// under the accrued index caps the repayment; repaying the full debt
/// zeroes it and any repayment re-stamps the snapshot.
pub open spec fn spec_repay(
    pool: LendingPool,
    position: LendingPosition,
    amount: u64,
    now: i64,
) -> Result<(LendingPool, LendingPosition, u64), ErrorCode> {
    if amount == 0 {
        Err(ErrorCode::InvalidAmount)
    } else {
        match spec_accrue(pool, now) {
            Err(e) => Err(e),
            Ok(accrued) => {
                match spec_index_balance_outcome(
                    position.borrowed_amount,
                    position.cumulative_borrow_rate_snapshot,
                    accrued.cumulative_borrow_rate,
                ) {
                    Err(e) => Err(e),
                    Ok(current_debt) => {
                        let repay_amount = if amount <= current_debt {
                            amount
                        } else {
                            current_debt
                        };
                        if repay_amount == 0 {
                            Err(ErrorCode::InvalidAmount)
                        } else {
                            let new_pool = LendingPool {
                                total_borrows: if accrued.total_borrows >= repay_amount {
                                    (accrued.total_borrows - repay_amount) as u64
                                } else {
                                    0
                                },
                                ..accrued
                            };
                            let new_position = LendingPosition {
                                borrowed_amount: if repay_amount >= current_debt {
                                    0
                                } else {
                                    (current_debt - repay_amount) as u64
                                },
                                cumulative_borrow_rate_snapshot: accrued.cumulative_borrow_rate,
                                last_updated: now,
                                ..position
                            };
                            Ok((new_pool, new_position, repay_amount))
                        }
                    },
                }
            },
        }
    }
}

/// Repay debt into a pool, returning how much was actually repaid.
///
/// The repayment is capped at the position's live debt under the accrued
/// borrow index; a position with no debt rejects the call
/// (`InvalidAmount`). Repaying everything zeroes the debt; either way the
/// position's snapshot moves to the accrued index and the pool's
/// borrows shrink by the repayment, saturating at zero. On any failure
/// pool and position are unchanged.
pub fn repay(pool: &mut LendingPool, position: &mut LendingPosition, amount: u64, now: i64) -> (r:
    Result<u64, ErrorCode>)
    requires
        old(pool).wf(),
        now >= 0,
    ensures
        ({
            let outcome = spec_repay(*old(pool), *old(position), amount, now);
            match outcome {
                Err(e) => r == Err::<u64, ErrorCode>(e) && *final(pool) == *old(pool)
                    && *final(position) == *old(position),
                Ok(updated) => r == Ok::<u64, ErrorCode>(updated.2) && *final(pool) == updated.0
                    && *final(position) == updated.1,
            }
        }),
        final(pool).wf(),
{
    if amount == 0 {
        return Err(ErrorCode::InvalidAmount);
    }
    let mut accrued: LendingPool = *pool;
    match accrue_interest(&mut accrued, now) {
        Ok(()) => {},
        Err(e) => {
            return Err(e);
        },
    }
    let current_debt: u64 = match get_borrow_balance(
        position.borrowed_amount,
        position.cumulative_borrow_rate_snapshot,
        accrued.cumulative_borrow_rate,
    ) {
        Ok(v) => v,
        Err(e) => {
            return Err(e);
        },
    };
    let repay_amount: u64 = if amount <= current_debt {
        amount
    } else {
        current_debt
    };
    if repay_amount == 0 {
        return Err(ErrorCode::InvalidAmount);
    }
    *pool = accrued;
    pool.total_borrows = if accrued.total_borrows >= repay_amount {
        accrued.total_borrows - repay_amount
    } else {
        0
    };
    position.borrowed_amount = if repay_amount >= current_debt {
        0
    } else {
        current_debt - repay_amount
    };
    position.cumulative_borrow_rate_snapshot = accrued.cumulative_borrow_rate;
    position.last_updated = now;
    Ok(repay_amount)
}

/// What a lending liquidation settles: the debt actually repaid, the
/// collateral seized in return and the bonus included in it.
#[derive(Clone, Copy, Debug, PartialEq, Eq, Structural)]
pub struct LendingLiquidationOutcome {
    pub debt_repaid: u64,
    pub collateral_seized: u64,
    pub liquidation_bonus: u64,
}

/// The exact outcome of a lending liquidation: accrual first, then the
/// position must actually be unhealthy at the supplied price; the
/// repayment is capped at the liquidatable fraction of the debt, and the
/// seized collateral is the repayment plus the bonus, capped at the
/// position's deposit — a shortfall is not an error.
pub open spec fn spec_liquidate_lending(
    ex: Exchange,
    pool: LendingPool,
    position: LendingPosition,
    repay_amount: u64,
    price: u64,
    now: i64,
) -> Result<(LendingPool, LendingPosition, LendingLiquidationOutcome), ErrorCode> {
    if repay_amount == 0 {
        Err(ErrorCode::InvalidAmount)
    } else {
        match spec_accrue(pool, now) {
            Err(e) => Err(e),
            Ok(accrued) => {
                match spec_position_health(
                    position.deposited_amount,
                    position.borrowed_amount,
                    price,
                    accrued.collateral_factor,
                ) {
                    Err(e) => Err(e),
                    Ok(health) => {
                        if health >= LENDING_LIQUIDATION_THRESHOLD {
                            Err(ErrorCode::LendingNotLiquidatable)
                        } else {
                            let max_repay = (position.borrowed_amount
                                * MAX_LIQUIDATION_FRACTION_BPS) / (BPS_DENOMINATOR as int);
                            let actual_repay = if repay_amount <= max_repay {
                                repay_amount as int
                            } else {
                                max_repay
                            };
                            if (actual_repay * ex.liquidation_bonus_bps) / (BPS_DENOMINATOR as int)
                                > u64::MAX {
                                Err(ErrorCode::MathOverflow)
                            } else {
                                let bonus = (actual_repay * ex.liquidation_bonus_bps) / (
                                BPS_DENOMINATOR as int);
                                if actual_repay + bonus > u64::MAX {
                                    Err(ErrorCode::MathOverflow)
                                } else {
                                    let seized = if actual_repay + bonus
                                        <= position.deposited_amount {
                                        actual_repay + bonus
                                    } else {
                                        position.deposited_amount as int
                                    };
                                    let new_pool = LendingPool {
                                        total_borrows: if accrued.total_borrows >= actual_repay {
                                            (accrued.total_borrows - actual_repay) as u64
                                        } else {
                                            0
                                        },
                                        total_deposits: if accrued.total_deposits >= seized {
                                            (accrued.total_deposits - seized) as u64
                                        } else {
                                            0
                                        },
                                        ..accrued
                                    };
                                    let new_position = LendingPosition {
                                        borrowed_amount: if position.borrowed_amount
                                            >= actual_repay {
                                            (position.borrowed_amount - actual_repay) as u64
                                        } else {
                                            0
                                        },
                                        deposited_amount: if position.deposited_amount >= seized {
                                            (position.deposited_amount - seized) as u64
                                        } else {
                                            0
                                        },
                                        last_updated: now,
                                        ..position
                                    };
                                    let outcome = LendingLiquidationOutcome {
                                        debt_repaid: actual_repay as u64,
                                        collateral_seized: seized as u64,
                                        liquidation_bonus: bonus as u64,
                                    };
                                    Ok((new_pool, new_position, outcome))
                                }
                            }
                        }
                    },
                }
            },
        }
    }
}

/// Liquidate an unhealthy lending position.
///
/// A position whose health at the supplied price is at or above 1.0 WAD
/// is rejected (`LendingNotLiquidatable`). The repayment is capped at the
/// liquidatable fraction of the outstanding debt; the liquidator seizes
/// the repayment plus the bonus, capped at the position's deposited
/// amount — when the collateral cannot fully pay the bonus the seizure
/// simply stops there. Liquidation always settles with saturating
/// subtractions on the position and the pool. On any failure pool and
/// position are unchanged.
pub fn liquidate_lending(
    exchange: &Exchange,
    pool: &mut LendingPool,
    position: &mut LendingPosition,
    repay_amount: u64,
    oracle_price: u64,
    now: i64,
) -> (r: Result<LendingLiquidationOutcome, ErrorCode>)
    requires
        old(pool).wf(),
        now >= 0,
    ensures
        ({
            let outcome = spec_liquidate_lending(*exchange, *old(pool), *old(position),
                repay_amount, oracle_price, now);
            match outcome {
                Err(e) => r == Err::<LendingLiquidationOutcome, ErrorCode>(e) && *final(pool)
                    == *old(pool) && *final(position) == *old(position),
                Ok(updated) => r == Ok::<LendingLiquidationOutcome, ErrorCode>(updated.2)
                    && *final(pool) == updated.0 && *final(position) == updated.1,
            }
        }),
        final(pool).wf(),
{
    if repay_amount == 0 {
        return Err(ErrorCode::InvalidAmount);
    }
    let mut accrued: LendingPool = *pool;
    match accrue_interest(&mut accrued, now) {
        Ok(()) => {},
        Err(e) => {
            return Err(e);
        },
    }
    let health: u128 = match position_health(
        position.deposited_amount,
        position.borrowed_amount,
        oracle_price,
        accrued.collateral_factor,
    ) {
        Ok(v) => v,
        Err(e) => {
            return Err(e);
        },
    };
    if health >= LENDING_LIQUIDATION_THRESHOLD {
        return Err(ErrorCode::LendingNotLiquidatable);
    }
    let max_repay: u64 = match bps_mul(position.borrowed_amount, MAX_LIQUIDATION_FRACTION_BPS) {
        Ok(v) => v,
        Err(e) => {
            return Err(e);
        },
    };
    let actual_repay: u64 = if repay_amount <= max_repay {
        repay_amount
    } else {
        max_repay
    };
    let bonus: u64 = match bps_mul(actual_repay, exchange.liquidation_bonus_bps) {
        Ok(v) => v,
        Err(e) => {
            return Err(e);
        },
    };
    let with_bonus: u64 = match actual_repay.checked_add(bonus) {
        Some(v) => v,
        None => {
            return Err(ErrorCode::MathOverflow);
        },
    };
    let collateral_to_seize: u64 = if with_bonus <= position.deposited_amount {
        with_bonus
    } else {
        position.deposited_amount
    };
    *pool = accrued;
    pool.total_borrows = if accrued.total_borrows >= actual_repay {
        accrued.total_borrows - actual_repay
    } else {
        0
    };
    pool.total_deposits = if accrued.total_deposits >= collateral_to_seize {
        accrued.total_deposits - collateral_to_seize
    } else {
        0
    };
    position.borrowed_amount = if position.borrowed_amount >= actual_repay {
        position.borrowed_amount - actual_repay
    } else {
        0
    };
    position.deposited_amount = if position.deposited_amount >= collateral_to_seize {
        position.deposited_amount - collateral_to_seize
    } else {
        0
    };
    position.last_updated = now;
    Ok(
        LendingLiquidationOutcome {
            debt_repaid: actual_repay,
            collateral_seized: collateral_to_seize,
            liquidation_bonus: bonus,
        },
    )
}

} // verus!
