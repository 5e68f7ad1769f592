//! Perpetual futures operations: opening, closing and liquidating
//! positions, and the permissionless funding-rate update.
//!
//! Each operation computes and checks everything before it writes, so a
//! failed call leaves every record exactly as it found it.

use vstd::prelude::*;

use crate::constants::{FUNDING_INTERVAL, MIN_LEVERAGE, MAX_PERP_POSITIONS, PRICE_PRECISION,
    PERP_LIQUIDATION_THRESHOLD, BPS_DENOMINATOR};
use crate::errors::ErrorCode;
use crate::fixed_point::bps_mul;
use crate::funding::{calculate_funding_rate, compute_position_funding, spec_funding_rate,
    spec_position_funding};
use crate::liquidation::{compute_liquidation_price, compute_pnl, compute_perp_health_factor,
    is_perp_liquidatable, spec_compute_pnl, spec_liquidation_price, spec_perp_health_factor};
use crate::state::{Exchange, PerpMarket, PerpPosition, PositionSide, UserAccount};

verus! {

/// Parameters of a new position: side, size in base units and collateral
/// in quote units.
#[derive(Clone, Copy, Debug, PartialEq, Eq, Structural)]
pub struct OpenPositionParams {
    pub is_long: bool,
    pub size: u64,
    pub collateral: u64,
}

/// The exact outcome of opening a position: either the error of the first
/// failed check, or the updated user record, updated market and the new
/// position.
pub open spec fn spec_open_position(
    ex: Exchange,
    user: UserAccount,
    market: PerpMarket,
    params: OpenPositionParams,
    price: u64,
    now: i64,
) -> Result<(UserAccount, PerpMarket, PerpPosition), ErrorCode> {
    if ex.perp_paused || market.paused {
        Err(ErrorCode::ExchangePaused)
    } else if params.size == 0 {
        Err(ErrorCode::PositionTooSmall)
    } else if params.collateral == 0 {
        Err(ErrorCode::InsufficientCollateral)
    } else if user.open_perp_positions >= MAX_PERP_POSITIONS {
        Err(ErrorCode::MaxPerpPositionsReached)
    } else {
        let notional = (params.size * price) / (PRICE_PRECISION as int);
        let leverage = notional / (params.collateral as int);
        let max_leverage = if market.max_leverage <= ex.max_leverage {
            market.max_leverage
        } else {
            ex.max_leverage
        };
        if leverage > max_leverage {
            Err(ErrorCode::ExcessiveLeverage)
        } else if leverage < MIN_LEVERAGE {
            Err(ErrorCode::ExcessiveLeverage)
        } else if params.size < market.min_position_size {
            Err(ErrorCode::PositionTooSmall)
        } else {
            let side = if params.is_long {
                PositionSide::Long
            } else {
                PositionSide::Short
            };
            match spec_liquidation_price(side, price, params.collateral, params.size) {
                Err(e) => Err(e),
                Ok(liquidation_price) => {
                    let side_oi = if params.is_long {
                        market.long_open_interest
                    } else {
                        market.short_open_interest
                    };
                    if side_oi + params.size > u64::MAX {
                        Err(ErrorCode::MathOverflow)
                    } else if side_oi + params.size > market.max_open_interest {
                        Err(ErrorCode::OpenInterestLimitExceeded)
                    } else if user.total_trades + 1 > u64::MAX {
                        Err(ErrorCode::MathOverflow)
                    } else if notional > u64::MAX {
                        Err(ErrorCode::MathOverflow)
                    } else if user.total_volume + notional > u64::MAX {
                        Err(ErrorCode::MathOverflow)
                    } else {
                        let position = PerpPosition {
                            side,
                            size: params.size,
                            collateral: params.collateral,
                            entry_price: price,
                            leverage: leverage as u64,
                            cumulative_funding_snapshot: if params.is_long {
                                market.cumulative_funding_long
                            } else {
                                market.cumulative_funding_short
                            },
                            liquidation_price,
                            realized_pnl: 0,
                            unrealized_pnl: 0,
                            opened_at: now,
                            last_updated: now,
                        };
                        let new_market = if params.is_long {
                            PerpMarket {
                                long_open_interest: (side_oi + params.size) as u64,
                                ..market
                            }
                        } else {
                            PerpMarket {
                                short_open_interest: (side_oi + params.size) as u64,
                                ..market
                            }
                        };
                        let new_user = UserAccount {
                            open_perp_positions: (user.open_perp_positions + 1) as u8,
                            total_trades: (user.total_trades + 1) as u64,
                            total_volume: (user.total_volume + notional) as u64,
                            last_activity: now,
                            ..user
                        };
                        Ok((new_user, new_market, position))
                    }
                },
            }
        }
    }
}

/// Open a perpetual position against a market at a validated oracle
/// price.
///
/// Checks, in order: neither the exchange's perpetual trading nor the
/// market is paused; the size and collateral are positive; the user has a
/// free position slot; the implied leverage sits within both the
/// market's and the exchange's cap and at least the minimum; the size
/// meets the market minimum; the liquidation price is computable; and the
/// side's open interest stays within the market limit. On success the
/// side's open interest grows by the size, the user's counters advance,
/// and the returned position snapshots the side's cumulative funding
/// index. On any failure user and market are unchanged.
pub fn open_position(
    exchange: &Exchange,
    user: &mut UserAccount,
    market: &mut PerpMarket,
    params: OpenPositionParams,
    oracle_price: u64,
    now: i64,
) -> (r: Result<PerpPosition, ErrorCode>)
    ensures
        ({
            let outcome = spec_open_position(*exchange, *old(user), *old(market), params,
                oracle_price, now);
            match outcome {
                Err(e) => r == Err::<PerpPosition, ErrorCode>(e) && *final(user) == *old(user)
                    && *final(market) == *old(market),
                Ok(updated) => r == Ok::<PerpPosition, ErrorCode>(updated.2) && *final(user)
                    == updated.0 && *final(market) == updated.1,
            }
        }),
        final(market).cumulative_funding_long == old(market).cumulative_funding_long,
        final(market).cumulative_funding_short == old(market).cumulative_funding_short,
{
    if exchange.perp_paused || market.paused {
        return Err(ErrorCode::ExchangePaused);
    }
    if params.size == 0 {
        return Err(ErrorCode::PositionTooSmall);
    }
    if params.collateral == 0 {
        return Err(ErrorCode::InsufficientCollateral);
    }
    if user.open_perp_positions >= MAX_PERP_POSITIONS {
        return Err(ErrorCode::MaxPerpPositionsReached);
    }
    assert(params.size * oracle_price <= u64::MAX * (u64::MAX as int)) by (nonlinear_arith)
        requires
            params.size <= u64::MAX,
            oracle_price <= u64::MAX,
    ;
    let notional: u128 = ((params.size as u128) * (oracle_price as u128)) / (PRICE_PRECISION
        as u128);
    let leverage: u128 = notional / (params.collateral as u128);
    let max_leverage: u64 = if market.max_leverage <= exchange.max_leverage {
        market.max_leverage
    } else {
        exchange.max_leverage
    };
    if leverage > max_leverage as u128 {
        return Err(ErrorCode::ExcessiveLeverage);
    }
    if leverage < MIN_LEVERAGE as u128 {
        return Err(ErrorCode::ExcessiveLeverage);
    }
    if params.size < market.min_position_size {
        return Err(ErrorCode::PositionTooSmall);
    }
    let side: PositionSide = if params.is_long {
        PositionSide::Long
    } else {
        PositionSide::Short
    };
    let liquidation_price: u64 = match compute_liquidation_price(
        &side,
        oracle_price,
        params.collateral,
        params.size,
    ) {
        Ok(v) => v,
        Err(e) => {
            return Err(e);
        },
    };
    let side_oi: u64 = if params.is_long {
        market.long_open_interest
    } else {
        market.short_open_interest
    };
    let new_oi: u64 = match side_oi.checked_add(params.size) {
        Some(v) => v,
        None => {
            return Err(ErrorCode::MathOverflow);
        },
    };
    if new_oi > market.max_open_interest {
        return Err(ErrorCode::OpenInterestLimitExceeded);
    }
    let new_trades: u64 = match user.total_trades.checked_add(1) {
        Some(v) => v,
        None => {
            return Err(ErrorCode::MathOverflow);
        },
    };
    if notional > u64::MAX as u128 {
        return Err(ErrorCode::MathOverflow);
    }
    let new_volume: u64 = match user.total_volume.checked_add(notional as u64) {
        Some(v) => v,
        None => {
            return Err(ErrorCode::MathOverflow);
        },
    };
    let position = PerpPosition {
        side,
        size: params.size,
        collateral: params.collateral,
        entry_price: oracle_price,
        leverage: leverage as u64,
        cumulative_funding_snapshot: if params.is_long {
            market.cumulative_funding_long
        } else {
            market.cumulative_funding_short
        },
        liquidation_price,
        realized_pnl: 0,
        unrealized_pnl: 0,
        opened_at: now,
        last_updated: now,
    };
    if params.is_long {
        market.long_open_interest = new_oi;
    } else {
        market.short_open_interest = new_oi;
    }
    user.open_perp_positions = user.open_perp_positions + 1;
    user.total_trades = new_trades;
    user.total_volume = new_volume;
    user.last_activity = now;
    Ok(position)
}

/// What closing a position settles: the PnL, the funding payment, the
/// close fee and the resulting net payout to the owner.
#[derive(Clone, Copy, Debug, PartialEq, Eq, Structural)]
pub struct PerpCloseOutcome {
    pub payout: i64,
    pub pnl: i64,
    pub funding_payment: i64,
    pub fee: u64,
}

/// The exact outcome of closing a position at a price: PnL and funding
/// settle first, then the close fee on the notional, and the payout is
/// collateral + pnl - funding - fee, each step overflow-checked.
pub open spec fn spec_close_position(
    ex: Exchange,
    user: UserAccount,
    market: PerpMarket,
    position: PerpPosition,
    price: u64,
    now: i64,
) -> Result<(UserAccount, PerpMarket, PerpCloseOutcome), ErrorCode> {
    match spec_compute_pnl(position.side, position.size, position.entry_price, price) {
        Err(e) => Err(e),
        Ok(pnl) => {
            match spec_position_funding(
                position.size,
                position.side is Long,
                market.cumulative_funding_long,
                market.cumulative_funding_short,
                position.cumulative_funding_snapshot,
            ) {
                Err(e) => Err(e),
                Ok(funding_payment) => {
                    let notional = (position.size * price) / (PRICE_PRECISION as int);
                    if notional > u64::MAX {
                        Err(ErrorCode::MathOverflow)
                    } else if (notional * ex.perp_close_fee_bps) / (BPS_DENOMINATOR as int)
                        > u64::MAX {
                        Err(ErrorCode::MathOverflow)
                    } else {
                        let fee = (notional * ex.perp_close_fee_bps) / (BPS_DENOMINATOR as int);
                        if fee > i64::MAX {
                            Err(ErrorCode::MathOverflow)
                        } else if position.collateral > i64::MAX {
                            Err(ErrorCode::MathOverflow)
                        } else if !(i64::MIN <= position.collateral + pnl <= i64::MAX) {
                            Err(ErrorCode::MathOverflow)
                        } else if !(i64::MIN <= position.collateral + pnl - funding_payment
                            <= i64::MAX) {
                            Err(ErrorCode::MathOverflow)
                        } else if !(i64::MIN <= position.collateral + pnl - funding_payment - fee
                            <= i64::MAX) {
                            Err(ErrorCode::MathOverflow)
                        } else if !(i64::MIN <= user.total_pnl + pnl <= i64::MAX) {
                            Err(ErrorCode::MathOverflow)
                        } else if user.total_fees_paid + fee > u64::MAX {
                            Err(ErrorCode::MathOverflow)
                        } else {
                            let payout = position.collateral + pnl - funding_payment - fee;
                            let new_market = if position.side is Long {
                                PerpMarket {
                                    long_open_interest: if market.long_open_interest
                                        >= position.size {
                                        (market.long_open_interest - position.size) as u64
                                    } else {
                                        0
                                    },
                                    ..market
                                }
                            } else {
                                PerpMarket {
                                    short_open_interest: if market.short_open_interest
                                        >= position.size {
                                        (market.short_open_interest - position.size) as u64
                                    } else {
                                        0
                                    },
                                    ..market
                                }
                            };
                            let new_user = UserAccount {
                                open_perp_positions: if user.open_perp_positions >= 1 {
                                    (user.open_perp_positions - 1) as u8
                                } else {
                                    0
                                },
                                total_pnl: (user.total_pnl + pnl) as i64,
                                total_fees_paid: (user.total_fees_paid + fee) as u64,
                                last_activity: now,
                                ..user
                            };
                            let outcome = PerpCloseOutcome {
                                payout: payout as i64,
                                pnl: pnl as i64,
                                funding_payment: funding_payment as i64,
                                fee: fee as u64,
                            };
                            Ok((new_user, new_market, outcome))
                        }
                    }
                },
            }
        },
    }
}

/// Close a position at a validated oracle price, settling PnL, funding
/// and the close fee.
///
/// On success the side's open interest shrinks by the position's size
/// (saturating at zero), the user's counters settle, and the outcome
/// reports the net payout: positive means the vault owes the owner that
/// amount. On any failure user and market are unchanged.
pub fn close_position(
    exchange: &Exchange,
    user: &mut UserAccount,
    market: &mut PerpMarket,
    position: &PerpPosition,
    oracle_price: u64,
    now: i64,
) -> (r: Result<PerpCloseOutcome, ErrorCode>)
    ensures
        ({
            let outcome = spec_close_position(*exchange, *old(user), *old(market), *position,
                oracle_price, now);
            match outcome {
                Err(e) => r == Err::<PerpCloseOutcome, ErrorCode>(e) && *final(user) == *old(user)
                    && *final(market) == *old(market),
                Ok(updated) => r == Ok::<PerpCloseOutcome, ErrorCode>(updated.2) && *final(user)
                    == updated.0 && *final(market) == updated.1,
            }
        }),
{
    let pnl: i64 = match compute_pnl(
        &position.side,
        position.size,
        position.entry_price,
        oracle_price,
    ) {
        Ok(v) => v,
        Err(e) => {
            return Err(e);
        },
    };
    let is_long: bool = matches!(position.side, PositionSide::Long);
    let funding_payment: i64 = match compute_position_funding(
        position.size,
        is_long,
        market.cumulative_funding_long,
        market.cumulative_funding_short,
        position.cumulative_funding_snapshot,
    ) {
        Ok(v) => v,
        Err(e) => {
            return Err(e);
        },
    };
    assert(position.size * oracle_price <= u64::MAX * (u64::MAX as int)) by (nonlinear_arith)
        requires
            position.size <= u64::MAX,
            oracle_price <= u64::MAX,
    ;
    let notional: u128 = ((position.size as u128) * (oracle_price as u128)) / (PRICE_PRECISION
        as u128);
    if notional > u64::MAX as u128 {
        return Err(ErrorCode::MathOverflow);
    }
    let fee: u64 = match bps_mul(notional as u64, exchange.perp_close_fee_bps) {
        Ok(v) => v,
        Err(e) => {
            return Err(e);
        },
    };
    if fee > i64::MAX as u64 {
        return Err(ErrorCode::MathOverflow);
    }
    if position.collateral > i64::MAX as u64 {
        return Err(ErrorCode::MathOverflow);
    }
    let with_pnl: i64 = match (position.collateral as i64).checked_add(pnl) {
        Some(v) => v,
        None => {
            return Err(ErrorCode::MathOverflow);
        },
    };
    let after_funding: i64 = match with_pnl.checked_sub(funding_payment) {
        Some(v) => v,
        None => {
            return Err(ErrorCode::MathOverflow);
        },
    };
    let payout: i64 = match after_funding.checked_sub(fee as i64) {
        Some(v) => v,
        None => {
            return Err(ErrorCode::MathOverflow);
        },
    };
    let new_total_pnl: i64 = match user.total_pnl.checked_add(pnl) {
        Some(v) => v,
        None => {
            return Err(ErrorCode::MathOverflow);
        },
    };
    let new_fees_paid: u64 = match user.total_fees_paid.checked_add(fee) {
        Some(v) => v,
        None => {
            return Err(ErrorCode::MathOverflow);
        },
    };
    if is_long {
        market.long_open_interest = if market.long_open_interest >= position.size {
            market.long_open_interest - position.size
        } else {
            0
        };
    } else {
        market.short_open_interest = if market.short_open_interest >= position.size {
            market.short_open_interest - position.size
        } else {
            0
        };
    }
    user.open_perp_positions = if user.open_perp_positions >= 1 {
        user.open_perp_positions - 1
    } else {
        0
    };
    user.total_pnl = new_total_pnl;
    user.total_fees_paid = new_fees_paid;
    user.last_activity = now;
    Ok(PerpCloseOutcome { payout, pnl, funding_payment, fee })
}

/// What liquidating a position settles: the PnL and funding at the
/// liquidation price, the health that justified it, and the liquidator's
/// reward.
#[derive(Clone, Copy, Debug, PartialEq, Eq, Structural)]
pub struct PerpLiquidationOutcome {
    pub pnl: i64,
    pub funding_payment: i64,
    pub health_factor: u64,
    pub liquidator_reward: u64,
}

/// The exact outcome of a liquidation attempt: PnL, funding and health
/// settle first; a position at or above the maintenance threshold cannot
/// be liquidated; the liquidator's bonus is capped by what collateral
/// remains after losses.
pub open spec fn spec_liquidate_perp(
    ex: Exchange,
    user: UserAccount,
    market: PerpMarket,
    position: PerpPosition,
    price: u64,
) -> Result<(UserAccount, PerpMarket, PerpLiquidationOutcome), ErrorCode> {
    match spec_compute_pnl(position.side, position.size, position.entry_price, price) {
        Err(e) => Err(e),
        Ok(pnl) => {
            match spec_position_funding(
                position.size,
                position.side is Long,
                market.cumulative_funding_long,
                market.cumulative_funding_short,
                position.cumulative_funding_snapshot,
            ) {
                Err(e) => Err(e),
                Ok(funding_payment) => {
                    match spec_perp_health_factor(
                        position.collateral,
                        pnl,
                        funding_payment,
                        position.size,
                        price,
                    ) {
                        Err(e) => Err(e),
                        Ok(health) => {
                            if health >= PERP_LIQUIDATION_THRESHOLD {
                                Err(ErrorCode::NotLiquidatable)
                            } else if (position.collateral * ex.liquidation_bonus_bps) / (
                            BPS_DENOMINATOR as int) > u64::MAX {
                                Err(ErrorCode::MathOverflow)
                            } else {
                                let bonus = (position.collateral * ex.liquidation_bonus_bps) / (
                                BPS_DENOMINATOR as int);
                                let remaining = position.collateral + pnl - funding_payment;
                                if !(i64::MIN <= position.collateral + pnl <= i64::MAX) {
                                    Err(ErrorCode::MathOverflow)
                                } else if !(i64::MIN <= remaining <= i64::MAX) {
                                    Err(ErrorCode::MathOverflow)
                                } else if !(i64::MIN <= user.total_pnl + pnl <= i64::MAX) {
                                    Err(ErrorCode::MathOverflow)
                                } else {
                                    let liquidator_reward = if remaining > 0 {
                                        if bonus <= remaining {
                                            bonus
                                        } else {
                                            remaining
                                        }
                                    } else {
                                        0
                                    };
                                    let new_market = if position.side is Long {
                                        PerpMarket {
                                            long_open_interest: if market.long_open_interest
                                                >= position.size {
                                                (market.long_open_interest - position.size) as u64
                                            } else {
                                                0
                                            },
                                            ..market
                                        }
                                    } else {
                                        PerpMarket {
                                            short_open_interest: if market.short_open_interest
                                                >= position.size {
                                                (market.short_open_interest - position.size) as u64
                                            } else {
                                                0
                                            },
                                            ..market
                                        }
                                    };
                                    let new_user = UserAccount {
                                        open_perp_positions: if user.open_perp_positions >= 1 {
                                            (user.open_perp_positions - 1) as u8
                                        } else {
                                            0
                                        },
                                        total_pnl: (user.total_pnl + pnl) as i64,
                                        ..user
                                    };
                                    let outcome = PerpLiquidationOutcome {
                                        pnl: pnl as i64,
                                        funding_payment: funding_payment as i64,
                                        health_factor: health as u64,
                                        liquidator_reward: liquidator_reward as u64,
                                    };
                                    Ok((new_user, new_market, outcome))
                                }
                            }
                        },
                    }
                },
            }
        },
    }
}

/// Liquidate a position whose health has fallen below the maintenance
/// threshold.
///
/// A healthy position is rejected with `NotLiquidatable`. On success the
/// side's open interest shrinks by the position's size (saturating at
/// zero), the owner's counters settle, and the liquidator's reward is
/// the bonus fraction of the collateral, capped by whatever collateral
/// survives PnL and funding. On any failure user and market are
/// unchanged.
pub fn liquidate_perp(
    exchange: &Exchange,
    user: &mut UserAccount,
    market: &mut PerpMarket,
    position: &PerpPosition,
    oracle_price: u64,
) -> (r: Result<PerpLiquidationOutcome, ErrorCode>)
    ensures
        ({
            let outcome = spec_liquidate_perp(*exchange, *old(user), *old(market), *position,
                oracle_price);
            match outcome {
                Err(e) => r == Err::<PerpLiquidationOutcome, ErrorCode>(e)
                    && *final(user) == *old(user) && *final(market) == *old(market),
                Ok(updated) => r == Ok::<PerpLiquidationOutcome, ErrorCode>(updated.2)
                    && *final(user) == updated.0 && *final(market) == updated.1,
            }
        }),
{
    let pnl: i64 = match compute_pnl(
        &position.side,
        position.size,
        position.entry_price,
        oracle_price,
    ) {
        Ok(v) => v,
        Err(e) => {
            return Err(e);
        },
    };
    let is_long: bool = matches!(position.side, PositionSide::Long);
    let funding_payment: i64 = match compute_position_funding(
        position.size,
        is_long,
        market.cumulative_funding_long,
        market.cumulative_funding_short,
        position.cumulative_funding_snapshot,
    ) {
        Ok(v) => v,
        Err(e) => {
            return Err(e);
        },
    };
    let health: u64 = match compute_perp_health_factor(
        position.collateral,
        pnl,
        funding_payment,
        position.size,
        oracle_price,
    ) {
        Ok(v) => v,
        Err(e) => {
            return Err(e);
        },
    };
    if !is_perp_liquidatable(health) {
        return Err(ErrorCode::NotLiquidatable);
    }
    let bonus: u64 = match bps_mul(position.collateral, exchange.liquidation_bonus_bps) {
        Ok(v) => v,
        Err(e) => {
            return Err(e);
        },
    };
    let with_pnl: i64 = match (position.collateral as i64).checked_add(pnl) {
        Some(v) => v,
        None => {
            return Err(ErrorCode::MathOverflow);
        },
    };
    let remaining: i64 = match with_pnl.checked_sub(funding_payment) {
        Some(v) => v,
        None => {
            return Err(ErrorCode::MathOverflow);
        },
    };
    let new_total_pnl: i64 = match user.total_pnl.checked_add(pnl) {
        Some(v) => v,
        None => {
            return Err(ErrorCode::MathOverflow);
        },
    };
    let liquidator_reward: u64 = if remaining > 0 {
        if bonus <= remaining as u64 {
            bonus
        } else {
            remaining as u64
        }
    } else {
        0
    };
    if is_long {
        market.long_open_interest = if market.long_open_interest >= position.size {
            market.long_open_interest - position.size
        } else {
            0
        };
    } else {
        market.short_open_interest = if market.short_open_interest >= position.size {
            market.short_open_interest - position.size
        } else {
            0
        };
    }
    user.open_perp_positions = if user.open_perp_positions >= 1 {
        user.open_perp_positions - 1
    } else {
        0
    };
    user.total_pnl = new_total_pnl;
    Ok(PerpLiquidationOutcome { pnl, funding_payment, health_factor: health, liquidator_reward })
}

/// The exact outcome of a funding update at `now`: rate-limited to once
/// per funding interval, it recomputes the rate and moves the two
/// cumulative indices in opposite directions by that rate.
pub open spec fn spec_update_funding_rate(market: PerpMarket, now: i64) -> Result<
    PerpMarket,
    ErrorCode,
> {
    if !(i64::MIN <= now - market.last_funding_update <= i64::MAX) {
        Err(ErrorCode::MathOverflow)
    } else if now - market.last_funding_update < FUNDING_INTERVAL {
        Err(ErrorCode::FundingIntervalNotElapsed)
    } else {
        match spec_funding_rate(market) {
            Err(e) => Err(e),
            Ok(rate) => {
                if !(i128::MIN <= market.cumulative_funding_long + rate <= i128::MAX) {
                    Err(ErrorCode::MathOverflow)
                } else if !(i128::MIN <= market.cumulative_funding_short - rate <= i128::MAX) {
                    Err(ErrorCode::MathOverflow)
                } else {
                    Ok(
                        PerpMarket {
                            funding_rate: rate,
                            cumulative_funding_long: (market.cumulative_funding_long + rate)
                                as i128,
                            cumulative_funding_short: (market.cumulative_funding_short - rate)
                                as i128,
                            last_funding_update: now,
                            ..market
                        },
                    )
                }
            },
        }
    }
}

/// Permissionless funding-rate update, rate-limited to once per interval.
///
/// On success the stored rate is the clamped imbalance fraction, the long
/// index moves by the rate and the short index by its negation, so the
/// two indices stay mirror images of each other; a market whose indices
/// sum to zero keeps that property. On any failure the market is
/// unchanged.
pub fn update_funding_rate(market: &mut PerpMarket, now: i64) -> (r: Result<(), ErrorCode>)
    ensures
        ({
            let outcome = spec_update_funding_rate(*old(market), now);
            match outcome {
                Err(e) => r == Err::<(), ErrorCode>(e) && *final(market) == *old(market),
                Ok(updated) => r == Ok::<(), ErrorCode>(()) && *final(market) == updated,
            }
        }),
        old(market).funding_mirrored() ==> final(market).funding_mirrored(),
{
    let elapsed: i64 = match now.checked_sub(market.last_funding_update) {
        Some(v) => v,
        None => {
            return Err(ErrorCode::MathOverflow);
        },
    };
    if elapsed < FUNDING_INTERVAL {
        return Err(ErrorCode::FundingIntervalNotElapsed);
    }
    let market_now: PerpMarket = *market;
    let new_rate: i128 = match calculate_funding_rate(&market_now) {
        Ok(v) => v,
        Err(e) => {
            return Err(e);
        },
    };
    let new_long: i128 = match market.cumulative_funding_long.checked_add(new_rate) {
        Some(v) => v,
        None => {
            return Err(ErrorCode::MathOverflow);
        },
    };
    let new_short: i128 = match market.cumulative_funding_short.checked_sub(new_rate) {
        Some(v) => v,
        None => {
            return Err(ErrorCode::MathOverflow);
        },
    };
    market.funding_rate = new_rate;
    market.cumulative_funding_long = new_long;
    market.cumulative_funding_short = new_short;
    market.last_funding_update = now;
    Ok(())
}

} // verus!
