//! Kinked borrow-rate curve and cumulative-index interest accrual.
//!
//! The borrow rate is a two-segment curve over pool utilization; accrual
//! compounds both cumulative indices by the rate earned since the last
//! update, and a position's live balance is its raw amount grown by the
//! ratio of the current index to its snapshot.

use vstd::prelude::*;

use crate::constants::{SECONDS_PER_YEAR, WAD};
use crate::errors::ErrorCode;
use crate::fixed_point::{wad_div, wad_mul};
use crate::state::LendingPool;

verus! {

/// Pool utilization in WAD: floor(total_borrows * WAD / total_deposits).
pub open spec fn spec_utilization(p: LendingPool) -> int
    recommends
        p.total_deposits > 0,
{
    (p.total_borrows * WAD) / (p.total_deposits as int)
}

/// The curve below the kink: base_rate + (u / optimal) * slope1, each
/// division flooring at WAD scale.
pub open spec fn spec_rate_below_kink(p: LendingPool, u: int) -> int {
    p.base_rate + ((u * WAD) / (p.optimal_utilization as int)) * p.slope1 / (WAD as int)
}

/// The curve above the kink: base_rate + slope1 +
/// ((u - optimal) / (1 - optimal)) * slope2, flooring at WAD scale.
pub open spec fn spec_rate_above_kink(p: LendingPool, u: int) -> int {
    p.base_rate + p.slope1 + ((u - p.optimal_utilization) * WAD / (WAD
        - p.optimal_utilization)) * p.slope2 / (WAD as int)
}

/// The exact outcome of the borrow-rate computation, error cases included.
pub open spec fn spec_borrow_rate(p: LendingPool) -> Result<u128, ErrorCode> {
    if p.total_deposits == 0 {
        Ok(p.base_rate)
    } else {
        let u = spec_utilization(p);
        if u <= p.optimal_utilization {
            if p.optimal_utilization == 0 {
                Err(ErrorCode::DivisionByZero)
            } else if u * WAD > u128::MAX {
                Err(ErrorCode::MathOverflow)
            } else if ((u * WAD) / (p.optimal_utilization as int)) * p.slope1 > u128::MAX {
                Err(ErrorCode::MathOverflow)
            } else if spec_rate_below_kink(p, u) > u128::MAX {
                Err(ErrorCode::MathOverflow)
            } else {
                Ok(spec_rate_below_kink(p, u) as u128)
            }
        } else {
            if p.optimal_utilization > WAD {
                Err(ErrorCode::MathUnderflow)
            } else if p.optimal_utilization == WAD {
                Err(ErrorCode::DivisionByZero)
            } else if (u - p.optimal_utilization) * WAD > u128::MAX {
                Err(ErrorCode::MathOverflow)
            } else if ((u - p.optimal_utilization) * WAD / (WAD - p.optimal_utilization))
                * p.slope2 > u128::MAX {
                Err(ErrorCode::MathOverflow)
            } else if p.base_rate + p.slope1 > u128::MAX {
                Err(ErrorCode::MathOverflow)
            } else if spec_rate_above_kink(p, u) > u128::MAX {
                Err(ErrorCode::MathOverflow)
            } else {
                Ok(spec_rate_above_kink(p, u) as u128)
            }
        }
    }
}

/// Rate-curve parameters in their intended ranges: a kink strictly inside
/// (0, 1] and every coefficient at most 1.0 WAD.
pub open spec fn spec_curve_params_ok(p: LendingPool) -> bool {
    &&& 0 < p.optimal_utilization <= WAD
    &&& p.base_rate <= WAD
    &&& p.slope1 <= WAD
    &&& p.slope2 <= WAD
}

/// Borrow rate of a pool along the kinked curve.
///
/// With curve parameters in range and borrows no greater than deposits the
/// computation always succeeds and the rate is at most 3.0 WAD; outside
/// those ranges each arithmetic failure is reported exactly as
/// `spec_borrow_rate` lays out.
pub fn calculate_borrow_rate(pool: &LendingPool) -> (r: Result<u128, ErrorCode>)
    ensures
        r == spec_borrow_rate(*pool),
        spec_curve_params_ok(*pool) && pool.total_borrows <= pool.total_deposits ==> r is Ok
            && r->Ok_0 <= 3 * WAD,
        spec_curve_params_ok(*pool) && pool.total_deposits > 0 && spec_utilization(*pool)
            == pool.optimal_utilization ==> r == Ok::<u128, ErrorCode>(
            (pool.base_rate + pool.slope1) as u128,
        ),
{
    proof {
        if spec_curve_params_ok(*pool) && pool.total_borrows <= pool.total_deposits {
            lemma_borrow_rate_in_range(*pool);
        }
        if spec_curve_params_ok(*pool) && pool.total_deposits > 0 && spec_utilization(*pool)
            == pool.optimal_utilization {
            lemma_borrow_rate_at_kink(*pool);
        }
    }
    if pool.total_deposits == 0 {
        return Ok(pool.base_rate);
    }
    assert(pool.total_borrows * WAD <= u64::MAX * (WAD as int)) by (nonlinear_arith)
        requires
            pool.total_borrows <= u64::MAX,
    ;
    let utilization: u128 = match wad_div(pool.total_borrows as u128, pool.total_deposits as u128) {
        Ok(u) => u,
        Err(e) => {
            return Err(e);
        },
    };
    if utilization <= pool.optimal_utilization {
        let ratio: u128 = match wad_div(utilization, pool.optimal_utilization) {
            Ok(v) => v,
            Err(e) => {
                return Err(e);
            },
        };
        let variable: u128 = match wad_mul(ratio, pool.slope1) {
            Ok(v) => v,
            Err(e) => {
                return Err(e);
            },
        };
        match pool.base_rate.checked_add(variable) {
            Some(rate) => Ok(rate),
            None => Err(ErrorCode::MathOverflow),
        }
    } else {
        if pool.optimal_utilization > WAD {
            return Err(ErrorCode::MathUnderflow);
        }
        let excess: u128 = utilization - pool.optimal_utilization;
        let remaining: u128 = WAD - pool.optimal_utilization;
        let ratio: u128 = match wad_div(excess, remaining) {
            Ok(v) => v,
            Err(e) => {
                return Err(e);
            },
        };
        let variable: u128 = match wad_mul(ratio, pool.slope2) {
            Ok(v) => v,
            Err(e) => {
                return Err(e);
            },
        };
        let partial: u128 = match pool.base_rate.checked_add(pool.slope1) {
            Some(v) => v,
            None => {
                return Err(ErrorCode::MathOverflow);
            },
        };
        match partial.checked_add(variable) {
            Some(rate) => Ok(rate),
            None => Err(ErrorCode::MathOverflow),
        }
    }
}

/// With parameters in range and borrows bounded by deposits, the curve
/// stays within [0, 3 WAD] and no step overflows.
proof fn lemma_borrow_rate_in_range(p: LendingPool)
    requires
        spec_curve_params_ok(p),
        p.total_borrows <= p.total_deposits,
    ensures
        spec_borrow_rate(p) is Ok,
        spec_borrow_rate(p)->Ok_0 <= 3 * WAD,
{
    let w = WAD as int;
    if p.total_deposits > 0 {
        let u = spec_utilization(p);
        let opt = p.optimal_utilization as int;
        assert(0 <= u <= w) by (nonlinear_arith)
            requires
                u == (p.total_borrows * WAD) / (p.total_deposits as int),
                0 <= p.total_borrows <= p.total_deposits,
                p.total_deposits > 0,
                w == WAD,
        ;
        if u <= opt {
            let ratio = (u * w) / opt;
            assert(0 <= ratio <= w) by (nonlinear_arith)
                requires
                    ratio == (u * w) / opt,
                    0 <= u <= opt,
                    0 < opt,
                    w > 0,
            ;
            assert(ratio * p.slope1 <= w * w) by (nonlinear_arith)
                requires
                    0 <= ratio <= w,
                    0 <= p.slope1 <= w,
            ;
            let variable = ratio * p.slope1 / w;
            assert(0 <= variable <= w) by (nonlinear_arith)
                requires
                    variable == ratio * p.slope1 / w,
                    0 <= ratio * p.slope1 <= w * w,
                    w > 0,
            ;
        } else {
            let excess = u - opt;
            let remaining = w - opt;
            assert(0 < remaining && 0 <= excess <= remaining);
            let ratio = (excess * w) / remaining;
            assert(0 <= ratio <= w) by (nonlinear_arith)
                requires
                    ratio == (excess * w) / remaining,
                    0 <= excess <= remaining,
                    0 < remaining,
                    w > 0,
            ;
            assert(ratio * p.slope2 <= w * w) by (nonlinear_arith)
                requires
                    0 <= ratio <= w,
                    0 <= p.slope2 <= w,
            ;
            let variable = ratio * p.slope2 / w;
            assert(0 <= variable <= w) by (nonlinear_arith)
                requires
                    variable == ratio * p.slope2 / w,
                    0 <= ratio * p.slope2 <= w * w,
                    w > 0,
            ;
        }
    }
}

/// A pool sitting exactly at its kink earns base_rate + slope1: the
/// below-kink branch applies with a utilization ratio of exactly 1.0 WAD.
proof fn lemma_borrow_rate_at_kink(p: LendingPool)
    requires
        spec_curve_params_ok(p),
        p.total_deposits > 0,
        spec_utilization(p) == p.optimal_utilization,
    ensures
        spec_borrow_rate(p) == Ok::<u128, ErrorCode>((p.base_rate + p.slope1) as u128),
{
    let w = WAD as int;
    let opt = p.optimal_utilization as int;
    assert(opt * w <= w * w) by (nonlinear_arith)
        requires
            0 < opt <= w,
    ;
    assert((opt * w) / opt == w) by (nonlinear_arith)
        requires
            0 < opt,
            w > 0,
    ;
    assert(w * p.slope1 <= w * w) by (nonlinear_arith)
        requires
            0 <= p.slope1 <= w,
            w > 0,
    ;
    assert(w * p.slope1 / w == p.slope1) by (nonlinear_arith)
        requires
            w > 0,
            p.slope1 >= 0,
    ;
}

/// The two branches of the kinked curve agree at the kink itself: at
/// utilization exactly `optimal_utilization`, both formulas evaluate to
/// base_rate + slope1, so the curve is continuous across the boundary.
pub proof fn lemma_borrow_rate_continuous_at_kink(p: LendingPool)
    requires
        0 < p.optimal_utilization < WAD,
    ensures
        spec_rate_below_kink(p, p.optimal_utilization as int) == p.base_rate + p.slope1,
        spec_rate_above_kink(p, p.optimal_utilization as int) == p.base_rate + p.slope1,
        spec_rate_below_kink(p, p.optimal_utilization as int) == spec_rate_above_kink(
            p,
            p.optimal_utilization as int,
        ),
{
    let w = WAD as int;
    let opt = p.optimal_utilization as int;
    assert((opt * w) / opt == w) by (nonlinear_arith)
        requires
            0 < opt,
            w > 0,
    ;
    assert(w * p.slope1 / w == p.slope1) by (nonlinear_arith)
        requires
            w > 0,
            p.slope1 >= 0,
    ;
    assert((opt - opt) * w / (w - opt) == 0) by (nonlinear_arith)
        requires
            0 < w - opt,
    ;
}

/// The exact outcome of accruing interest on `p` at time `now`.
pub open spec fn spec_accrue(p: LendingPool, now: i64) -> Result<LendingPool, ErrorCode> {
    if p.last_update_timestamp == 0 {
        Ok(LendingPool { last_update_timestamp: now, ..p })
    } else if now <= p.last_update_timestamp {
        Ok(p)
    } else {
        let elapsed = now - p.last_update_timestamp;
        match spec_borrow_rate(p) {
            Err(e) => Err(e),
            Ok(rate) => {
                let year_fraction = (elapsed * WAD) / (SECONDS_PER_YEAR as int);
                if rate * year_fraction > u128::MAX {
                    Err(ErrorCode::MathOverflow)
                } else {
                    let period_rate = (rate * year_fraction) / (WAD as int);
                    if WAD + period_rate > u128::MAX {
                        Err(ErrorCode::MathOverflow)
                    } else if p.cumulative_borrow_rate * (WAD + period_rate) > u128::MAX {
                        Err(ErrorCode::MathOverflow)
                    } else {
                        let new_borrow_index = (p.cumulative_borrow_rate * (WAD + period_rate)) / (
                        WAD as int);
                        if p.total_deposits == 0 {
                            Ok(
                                LendingPool {
                                    cumulative_borrow_rate: new_borrow_index as u128,
                                    last_update_timestamp: now,
                                    ..p
                                },
                            )
                        } else {
                            let u = spec_utilization(p);
                            if rate * u > u128::MAX {
                                Err(ErrorCode::MathOverflow)
                            } else if ((rate * u) / (WAD as int)) * year_fraction > u128::MAX {
                                Err(ErrorCode::MathOverflow)
                            } else {
                                let supply_period_rate = (((rate * u) / (WAD as int))
                                    * year_fraction) / (WAD as int);
                                if WAD + supply_period_rate > u128::MAX {
                                    Err(ErrorCode::MathOverflow)
                                } else if p.cumulative_deposit_rate * (WAD + supply_period_rate)
                                    > u128::MAX {
                                    Err(ErrorCode::MathOverflow)
                                } else {
                                    let new_deposit_index = (p.cumulative_deposit_rate * (WAD
                                        + supply_period_rate)) / (WAD as int);
                                    Ok(
                                        LendingPool {
                                            cumulative_borrow_rate: new_borrow_index as u128,
                                            cumulative_deposit_rate: new_deposit_index as u128,
                                            last_update_timestamp: now,
                                            ..p
                                        },
                                    )
                                }
                            }
                        }
                    }
                }
            },
        }
    }
}

/// Accrue interest on a pool up to `now`.
///
/// A first call stamps the clock; a call at or before the last update is a
/// no-op; otherwise both cumulative indices compound by the borrow rate
/// (scaled by utilization on the deposit side) for the elapsed time. On any
/// failure the pool is left exactly as it was. Whatever the outcome,
/// neither cumulative index ever decreases and the clock never runs
/// backwards.
pub fn accrue_interest(pool: &mut LendingPool, now: i64) -> (r: Result<(), ErrorCode>)
    requires
        old(pool).wf(),
        now >= 0,
    ensures
        spec_accrue(*old(pool), now) is Ok ==> r is Ok && *final(pool) == spec_accrue(
            *old(pool),
            now,
        )->Ok_0,
        spec_accrue(*old(pool), now) is Err ==> r == Err::<(), ErrorCode>(
            spec_accrue(*old(pool), now)->Err_0,
        ) && *final(pool) == *old(pool),
        final(pool).cumulative_borrow_rate >= old(pool).cumulative_borrow_rate,
        final(pool).cumulative_deposit_rate >= old(pool).cumulative_deposit_rate,
        final(pool).last_update_timestamp >= old(pool).last_update_timestamp,
        final(pool).wf(),
{
    if pool.last_update_timestamp == 0 {
        pool.last_update_timestamp = now;
        return Ok(());
    }
    if now <= pool.last_update_timestamp {
        return Ok(());
    }

    let elapsed: u128 = (now - pool.last_update_timestamp) as u128;
    assert(elapsed * WAD <= u64::MAX * (WAD as int)) by (nonlinear_arith)
        requires
            0 <= elapsed <= u64::MAX,
    ;

    let pool_now: LendingPool = *pool;
    let borrow_rate: u128 = match calculate_borrow_rate(&pool_now) {
        Ok(v) => v,
        Err(e) => {
            return Err(e);
        },
    };

    let year_fraction: u128 = match wad_div(elapsed, SECONDS_PER_YEAR) {
        Ok(v) => v,
        Err(e) => {
            return Err(e);
        },
    };
    let period_rate: u128 = match wad_mul(borrow_rate, year_fraction) {
        Ok(v) => v,
        Err(e) => {
            return Err(e);
        },
    };
    let rate_factor: u128 = match WAD.checked_add(period_rate) {
        Some(v) => v,
        None => {
            return Err(ErrorCode::MathOverflow);
        },
    };
    let new_borrow_index: u128 = match wad_mul(pool.cumulative_borrow_rate, rate_factor) {
        Ok(v) => v,
        Err(e) => {
            return Err(e);
        },
    };
    proof {
        lemma_compound_index_grows(
            pool.cumulative_borrow_rate as int,
            rate_factor as int,
            period_rate as int,
        );
    }

    if pool.total_deposits > 0 {
        assert(pool.total_borrows * WAD <= u64::MAX * (WAD as int)) by (nonlinear_arith)
            requires
                pool.total_borrows <= u64::MAX,
        ;
        let utilization: u128 = match wad_div(pool.total_borrows as u128, pool.total_deposits as u128) {
            Ok(v) => v,
            Err(e) => {
                return Err(e);
            },
        };
        let rate_times_util: u128 = match wad_mul(borrow_rate, utilization) {
            Ok(v) => v,
            Err(e) => {
                return Err(e);
            },
        };
        let supply_period_rate: u128 = match wad_mul(rate_times_util, year_fraction) {
            Ok(v) => v,
            Err(e) => {
                return Err(e);
            },
        };
        let supply_factor: u128 = match WAD.checked_add(supply_period_rate) {
            Some(v) => v,
            None => {
                return Err(ErrorCode::MathOverflow);
            },
        };
        let new_deposit_index: u128 = match wad_mul(pool.cumulative_deposit_rate, supply_factor) {
            Ok(v) => v,
            Err(e) => {
                return Err(e);
            },
        };
        proof {
            lemma_compound_index_grows(
                pool.cumulative_deposit_rate as int,
                supply_factor as int,
                supply_period_rate as int,
            );
        }
        pool.cumulative_borrow_rate = new_borrow_index;
        pool.cumulative_deposit_rate = new_deposit_index;
        pool.last_update_timestamp = now;
        Ok(())
    } else {
        pool.cumulative_borrow_rate = new_borrow_index;
        pool.last_update_timestamp = now;
        Ok(())
    }
}

/// Compounding by a factor of at least 1.0 WAD never shrinks an index.
proof fn lemma_compound_index_grows(index: int, factor: int, period_rate: int)
    requires
        index >= 0,
        period_rate >= 0,
        factor == WAD + period_rate,
    ensures
        (index * factor) / (WAD as int) >= index,
{
    assert((index * factor) / (WAD as int) >= index) by (nonlinear_arith)
        requires
            index >= 0,
            factor >= WAD,
            WAD > 0,
    ;
}

/// Live balance of a raw amount under index growth:
/// floor(amount * current_index / snapshot_index).
pub open spec fn spec_index_balance(amount: int, snapshot: int, current: int) -> int
    recommends
        snapshot > 0,
{
    (amount * current) / snapshot
}

/// The exact outcome of the balance computation: a zero amount or an
/// unstamped snapshot passes the raw amount through, and each narrowing
/// is overflow-checked.
pub open spec fn spec_index_balance_outcome(amount: u64, snapshot: u128, current: u128) -> Result<
    u64,
    ErrorCode,
> {
    if amount == 0 || snapshot == 0 {
        Ok(amount)
    } else if amount * current > u128::MAX {
        Err(ErrorCode::MathOverflow)
    } else if spec_index_balance(amount as int, snapshot as int, current as int) > u64::MAX {
        Err(ErrorCode::MathOverflow)
    } else {
        Ok(spec_index_balance(amount as int, snapshot as int, current as int) as u64)
    }
}

/// Current debt of a position: its raw borrowed amount grown by the ratio
/// of the pool's borrow index to the position's snapshot.
pub fn get_borrow_balance(borrowed_amount: u64, snapshot_rate: u128, current_rate: u128) -> (r:
    Result<u64, ErrorCode>)
    ensures
        r == spec_index_balance_outcome(borrowed_amount, snapshot_rate, current_rate),
{
    index_balance(borrowed_amount, snapshot_rate, current_rate)
}

/// Current deposit of a position, grown like `get_borrow_balance` but along
/// the deposit index.
pub fn get_deposit_balance(deposited_amount: u64, snapshot_rate: u128, current_rate: u128) -> (r:
    Result<u64, ErrorCode>)
    ensures
        r == spec_index_balance_outcome(deposited_amount, snapshot_rate, current_rate),
{
    index_balance(deposited_amount, snapshot_rate, current_rate)
}

/// Shared body of the two balance readers.
fn index_balance(amount: u64, snapshot_rate: u128, current_rate: u128) -> (r: Result<
    u64,
    ErrorCode,
>)
    ensures
        r == spec_index_balance_outcome(amount, snapshot_rate, current_rate),
{
    if amount == 0 || snapshot_rate == 0 {
        return Ok(amount);
    }
    let grown: u128 = match (amount as u128).checked_mul(current_rate) {
        Some(v) => v,
        None => {
            return Err(ErrorCode::MathOverflow);
        },
    };
    let balance: u128 = grown / snapshot_rate;
    if balance > u64::MAX as u128 {
        Err(ErrorCode::MathOverflow)
    } else {
        Ok(balance as u64)
    }
}

} // verus!
