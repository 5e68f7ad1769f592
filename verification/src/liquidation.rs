//! PnL, health factors and liquidation rules.
//!
//! A perpetual position's health is its effective collateral (collateral
//! plus PnL minus funding) as a basis-point fraction of its notional; a
//! lending position's health is its weighted collateral value over its
//! debt value at WAD scale. Zero exposure means maximal health; exhausted
//! collateral means zero health.

use vstd::prelude::*;

use crate::constants::{BPS_DENOMINATOR, PERP_LIQUIDATION_THRESHOLD, PRICE_PRECISION, WAD};
use crate::errors::ErrorCode;
use crate::fixed_point::{div_trunc, lemma_div_trunc_shrinks, wad_div};
use crate::state::PositionSide;

verus! {

/// Signed PnL of a position at `current_price`: the price move times the
/// size, truncating at the price precision; a short negates the move.
pub open spec fn spec_pnl(side: PositionSide, size: u64, entry_price: u64, current_price: u64) -> int {
    let diff = if side is Long {
        current_price - entry_price
    } else {
        entry_price - current_price
    };
    div_trunc(size * diff, PRICE_PRECISION as int)
}

/// The exact outcome of the PnL computation: the widened product must fit
/// an i128 and the final value an i64, else `MathOverflow`.
pub open spec fn spec_compute_pnl(
    side: PositionSide,
    size: u64,
    entry_price: u64,
    current_price: u64,
) -> Result<i64, ErrorCode> {
    let diff = if side is Long {
        current_price - entry_price
    } else {
        entry_price - current_price
    };
    if !(i128::MIN <= size * diff <= i128::MAX) {
        Err(ErrorCode::MathOverflow)
    } else if !(i64::MIN <= spec_pnl(side, size, entry_price, current_price) <= i64::MAX) {
        Err(ErrorCode::MathOverflow)
    } else {
        Ok(spec_pnl(side, size, entry_price, current_price) as i64)
    }
}

/// PnL of a perpetual position, exact in a widened signed type and
/// narrowed with overflow checking.
pub fn compute_pnl(side: &PositionSide, size: u64, entry_price: u64, current_price: u64) -> (r:
    Result<i64, ErrorCode>)
    ensures
        r == spec_compute_pnl(*side, size, entry_price, current_price),
{
    let diff: i128 = match side {
        PositionSide::Long => (current_price as i128) - (entry_price as i128),
        PositionSide::Short => (entry_price as i128) - (current_price as i128),
    };
    let product: i128 = match (size as i128).checked_mul(diff) {
        Some(v) => v,
        None => {
            return Err(ErrorCode::MathOverflow);
        },
    };
    proof {
        lemma_div_trunc_shrinks(product as int, PRICE_PRECISION as int);
    }
    let pnl: i128 = match product.checked_div(PRICE_PRECISION as i128) {
        Some(v) => v,
        None => {
            return Err(ErrorCode::DivisionByZero);
        },
    };
    if pnl > i64::MAX as i128 || pnl < i64::MIN as i128 {
        Err(ErrorCode::MathOverflow)
    } else {
        Ok(pnl as i64)
    }
}

/// Effective collateral backing a perpetual position.
pub open spec fn spec_effective_collateral(collateral: u64, pnl: i64, funding_payment: i64) -> int {
    collateral + pnl - funding_payment
}

/// Notional exposure of a position: floor(size * price / precision).
pub open spec fn spec_notional(size: u64, price: u64) -> int {
    (size * price) / (PRICE_PRECISION as int)
}

/// Health of a perpetual position in basis points, over its effective
/// collateral and notional: zero when the collateral is exhausted, the
/// full 10_000 bps when there is no exposure, otherwise the collateral as
/// a bps fraction of the notional.
pub open spec fn spec_perp_health(effective_collateral: int, notional: int) -> int {
    if effective_collateral <= 0 {
        0
    } else if notional == 0 {
        BPS_DENOMINATOR as int
    } else {
        (effective_collateral * BPS_DENOMINATOR) / notional
    }
}

/// The exact outcome of the perp health computation: the effective
/// collateral must stay inside i64 at each step of
/// collateral + pnl - funding, and the final bps value inside u64.
pub open spec fn spec_perp_health_factor(
    collateral: u64,
    pnl: i64,
    funding_payment: i64,
    size: u64,
    current_price: u64,
) -> Result<u64, ErrorCode> {
    if collateral > i64::MAX {
        Err(ErrorCode::MathOverflow)
    } else if !(i64::MIN <= collateral + pnl <= i64::MAX) {
        Err(ErrorCode::MathOverflow)
    } else if !(i64::MIN <= collateral + pnl - funding_payment <= i64::MAX) {
        Err(ErrorCode::MathOverflow)
    } else {
        let health = spec_perp_health(
            spec_effective_collateral(collateral, pnl, funding_payment),
            spec_notional(size, current_price),
        );
        if health > u64::MAX {
            Err(ErrorCode::MathOverflow)
        } else {
            Ok(health as u64)
        }
    }
}

/// Health factor of a perpetual position in basis points.
pub fn compute_perp_health_factor(
    collateral: u64,
    pnl: i64,
    funding_payment: i64,
    size: u64,
    current_price: u64,
) -> (r: Result<u64, ErrorCode>)
    ensures
        r == spec_perp_health_factor(collateral, pnl, funding_payment, size, current_price),
{
    if collateral > i64::MAX as u64 {
        return Err(ErrorCode::MathOverflow);
    }
    let with_pnl: i64 = match (collateral as i64).checked_add(pnl) {
        Some(v) => v,
        None => {
            return Err(ErrorCode::MathOverflow);
        },
    };
    let effective_collateral: i64 = match with_pnl.checked_sub(funding_payment) {
        Some(v) => v,
        None => {
            return Err(ErrorCode::MathOverflow);
        },
    };
    if effective_collateral <= 0 {
        return Ok(0);
    }
    assert(size * current_price <= u64::MAX * (u64::MAX as int)) by (nonlinear_arith)
        requires
            size <= u64::MAX,
            current_price <= u64::MAX,
    ;
    let notional: u128 = ((size as u128) * (current_price as u128)) / (PRICE_PRECISION as u128);
    if notional == 0 {
        return Ok(BPS_DENOMINATOR);
    }
    let health: u128 = ((effective_collateral as u128) * (BPS_DENOMINATOR as u128)) / notional;
    if health > u64::MAX as u128 {
        Err(ErrorCode::MathOverflow)
    } else {
        Ok(health as u64)
    }
}

/// A perpetual position is liquidatable exactly when its health falls
/// below the maintenance threshold.
pub fn is_perp_liquidatable(health_factor: u64) -> (r: bool)
    ensures
        r == (health_factor < PERP_LIQUIDATION_THRESHOLD),
{
    health_factor < PERP_LIQUIDATION_THRESHOLD
}

/// The exact outcome of the liquidation-price computation: the entry price
/// shifted against the position by the maintenance-discounted margin per
/// unit, floored at zero for longs and overflow-checked for shorts.
pub open spec fn spec_liquidation_price(
    side: PositionSide,
    entry_price: u64,
    collateral: u64,
    size: u64,
) -> Result<u64, ErrorCode> {
    if size == 0 {
        Ok(0u64)
    } else {
        let margin_per_unit = (collateral * PRICE_PRECISION) / (size as int);
        let effective_margin = (margin_per_unit * (BPS_DENOMINATOR - PERP_LIQUIDATION_THRESHOLD))
            / (BPS_DENOMINATOR as int);
        if side is Long {
            if entry_price - effective_margin < 0 {
                Ok(0u64)
            } else {
                Ok((entry_price - effective_margin) as u64)
            }
        } else {
            if entry_price + effective_margin > u64::MAX {
                Err(ErrorCode::MathOverflow)
            } else {
                Ok((entry_price + effective_margin) as u64)
            }
        }
    }
}

/// Price at which a freshly opened position becomes liquidatable.
pub fn compute_liquidation_price(
    side: &PositionSide,
    entry_price: u64,
    collateral: u64,
    size: u64,
) -> (r: Result<u64, ErrorCode>)
    ensures
        r == spec_liquidation_price(*side, entry_price, collateral, size),
{
    if size == 0 {
        return Ok(0);
    }
    assert(collateral * PRICE_PRECISION <= u64::MAX * (PRICE_PRECISION as int))
        by (nonlinear_arith)
        requires
            collateral <= u64::MAX,
    ;
    let margin_per_unit: u128 = ((collateral as u128) * (PRICE_PRECISION as u128)) / (size as u128);
    assert(margin_per_unit * (BPS_DENOMINATOR - PERP_LIQUIDATION_THRESHOLD) <= (u64::MAX
        * (PRICE_PRECISION as int)) * (BPS_DENOMINATOR as int)) by (nonlinear_arith)
        requires
            0 <= margin_per_unit <= u64::MAX * (PRICE_PRECISION as int),
            0 < BPS_DENOMINATOR - PERP_LIQUIDATION_THRESHOLD <= BPS_DENOMINATOR,
    ;
    let effective_margin: u128 = (margin_per_unit * ((BPS_DENOMINATOR - PERP_LIQUIDATION_THRESHOLD)
        as u128)) / (BPS_DENOMINATOR as u128);
    match side {
        PositionSide::Long => {
            if (entry_price as u128) < effective_margin {
                Ok(0)
            } else {
                Ok(((entry_price as u128) - effective_margin) as u64)
            }
        },
        PositionSide::Short => {
            let raised: u128 = (entry_price as u128) + effective_margin;
            if raised > u64::MAX as u128 {
                Err(ErrorCode::MathOverflow)
            } else {
                Ok(raised as u64)
            }
        },
    }
}

/// Health of a lending position at WAD scale: maximal when there is no
/// debt, otherwise the weighted collateral value over the debt value.
pub open spec fn spec_lending_health(weighted_collateral_value: int, total_borrow_value: int) -> int {
    if total_borrow_value == 0 {
        u128::MAX as int
    } else {
        (weighted_collateral_value * WAD) / total_borrow_value
    }
}

/// Health factor of a lending position: u128::MAX with no debt, else
/// floor(weighted_collateral * WAD / borrow_value), overflowing only when
/// the collateral value cannot be scaled to WAD.
pub fn compute_lending_health_factor(
    weighted_collateral_value: u128,
    total_borrow_value: u128,
) -> (r: Result<u128, ErrorCode>)
    ensures
        total_borrow_value == 0 ==> r == Ok::<u128, ErrorCode>(u128::MAX),
        total_borrow_value != 0 && weighted_collateral_value * WAD > u128::MAX ==> r == Err::<
            u128,
            ErrorCode,
        >(ErrorCode::MathOverflow),
        total_borrow_value != 0 && weighted_collateral_value * WAD <= u128::MAX ==> r == Ok::<
            u128,
            ErrorCode,
        >(
            spec_lending_health(
                weighted_collateral_value as int,
                total_borrow_value as int,
            ) as u128,
        ),
{
    if total_borrow_value == 0 {
        return Ok(u128::MAX);
    }
    wad_div(weighted_collateral_value, total_borrow_value)
}

/// Perp health is monotone: it never decreases as effective collateral
/// grows, and, away from the zero-notional sentinel, never increases as
/// notional grows.
pub proof fn lemma_perp_health_monotonic(ec1: int, ec2: int, n1: int, n2: int)
    requires
        ec1 <= ec2,
        0 < n1 <= n2,
    ensures
        spec_perp_health(ec1, n1) <= spec_perp_health(ec2, n1),
        spec_perp_health(ec1, n1) >= spec_perp_health(ec1, n2),
{
    if ec1 > 0 {
        assert((ec1 * BPS_DENOMINATOR) / n1 <= (ec2 * BPS_DENOMINATOR) / n1) by (nonlinear_arith)
            requires
                0 < ec1 <= ec2,
                n1 > 0,
                BPS_DENOMINATOR > 0,
        ;
        assert((ec1 * BPS_DENOMINATOR) / n1 >= (ec1 * BPS_DENOMINATOR) / n2) by (nonlinear_arith)
            requires
                ec1 > 0,
                0 < n1 <= n2,
                BPS_DENOMINATOR > 0,
        ;
    } else {
        assert(spec_perp_health(ec1, n1) == 0);
        if ec2 > 0 {
            assert((ec2 * BPS_DENOMINATOR) / n1 >= 0) by (nonlinear_arith)
                requires
                    ec2 > 0,
                    n1 > 0,
                    BPS_DENOMINATOR > 0,
            ;
        }
    }
}

/// Lending health is monotone: it never decreases as weighted collateral
/// grows and never increases as debt value grows.
pub proof fn lemma_lending_health_monotonic(wc1: int, wc2: int, bv1: int, bv2: int)
    requires
        0 <= wc1 <= wc2,
        0 <= bv1 <= bv2,
        wc2 * WAD <= u128::MAX,
    ensures
        spec_lending_health(wc1, bv2) <= spec_lending_health(wc2, bv2),
        spec_lending_health(wc1, bv1) >= spec_lending_health(wc1, bv2),
{
    if bv2 != 0 {
        assert((wc1 * WAD) / bv2 <= (wc2 * WAD) / bv2) by (nonlinear_arith)
            requires
                0 <= wc1 <= wc2,
                bv2 > 0,
                WAD > 0,
        ;
        if bv1 != 0 {
            assert((wc1 * WAD) / bv1 >= (wc1 * WAD) / bv2) by (nonlinear_arith)
                requires
                    wc1 >= 0,
                    0 < bv1 <= bv2,
                    WAD > 0,
            ;
        } else {
            assert((wc1 * WAD) / bv2 <= u128::MAX) by (nonlinear_arith)
                requires
                    0 <= wc1 * WAD <= u128::MAX,
                    bv2 > 0,
            ;
        }
    }
}

/// A position with no exposure but positive effective collateral sits at
/// full health and is never liquidatable; a position whose effective
/// collateral is exhausted has zero health and is always liquidatable.
pub proof fn lemma_liquidation_edge_cases(effective_collateral: int, notional: int)
    requires
        notional >= 0,
    ensures
        effective_collateral > 0 && notional == 0 ==> spec_perp_health(
            effective_collateral,
            notional,
        ) >= PERP_LIQUIDATION_THRESHOLD,
        effective_collateral <= 0 ==> spec_perp_health(effective_collateral, notional)
            < PERP_LIQUIDATION_THRESHOLD,
{
}

} // verus!
