//! Open-interest-imbalance funding for perpetual markets.
//!
//! The funding rate is the signed open-interest imbalance as a WAD
//! fraction of total open interest, clamped to the per-interval maximum.
//! A position's funding payment is its size times the movement of its
//! side's cumulative index since the position's snapshot: positive means
//! the position pays, negative means it receives.

use vstd::prelude::*;

use crate::constants::{MAX_FUNDING_RATE, WAD, WAD_I128};
use crate::errors::ErrorCode;
use crate::fixed_point::{div_trunc, lemma_div_trunc_shrinks, wad_mul_signed};
use crate::state::PerpMarket;

verus! {

/// The exact outcome of the funding-rate computation: zero on an empty
/// market, otherwise the clamped WAD-scaled imbalance fraction.
pub open spec fn spec_funding_rate(m: PerpMarket) -> Result<i128, ErrorCode> {
    if m.long_open_interest + m.short_open_interest > u64::MAX {
        Err(ErrorCode::MathOverflow)
    } else if m.long_open_interest + m.short_open_interest == 0 {
        Ok(0)
    } else {
        let total = m.long_open_interest + m.short_open_interest;
        let rate = div_trunc((m.long_open_interest - m.short_open_interest) * WAD, total);
        let max = MAX_FUNDING_RATE as int;
        if rate > max {
            Ok(MAX_FUNDING_RATE as i128)
        } else if rate < -max {
            Ok((-(MAX_FUNDING_RATE as i128)) as i128)
        } else {
            Ok(rate as i128)
        }
    }
}

/// Funding rate of a market from its open-interest imbalance.
///
/// Unless the two sides' open interest together overflow a u64, the
/// computation succeeds and the result lies within the clamp bounds.
pub fn calculate_funding_rate(market: &PerpMarket) -> (r: Result<i128, ErrorCode>)
    ensures
        r == spec_funding_rate(*market),
        market.long_open_interest + market.short_open_interest <= u64::MAX ==> r is Ok && -(
        MAX_FUNDING_RATE as int) <= r->Ok_0 <= MAX_FUNDING_RATE,
{
    let total_oi: u64 = match market.long_open_interest.checked_add(market.short_open_interest) {
        Some(v) => v,
        None => {
            return Err(ErrorCode::MathOverflow);
        },
    };
    if total_oi == 0 {
        return Ok(0);
    }
    let imbalance: i128 = (market.long_open_interest as i128) - (market.short_open_interest
        as i128);
    assert(-(u64::MAX as int) * (WAD as int) <= imbalance * WAD <= u64::MAX * (WAD as int))
        by (nonlinear_arith)
        requires
            -(u64::MAX as int) <= imbalance <= u64::MAX,
    ;
    let scaled: i128 = match imbalance.checked_mul(WAD_I128) {
        Some(v) => v,
        None => {
            return Err(ErrorCode::MathOverflow);
        },
    };
    proof {
        lemma_div_trunc_shrinks(scaled as int, total_oi as int);
    }
    let rate: i128 = match scaled.checked_div(total_oi as i128) {
        Some(v) => v,
        None => {
            return Err(ErrorCode::DivisionByZero);
        },
    };
    let max: i128 = MAX_FUNDING_RATE as i128;
    if rate > max {
        Ok(max)
    } else if rate < -max {
        Ok(-max)
    } else {
        Ok(rate)
    }
}

/// The exact outcome of settling a position's funding: its size times the
/// movement of its side's cumulative index since the snapshot, truncating
/// at WAD scale and narrowing to i64 with overflow checks.
pub open spec fn spec_position_funding(
    size: u64,
    is_long: bool,
    cumulative_funding_long: i128,
    cumulative_funding_short: i128,
    position_snapshot: i128,
) -> Result<i64, ErrorCode> {
    let current = if is_long {
        cumulative_funding_long
    } else {
        cumulative_funding_short
    };
    if !(i128::MIN <= current - position_snapshot <= i128::MAX) {
        Err(ErrorCode::MathOverflow)
    } else if !(i128::MIN <= size * (current - position_snapshot) <= i128::MAX) {
        Err(ErrorCode::MathOverflow)
    } else {
        let payment = div_trunc(size * (current - position_snapshot), WAD as int);
        if !(i64::MIN <= payment <= i64::MAX) {
            Err(ErrorCode::MathOverflow)
        } else {
            Ok(payment as i64)
        }
    }
}

/// Funding payment owed by (positive) or to (negative) a position.
pub fn compute_position_funding(
    size: u64,
    is_long: bool,
    cumulative_funding_long: i128,
    cumulative_funding_short: i128,
    position_snapshot: i128,
) -> (r: Result<i64, ErrorCode>)
    ensures
        r == spec_position_funding(
            size,
            is_long,
            cumulative_funding_long,
            cumulative_funding_short,
            position_snapshot,
        ),
{
    let current_cumulative: i128 = if is_long {
        cumulative_funding_long
    } else {
        cumulative_funding_short
    };
    let delta: i128 = match current_cumulative.checked_sub(position_snapshot) {
        Some(v) => v,
        None => {
            return Err(ErrorCode::MathOverflow);
        },
    };
    let payment: i128 = match wad_mul_signed(size as i128, delta) {
        Ok(v) => v,
        Err(e) => {
            return Err(e);
        },
    };
    if payment > i64::MAX as i128 || payment < i64::MIN as i128 {
        Err(ErrorCode::MathOverflow)
    } else {
        Ok(payment as i64)
    }
}

} // verus!
