//! Pooled-fund operations: creation, deposits, withdrawals and the NAV
//! update.
//!
//! Shares price against the fund's recorded NAV per share: the first
//! deposit mints one share per unit, later deposits mint at the current
//! per-share price, and withdrawals burn shares for their per-share
//! value, limited by the vault's liquidity.

use vstd::prelude::*;

use crate::constants::{
    INITIAL_NAV_PER_SHARE, MAX_MANAGEMENT_FEE_BPS, MAX_PERFORMANCE_FEE_BPS, WAD,
};
use crate::errors::ErrorCode;
use crate::nav::{calculate_total_nav, spec_nav_fold, NavResult};
use crate::state::{Fund, FundHolding, FundStatus};

verus! {

/// Parameters of a new fund: its fee configuration in basis points.
#[derive(Clone, Copy, Debug, PartialEq, Eq, Structural)]
pub struct InitializeFundParams {
    pub performance_fee_bps: u64,
    pub management_fee_bps: u64,
}

/// Create a fund with its fee configuration.
///
/// The performance and management fees must not exceed their caps
/// (`FeeExceedsMaximum`, performance checked first). A new fund is
/// active, empty, and prices shares at exactly 1.0 WAD, which is also
/// its initial high-water mark.
pub fn initialize_fund(params: InitializeFundParams, now: i64) -> (r: Result<Fund, ErrorCode>)
    ensures
        params.performance_fee_bps > MAX_PERFORMANCE_FEE_BPS ==> r == Err::<Fund, ErrorCode>(
            ErrorCode::FeeExceedsMaximum,
        ),
        params.performance_fee_bps <= MAX_PERFORMANCE_FEE_BPS && params.management_fee_bps
            > MAX_MANAGEMENT_FEE_BPS ==> r == Err::<Fund, ErrorCode>(ErrorCode::FeeExceedsMaximum),
        params.performance_fee_bps <= MAX_PERFORMANCE_FEE_BPS && params.management_fee_bps
            <= MAX_MANAGEMENT_FEE_BPS ==> r == Ok::<Fund, ErrorCode>(Fund {
            total_deposits: 0,
            total_shares: 0,
            nav_per_share: INITIAL_NAV_PER_SHARE,
            total_nav: 0,
            performance_fee_bps: params.performance_fee_bps,
            management_fee_bps: params.management_fee_bps,
            total_proposals: 0,
            active_proposals: 0,
            total_holdings: 0,
            status: FundStatus::Active,
            created_at: now,
            last_nav_update: now,
            last_fee_collection: now,
            high_water_mark: INITIAL_NAV_PER_SHARE,
        }),
{
    if params.performance_fee_bps > MAX_PERFORMANCE_FEE_BPS {
        return Err(ErrorCode::FeeExceedsMaximum);
    }
    if params.management_fee_bps > MAX_MANAGEMENT_FEE_BPS {
        return Err(ErrorCode::FeeExceedsMaximum);
    }
    Ok(
        Fund {
            total_deposits: 0,
            total_shares: 0,
            nav_per_share: INITIAL_NAV_PER_SHARE,
            total_nav: 0,
            performance_fee_bps: params.performance_fee_bps,
            management_fee_bps: params.management_fee_bps,
            total_proposals: 0,
            active_proposals: 0,
            total_holdings: 0,
            status: FundStatus::Active,
            created_at: now,
            last_nav_update: now,
            last_fee_collection: now,
            high_water_mark: INITIAL_NAV_PER_SHARE,
        },
    )
}

/// The exact outcome of a deposit: the first deposit mints shares one for
/// one; later deposits mint floor(amount * WAD / nav_per_share). A
/// deposit that would mint nothing is rejected.
pub open spec fn spec_deposit_to_fund(fund: Fund, amount: u64) -> Result<(Fund, u64), ErrorCode> {
    if fund.status != FundStatus::Active {
        Err(ErrorCode::FundPaused)
    } else if amount == 0 {
        Err(ErrorCode::InvalidAmount)
    } else if fund.total_shares != 0 && fund.nav_per_share == 0 {
        Err(ErrorCode::DivisionByZero)
    } else {
        let shares = if fund.total_shares == 0 {
            amount as int
        } else {
            (amount * WAD) / (fund.nav_per_share as int)
        };
        if shares > u64::MAX {
            Err(ErrorCode::MathOverflow)
        } else if shares == 0 {
            Err(ErrorCode::InvalidAmount)
        } else if fund.total_deposits + amount > u64::MAX {
            Err(ErrorCode::MathOverflow)
        } else if fund.total_shares + shares > u64::MAX {
            Err(ErrorCode::MathOverflow)
        } else {
            let new_fund = Fund {
                total_deposits: (fund.total_deposits + amount) as u64,
                total_shares: (fund.total_shares + shares) as u64,
                ..fund
            };
            Ok((new_fund, shares as u64))
        }
    }
}

/// Deposit into an active fund, returning the shares to mint.
///
/// Requires an active fund (`FundPaused`) and a positive amount; the
/// first deposit mints shares one for one, later deposits mint at the
/// recorded NAV per share, and a deposit that would mint zero shares is
/// rejected (`InvalidAmount`). On success the fund's deposit and share
/// totals grow accordingly; on any failure the fund is unchanged.
pub fn deposit_to_fund(fund: &mut Fund, amount: u64) -> (r: Result<u64, ErrorCode>)
    ensures
        ({
            let outcome = spec_deposit_to_fund(*old(fund), amount);
            match outcome {
                Err(e) => r == Err::<u64, ErrorCode>(e) && *final(fund) == *old(fund),
                Ok(updated) => r == Ok::<u64, ErrorCode>(updated.1) && *final(fund) == updated.0,
            }
        }),
{
    if !matches!(fund.status, FundStatus::Active) {
        return Err(ErrorCode::FundPaused);
    }
    if amount == 0 {
        return Err(ErrorCode::InvalidAmount);
    }
    let shares_to_mint: u64 = if fund.total_shares == 0 {
        amount
    } else {
        if fund.nav_per_share == 0 {
            return Err(ErrorCode::DivisionByZero);
        }
        assert(amount * WAD <= u64::MAX * (WAD as int)) by (nonlinear_arith)
            requires
                amount <= u64::MAX,
        ;
        let amount_wad: u128 = (amount as u128) * WAD;
        let shares_wad: u128 = amount_wad / fund.nav_per_share;
        if shares_wad > u64::MAX as u128 {
            return Err(ErrorCode::MathOverflow);
        }
        shares_wad as u64
    };
    if shares_to_mint == 0 {
        return Err(ErrorCode::InvalidAmount);
    }
    let new_deposits: u64 = match fund.total_deposits.checked_add(amount) {
        Some(v) => v,
        None => {
            return Err(ErrorCode::MathOverflow);
        },
    };
    let new_shares: u64 = match fund.total_shares.checked_add(shares_to_mint) {
        Some(v) => v,
        None => {
            return Err(ErrorCode::MathOverflow);
        },
    };
    fund.total_deposits = new_deposits;
    fund.total_shares = new_shares;
    Ok(shares_to_mint)
}

/// The exact outcome of a withdrawal: shares burn at the recorded NAV per
/// share, and the payout must be positive, covered by the vault and by
/// the withdrawer's share balance.
pub open spec fn spec_withdraw_from_fund(
    fund: Fund,
    shares: u64,
    user_share_balance: u64,
    vault_balance: u64,
) -> Result<(Fund, u64), ErrorCode> {
    if fund.status == FundStatus::Paused {
        Err(ErrorCode::FundPaused)
    } else if shares == 0 {
        Err(ErrorCode::InvalidAmount)
    } else if user_share_balance < shares {
        Err(ErrorCode::InsufficientShares)
    } else if shares * fund.nav_per_share > u128::MAX {
        Err(ErrorCode::MathOverflow)
    } else {
        let payout = (shares * fund.nav_per_share) / (WAD as int);
        if payout > u64::MAX {
            Err(ErrorCode::MathOverflow)
        } else if payout == 0 {
            Err(ErrorCode::InvalidAmount)
        } else if vault_balance < payout {
            Err(ErrorCode::InsufficientFundLiquidity)
        } else if fund.total_shares < shares {
            Err(ErrorCode::MathUnderflow)
        } else {
            let new_fund = Fund { total_shares: (fund.total_shares - shares) as u64, ..fund };
            Ok((new_fund, payout as u64))
        }
    }
}

/// Withdraw from a fund by burning shares, returning the payout owed.
///
/// A paused fund rejects withdrawals (`FundPaused`; a winding-down fund
/// still honors them). The withdrawer must hold the shares
/// (`InsufficientShares`), the payout floor(shares * nav_per_share / WAD)
/// must be positive (`InvalidAmount`) and covered by the vault's
/// liquidity (`InsufficientFundLiquidity`). On success the fund's share
/// total shrinks by the burned shares; on any failure the fund is
/// unchanged.
pub fn withdraw_from_fund(
    fund: &mut Fund,
    shares: u64,
    user_share_balance: u64,
    vault_balance: u64,
) -> (r: Result<u64, ErrorCode>)
    ensures
        ({
            let outcome = spec_withdraw_from_fund(*old(fund), shares, user_share_balance,
                vault_balance);
            match outcome {
                Err(e) => r == Err::<u64, ErrorCode>(e) && *final(fund) == *old(fund),
                Ok(updated) => r == Ok::<u64, ErrorCode>(updated.1) && *final(fund) == updated.0,
            }
        }),
{
    if matches!(fund.status, FundStatus::Paused) {
        return Err(ErrorCode::FundPaused);
    }
    if shares == 0 {
        return Err(ErrorCode::InvalidAmount);
    }
    if user_share_balance < shares {
        return Err(ErrorCode::InsufficientShares);
    }
    let scaled: u128 = match (shares as u128).checked_mul(fund.nav_per_share) {
        Some(v) => v,
        None => {
            return Err(ErrorCode::MathOverflow);
        },
    };
    let payout_wide: u128 = scaled / WAD;
    if payout_wide > u64::MAX as u128 {
        return Err(ErrorCode::MathOverflow);
    }
    let payout: u64 = payout_wide as u64;
    if payout == 0 {
        return Err(ErrorCode::InvalidAmount);
    }
    if vault_balance < payout {
        return Err(ErrorCode::InsufficientFundLiquidity);
    }
    let new_shares: u64 = match fund.total_shares.checked_sub(shares) {
        Some(v) => v,
        None => {
            return Err(ErrorCode::MathUnderflow);
        },
    };
    fund.total_shares = new_shares;
    Ok(payout)
}

/// The exact outcome of a NAV update: the holdings fold onto the vault
/// balance, and the high-water mark ratchets up to the new NAV per share
/// when it sets a record.
pub open spec fn spec_update_fund_nav(
    fund: Fund,
    vault_balance: u64,
    holdings: Seq<(FundHolding, u64)>,
    now: i64,
) -> Result<Fund, ErrorCode> {
    match spec_nav_fold(holdings, vault_balance * WAD) {
        Err(e) => Err(e),
        Ok(total) => {
            let nav_per_share = if fund.total_shares == 0 {
                WAD as int
            } else {
                total / (fund.total_shares as int)
            };
            Ok(
                Fund {
                    total_nav: total as u128,
                    nav_per_share: nav_per_share as u128,
                    last_nav_update: now,
                    high_water_mark: if nav_per_share > fund.high_water_mark {
                        nav_per_share as u128
                    } else {
                        fund.high_water_mark
                    },
                    ..fund
                },
            )
        },
    }
}

/// Recompute a fund's NAV from its vault balance and priced holdings.
///
/// On success the fund records the new total NAV and NAV per share, and
/// the high-water mark ratchets: it never decreases, and always sits at
/// or above the freshly recorded NAV per share. On any failure the fund
/// is unchanged.
pub fn update_fund_nav(
    fund: &mut Fund,
    vault_balance: u64,
    holdings: &Vec<(FundHolding, u64)>,
    now: i64,
) -> (r: Result<(), ErrorCode>)
    ensures
        ({
            let outcome = spec_update_fund_nav(*old(fund), vault_balance, holdings@, now);
            match outcome {
                Err(e) => r == Err::<(), ErrorCode>(e) && *final(fund) == *old(fund),
                Ok(updated) => r == Ok::<(), ErrorCode>(()) && *final(fund) == updated,
            }
        }),
        final(fund).high_water_mark >= old(fund).high_water_mark,
        r is Ok ==> final(fund).high_water_mark >= final(fund).nav_per_share,
{
    let total_shares: u64 = fund.total_shares;
    assert(vault_balance * WAD <= u64::MAX * (WAD as int)) by (nonlinear_arith)
        requires
            vault_balance <= u64::MAX,
    ;
    let nav: NavResult = match calculate_total_nav(vault_balance, holdings, total_shares) {
        Ok(v) => v,
        Err(e) => {
            return Err(e);
        },
    };
    proof {
        crate::nav::lemma_nav_fold_in_range(holdings@, vault_balance * WAD);
        let total = spec_nav_fold(holdings@, vault_balance * WAD)->Ok_0;
        if total_shares != 0 {
            assert(0 <= total / (total_shares as int) <= total) by (nonlinear_arith)
                requires
                    total >= 0,
                    total_shares > 0,
            ;
        }
    }
    fund.total_nav = nav.total_nav_wad;
    fund.nav_per_share = nav.nav_per_share_wad;
    fund.last_nav_update = now;
    if nav.nav_per_share_wad > fund.high_water_mark {
        fund.high_water_mark = nav.nav_per_share_wad;
    }
    Ok(())
}

} // verus!
