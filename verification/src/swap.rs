//! Swap fee accounting and slippage settlement.
//!
//! The venue that fills a swap lives outside this core: the caller routes
//! the post-fee amount to it and observes the output token balance before
//! and after. This operation prices the fee, books it, and settles the
//! observed fill against the user's slippage bound — rejecting an empty
//! or short fill — in one atomic step.

use vstd::prelude::*;

use crate::constants::BPS_DENOMINATOR;
use crate::errors::ErrorCode;
use crate::fixed_point::bps_mul;
use crate::state::{Exchange, UserAccount, VaultState};

verus! {

/// Parameters of a swap: the input amount and the least acceptable
/// output.
#[derive(Clone, Copy, Debug, PartialEq, Eq, Structural)]
pub struct ExecuteSwapParams {
    pub amount_in: u64,
    pub minimum_amount_out: u64,
}

/// What a settled swap records: the fee taken, the amount actually routed
/// to the venue and the output credited to the user.
#[derive(Clone, Copy, Debug, PartialEq, Eq, Structural)]
pub struct SwapOutcome {
    pub fee: u64,
    pub amount_routed: u64,
    pub amount_out: u64,
}

/// The exact outcome of settling a swap, given the output balance before
/// and after the venue's fill.
pub open spec fn spec_execute_swap(
    ex: Exchange,
    user: UserAccount,
    vault: VaultState,
    params: ExecuteSwapParams,
    balance_before: u64,
    balance_after: u64,
    now: i64,
) -> Result<(UserAccount, VaultState, SwapOutcome), ErrorCode> {
    if ex.swap_paused {
        Err(ErrorCode::ExchangePaused)
    } else if params.amount_in == 0 {
        Err(ErrorCode::InvalidAmount)
    } else if (params.amount_in * ex.swap_fee_bps) / (BPS_DENOMINATOR as int) > u64::MAX {
        Err(ErrorCode::MathOverflow)
    } else {
        let fee = (params.amount_in * ex.swap_fee_bps) / (BPS_DENOMINATOR as int);
        if params.amount_in - fee < 0 {
            Err(ErrorCode::MathUnderflow)
        } else if fee > 0 && vault.collected_fees + fee > u64::MAX {
            Err(ErrorCode::MathOverflow)
        } else if balance_after - balance_before < 0 {
            Err(ErrorCode::MathUnderflow)
        } else if balance_after - balance_before == 0 {
            Err(ErrorCode::SwapOutputZero)
        } else if balance_after - balance_before < params.minimum_amount_out {
            Err(ErrorCode::SlippageExceeded)
        } else if user.total_trades + 1 > u64::MAX {
            Err(ErrorCode::MathOverflow)
        } else if user.total_volume + params.amount_in > u64::MAX {
            Err(ErrorCode::MathOverflow)
        } else if user.total_fees_paid + fee > u64::MAX {
            Err(ErrorCode::MathOverflow)
        } else {
            let new_user = UserAccount {
                total_trades: (user.total_trades + 1) as u64,
                total_volume: (user.total_volume + params.amount_in) as u64,
                total_fees_paid: (user.total_fees_paid + fee) as u64,
                last_activity: now,
                ..user
            };
            let new_vault = VaultState {
                collected_fees: if fee > 0 {
                    (vault.collected_fees + fee) as u64
                } else {
                    vault.collected_fees
                },
                ..vault
            };
            let outcome = SwapOutcome {
                fee: fee as u64,
                amount_routed: (params.amount_in - fee) as u64,
                amount_out: (balance_after - balance_before) as u64,
            };
            Ok((new_user, new_vault, outcome))
        }
    }
}

/// Settle a swap after the external venue's fill.
///
/// Checks, in order: swapping is not paused; the input amount is
/// positive; the basis-point fee is computable and leaves a non-negative
/// routed amount; the fee fits the vault's counter; the observed output
/// (the balance movement) is positive (`SwapOutputZero`) and meets the
/// user's minimum (`SlippageExceeded`). On success the vault books the
/// fee and the user's trade counters advance; on any failure both are
/// unchanged.
pub fn execute_swap(
    exchange: &Exchange,
    user: &mut UserAccount,
    vault_state: &mut VaultState,
    params: ExecuteSwapParams,
    balance_before: u64,
    balance_after: u64,
    now: i64,
) -> (r: Result<SwapOutcome, ErrorCode>)
    ensures
        ({
            let outcome = spec_execute_swap(*exchange, *old(user), *old(vault_state), params,
                balance_before, balance_after, now);
            match outcome {
                Err(e) => r == Err::<SwapOutcome, ErrorCode>(e) && *final(user) == *old(user)
                    && *final(vault_state) == *old(vault_state),
                Ok(updated) => r == Ok::<SwapOutcome, ErrorCode>(updated.2) && *final(user)
                    == updated.0 && *final(vault_state) == updated.1,
            }
        }),
{
    if exchange.swap_paused {
        return Err(ErrorCode::ExchangePaused);
    }
    if params.amount_in == 0 {
        return Err(ErrorCode::InvalidAmount);
    }
    let fee: u64 = match bps_mul(params.amount_in, exchange.swap_fee_bps) {
        Ok(v) => v,
        Err(e) => {
            return Err(e);
        },
    };
    let amount_routed: u64 = match params.amount_in.checked_sub(fee) {
        Some(v) => v,
        None => {
            return Err(ErrorCode::MathUnderflow);
        },
    };
    let new_collected: u64 = if fee > 0 {
        match vault_state.collected_fees.checked_add(fee) {
            Some(v) => v,
            None => {
                return Err(ErrorCode::MathOverflow);
            },
        }
    } else {
        vault_state.collected_fees
    };
    let amount_out: u64 = match balance_after.checked_sub(balance_before) {
        Some(v) => v,
        None => {
            return Err(ErrorCode::MathUnderflow);
        },
    };
    if amount_out == 0 {
        return Err(ErrorCode::SwapOutputZero);
    }
    if amount_out < params.minimum_amount_out {
        return Err(ErrorCode::SlippageExceeded);
    }
    let new_trades: u64 = match user.total_trades.checked_add(1) {
        Some(v) => v,
        None => {
            return Err(ErrorCode::MathOverflow);
        },
    };
    let new_volume: u64 = match user.total_volume.checked_add(params.amount_in) {
        Some(v) => v,
        None => {
            return Err(ErrorCode::MathOverflow);
        },
    };
    let new_fees_paid: u64 = match user.total_fees_paid.checked_add(fee) {
        Some(v) => v,
        None => {
            return Err(ErrorCode::MathOverflow);
        },
    };
    user.total_trades = new_trades;
    user.total_volume = new_volume;
    user.total_fees_paid = new_fees_paid;
    user.last_activity = now;
    vault_state.collected_fees = new_collected;
    Ok(SwapOutcome { fee, amount_routed, amount_out })
}

} // verus!
