//! Fund NAV aggregation and per-share pricing.
//!
//! Total NAV is the vault balance at WAD scale plus the signed sum of the
//! fund's priced holdings: spot, long-perp and lending-deposit legs add,
//! short-perp and lending-borrow legs subtract. NAV per share divides by
//! the outstanding shares, and is 1.0 WAD while no shares exist.

use vstd::prelude::*;

use crate::constants::{WAD, WAD_PER_PRICE_UNIT};
use crate::errors::ErrorCode;
use crate::fixed_point::to_wad;
use crate::state::FundHolding;

verus! {

/// Totals of a NAV computation, both at WAD scale.
#[derive(Clone, Copy, Debug, PartialEq, Eq, Structural)]
pub struct NavResult {
    pub total_nav_wad: u128,
    pub nav_per_share_wad: u128,
}

/// WAD value of one holding at its oracle price: amount times price,
/// brought from price precision up to WAD scale.
pub open spec fn spec_holding_value(h: FundHolding, price: u64) -> int {
    if h.amount > 0 {
        h.amount * price * WAD_PER_PRICE_UNIT
    } else {
        0
    }
}

/// Signed contribution of one holding to NAV.
pub open spec fn spec_signed_holding_value(h: FundHolding, price: u64) -> int {
    if h.holding_type.is_positive() {
        spec_holding_value(h, price)
    } else {
        -spec_holding_value(h, price)
    }
}

/// Plain signed sum of a holdings list's contributions.
pub open spec fn spec_nav_sum(s: Seq<(FundHolding, u64)>) -> int
    decreases s.len(),
{
    if s.len() == 0 {
        0
    } else {
        spec_signed_holding_value(s.first().0, s.first().1) + spec_nav_sum(s.drop_first())
    }
}

/// The exact outcome of accumulating a holdings list left to right from
/// `acc`: a holding whose value cannot be represented overflows, a
/// positive leg that lifts the running total past u128::MAX overflows,
/// and a negative leg that drags it below zero underflows.
pub open spec fn spec_nav_fold(s: Seq<(FundHolding, u64)>, acc: int) -> Result<int, ErrorCode>
    decreases s.len(),
{
    if s.len() == 0 {
        Ok(acc)
    } else {
        let value = spec_holding_value(s.first().0, s.first().1);
        if value > u128::MAX {
            Err(ErrorCode::MathOverflow)
        } else if s.first().0.holding_type.is_positive() {
            if acc + value > u128::MAX {
                Err(ErrorCode::MathOverflow)
            } else {
                spec_nav_fold(s.drop_first(), acc + value)
            }
        } else {
            if acc - value < 0 {
                Err(ErrorCode::MathUnderflow)
            } else {
                spec_nav_fold(s.drop_first(), acc - value)
            }
        }
    }
}

/// When the accumulation succeeds it computes exactly the starting value
/// plus the plain signed sum: the order only decides whether an
/// intermediate total leaves the representable range, never the result.
pub proof fn lemma_nav_fold_is_sum(s: Seq<(FundHolding, u64)>, acc: int)
    requires
        spec_nav_fold(s, acc) is Ok,
    ensures
        spec_nav_fold(s, acc)->Ok_0 == acc + spec_nav_sum(s),
    decreases s.len(),
{
    if s.len() > 0 {
        let value = spec_signed_holding_value(s.first().0, s.first().1);
        lemma_nav_fold_is_sum(s.drop_first(), acc + value);
    }
}

/// A successful accumulation from a representable start stays
/// representable: every step is checked against the u128 range.
pub proof fn lemma_nav_fold_in_range(s: Seq<(FundHolding, u64)>, acc: int)
    requires
        0 <= acc <= u128::MAX,
        spec_nav_fold(s, acc) is Ok,
    ensures
        0 <= spec_nav_fold(s, acc)->Ok_0 <= u128::MAX,
    decreases s.len(),
{
    if s.len() > 0 {
        let value = spec_signed_holding_value(s.first().0, s.first().1);
        lemma_nav_fold_in_range(s.drop_first(), acc + value);
    }
}

/// Removing one element takes exactly its contribution out of the sum.
proof fn lemma_nav_sum_remove(s: Seq<(FundHolding, u64)>, j: int)
    requires
        0 <= j < s.len(),
    ensures
        spec_nav_sum(s.remove(j)) == spec_nav_sum(s) - spec_signed_holding_value(s[j].0, s[j].1),
    decreases s.len(),
{
    if j == 0 {
        assert(s.remove(0) =~= s.drop_first());
    } else {
        assert(s.remove(j).drop_first() =~= s.drop_first().remove(j - 1));
        lemma_nav_sum_remove(s.drop_first(), j - 1);
    }
}

/// The signed sum is invariant under reordering of the holdings list:
/// two lists with the same holdings in any order have the same sum, and
/// an empty list contributes nothing, so NAV is then the vault balance
/// alone.
pub proof fn lemma_nav_sum_permutation(s1: Seq<(FundHolding, u64)>, s2: Seq<(FundHolding, u64)>)
    requires
        s1.to_multiset() == s2.to_multiset(),
    ensures
        spec_nav_sum(s1) == spec_nav_sum(s2),
    decreases s1.len(),
{
    broadcast use vstd::seq_lib::group_to_multiset_ensures;

    if s1.len() == 0 {
        assert(s2.to_multiset().len() == 0);
    } else {
        let x = s1.first();
        assert(s1.to_multiset().count(x) > 0) by {
            assert(s1.contains(x));
        }
        assert(s2.contains(x));
        let j = choose|j: int| 0 <= j < s2.len() && s2[j] == x;
        assert(s1.remove(0).to_multiset() =~= s1.to_multiset().remove(x));
        assert(s2.remove(j).to_multiset() =~= s2.to_multiset().remove(x));
        assert(s1.remove(0) =~= s1.drop_first());
        lemma_nav_sum_permutation(s1.drop_first(), s2.remove(j));
        lemma_nav_sum_remove(s2, j);
    }
}

/// Total NAV and per-share price from the vault balance and the priced
/// holdings, each holding paired with its oracle price.
///
/// Accumulates the signed holding values onto the WAD-scaled vault
/// balance exactly as `spec_nav_fold` lays out; with an empty holdings
/// list the NAV is the vault balance alone. NAV per share is 1.0 WAD
/// while no shares exist, else the floor of total NAV over the shares.
pub fn calculate_total_nav(
    vault_balance: u64,
    holdings: &Vec<(FundHolding, u64)>,
    total_shares: u64,
) -> (r: Result<NavResult, ErrorCode>)
    ensures
        ({
            let outcome = spec_nav_fold(holdings@, vault_balance * WAD);
            match outcome {
                Err(e) => r == Err::<NavResult, ErrorCode>(e),
                Ok(total) => r == Ok::<NavResult, ErrorCode>(NavResult {
                    total_nav_wad: total as u128,
                    nav_per_share_wad: if total_shares == 0 {
                        WAD
                    } else {
                        (total / (total_shares as int)) as u128
                    },
                }),
            }
        }),
        holdings@.len() == 0 ==> r is Ok && r->Ok_0.total_nav_wad == vault_balance * WAD,
{
    assert(vault_balance * WAD <= u64::MAX * (WAD as int)) by (nonlinear_arith)
        requires
            vault_balance <= u64::MAX,
    ;
    let mut total_nav_wad: u128 = match to_wad(vault_balance) {
        Ok(v) => v,
        Err(e) => {
            return Err(e);
        },
    };
    let ghost full = holdings@;
    let ghost start = total_nav_wad as int;
    proof {
        assert(full.skip(0) =~= full);
    }
    let count: usize = holdings.len();
    let mut idx: usize = 0;
    while idx < count
        invariant
            idx <= count == full.len(),
            full == holdings@,
            start == vault_balance * WAD,
            spec_nav_fold(full, start) == spec_nav_fold(full.skip(idx as int), total_nav_wad as int),
        decreases count - idx,
    {
        let holding: FundHolding = holdings[idx].0;
        let price: u64 = holdings[idx].1;
        proof {
            assert(full.skip(idx as int).first() == full[idx as int]);
            assert(full.skip(idx as int).drop_first() =~= full.skip(idx as int + 1));
            assert(holding.amount * price <= u64::MAX * (u64::MAX as int)) by (nonlinear_arith)
                requires
                    holding.amount <= u64::MAX,
                    price <= u64::MAX,
            ;
        }
        let value_wad: u128 = if holding.amount > 0 {
            let raw_value: u128 = (holding.amount as u128) * (price as u128);
            match raw_value.checked_mul(WAD_PER_PRICE_UNIT) {
                Some(v) => v,
                None => {
                    proof {
                        assert(spec_holding_value(holding, price) > u128::MAX);
                        assert(spec_nav_fold(full.skip(idx as int), total_nav_wad as int) == Err::<
                            int,
                            ErrorCode,
                        >(ErrorCode::MathOverflow));
                    }
                    return Err(ErrorCode::MathOverflow);
                },
            }
        } else {
            0
        };
        match holding.holding_type {
            crate::state::HoldingType::Spot
            | crate::state::HoldingType::PerpLong
            | crate::state::HoldingType::LendingDeposit => {
                total_nav_wad = match total_nav_wad.checked_add(value_wad) {
                    Some(v) => v,
                    None => {
                        return Err(ErrorCode::MathOverflow);
                    },
                };
            },
            crate::state::HoldingType::PerpShort | crate::state::HoldingType::LendingBorrow => {
                total_nav_wad = match total_nav_wad.checked_sub(value_wad) {
                    Some(v) => v,
                    None => {
                        return Err(ErrorCode::MathUnderflow);
                    },
                };
            },
        }
        idx = idx + 1;
    }
    proof {
        assert(full.skip(count as int) =~= Seq::<(FundHolding, u64)>::empty());
    }

    let nav_per_share_wad: u128 = if total_shares == 0 {
        WAD
    } else {
        total_nav_wad / (total_shares as u128)
    };

    Ok(NavResult { total_nav_wad, nav_per_share_wad })
}

} // verus!
