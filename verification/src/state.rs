//! The records every operation works over: exchange configuration, user
//! stats, perpetual markets and positions, lending pools and positions,
//! the pooled fund, its holdings and its governance proposals.
//!
//! Addresses, signatures and account storage live outside this core; a
//! record here carries exactly the plain values the logic reads and writes.

use vstd::prelude::*;

use crate::constants::WAD;

verus! {

/// Global exchange configuration shared by all operations.
#[derive(Clone, Copy, Debug, PartialEq, Eq, Structural)]
pub struct Exchange {
    // Fee settings (in basis points)
    pub swap_fee_bps: u64,
    pub perp_open_fee_bps: u64,
    pub perp_close_fee_bps: u64,
    pub lending_fee_bps: u64,
    // Leverage
    pub max_leverage: u64,
    // Liquidation
    pub liquidation_bonus_bps: u64,
    pub max_liquidation_fraction_bps: u64,
    // Pause flags
    pub swap_paused: bool,
    pub perp_paused: bool,
    pub lending_paused: bool,
    // Counters
    pub total_perp_markets: u64,
    pub total_lending_pools: u64,
    pub total_users: u64,
}

/// Per-user position counts and cumulative trading statistics.
#[derive(Clone, Copy, Debug, PartialEq, Eq, Structural)]
pub struct UserAccount {
    pub open_perp_positions: u8,
    pub open_lending_positions: u8,
    pub total_trades: u64,
    pub total_pnl: i64,
    pub total_volume: u64,
    pub total_fees_paid: u64,
    pub created_at: i64,
    pub last_activity: i64,
}

/// Which side of a perpetual market a position is on.
#[derive(Clone, Copy, Debug, PartialEq, Eq, Structural, Default)]
pub enum PositionSide {
    #[default]
    Long,
    Short,
}

/// A perpetual futures market: leverage limits, open interest per side and
/// the cumulative funding indices.
#[derive(Clone, Copy, Debug, PartialEq, Eq, Structural)]
pub struct PerpMarket {
    pub market_index: u16,
    // Leverage limits
    pub max_leverage: u64,
    pub min_position_size: u64,
    // Open interest tracking (in base units)
    pub long_open_interest: u64,
    pub short_open_interest: u64,
    pub max_open_interest: u64,
    // Funding (WAD precision, signed)
    pub funding_rate: i128,
    pub cumulative_funding_long: i128,
    pub cumulative_funding_short: i128,
    pub last_funding_update: i64,
    // Status
    pub paused: bool,
}

impl PerpMarket {
    /// The two cumulative funding indices are mirror images: each update
    /// moves them in opposite directions by the same magnitude, so their
    /// sum stays at zero.
    pub open spec fn funding_mirrored(self) -> bool {
        self.cumulative_funding_long + self.cumulative_funding_short == 0
    }
}

/// An open perpetual position.
#[derive(Clone, Copy, Debug, PartialEq, Eq, Structural)]
pub struct PerpPosition {
    pub side: PositionSide,
    pub size: u64,
    pub collateral: u64,
    pub entry_price: u64,
    pub leverage: u64,
    // Funding snapshot (WAD precision)
    pub cumulative_funding_snapshot: i128,
    // Computed at open
    pub liquidation_price: u64,
    // PnL tracking
    pub realized_pnl: i64,
    pub unrealized_pnl: i64,
    // Timestamps
    pub opened_at: i64,
    pub last_updated: i64,
}

/// A lending pool: kinked rate-curve parameters, pool totals and the
/// cumulative interest indices.
#[derive(Clone, Copy, Debug, PartialEq, Eq, Structural)]
pub struct LendingPool {
    pub pool_index: u16,
    // Interest rate model params (WAD precision)
    pub optimal_utilization: u128,
    pub base_rate: u128,
    pub slope1: u128,
    pub slope2: u128,
    // Collateral factor (WAD precision)
    pub collateral_factor: u128,
    // Pool state
    pub total_deposits: u64,
    pub total_borrows: u64,
    // Cumulative rate accumulators (WAD precision)
    pub cumulative_deposit_rate: u128,
    pub cumulative_borrow_rate: u128,
    pub last_update_timestamp: i64,
    // Limits
    pub deposit_limit: u64,
    pub borrow_limit: u64,
    // Status
    pub paused: bool,
}

impl LendingPool {
    /// Both cumulative indices start at 1.0 WAD and only ever grow, and the
    /// accrual clock never runs backwards past zero.
    pub open spec fn wf(self) -> bool {
        &&& self.cumulative_deposit_rate >= WAD
        &&& self.cumulative_borrow_rate >= WAD
        &&& self.last_update_timestamp >= 0
    }
}

/// One user's deposit and debt in a lending pool, with the index snapshots
/// its raw amounts are relative to.
#[derive(Clone, Copy, Debug, PartialEq, Eq, Structural)]
pub struct LendingPosition {
    pub deposited_amount: u64,
    pub borrowed_amount: u64,
    // Cumulative rate snapshots (WAD precision)
    pub cumulative_deposit_rate_snapshot: u128,
    pub cumulative_borrow_rate_snapshot: u128,
    pub last_updated: i64,
}

impl LendingPosition {
    /// A zeroed record, as a freshly allocated position starts out; the
    /// first deposit stamps the index snapshots.
    pub fn empty() -> (r: LendingPosition)
        ensures
            r == (LendingPosition {
                deposited_amount: 0,
                borrowed_amount: 0,
                cumulative_deposit_rate_snapshot: 0,
                cumulative_borrow_rate_snapshot: 0,
                last_updated: 0,
            }),
    {
        LendingPosition {
            deposited_amount: 0,
            borrowed_amount: 0,
            cumulative_deposit_rate_snapshot: 0,
            cumulative_borrow_rate_snapshot: 0,
            last_updated: 0,
        }
    }

    /// A position is fresh until its first deposit stamps the snapshots.
    pub open spec fn is_fresh(self) -> bool {
        self.cumulative_deposit_rate_snapshot == 0
    }
}

/// Exchange-owned vault bookkeeping: fees collected and insurance balance.
#[derive(Clone, Copy, Debug, PartialEq, Eq, Structural)]
pub struct VaultState {
    pub collected_fees: u64,
    pub insurance_balance: u64,
}

/// Lifecycle of the pooled fund.
#[derive(Clone, Copy, Debug, PartialEq, Eq, Structural)]
pub enum FundStatus {
    Active,
    Paused,
    WindingDown,
}

/// The pooled fund: share accounting, NAV, fees and governance counters.
#[derive(Clone, Copy, Debug, PartialEq, Eq, Structural)]
pub struct Fund {
    // Fund accounting
    pub total_deposits: u64,
    pub total_shares: u64,
    pub nav_per_share: u128,
    pub total_nav: u128,
    // Fee configuration (basis points)
    pub performance_fee_bps: u64,
    pub management_fee_bps: u64,
    // Governance
    pub total_proposals: u64,
    pub active_proposals: u8,
    pub total_holdings: u8,
    // Status
    pub status: FundStatus,
    // Timestamps
    pub created_at: i64,
    pub last_nav_update: i64,
    pub last_fee_collection: i64,
    // Performance tracking
    pub high_water_mark: u128,
}

/// How a priced leg contributes to fund NAV: positively for assets, and
/// negatively for short exposure and debt.
#[derive(Clone, Copy, Debug, PartialEq, Eq, Structural)]
pub enum HoldingType {
    Spot,
    PerpLong,
    PerpShort,
    LendingDeposit,
    LendingBorrow,
}

impl HoldingType {
    /// True for the legs that add to NAV, false for those that subtract.
    pub open spec fn is_positive(self) -> bool {
        match self {
            HoldingType::Spot | HoldingType::PerpLong | HoldingType::LendingDeposit => true,
            HoldingType::PerpShort | HoldingType::LendingBorrow => false,
        }
    }
}

/// A priced leg of the fund's portfolio.
#[derive(Clone, Copy, Debug, PartialEq, Eq, Structural)]
pub struct FundHolding {
    pub amount: u64,
    pub value_usd: u128,
    pub holding_type: HoldingType,
    pub holding_index: u8,
    pub last_updated: i64,
}

/// What a passed proposal authorizes the fund to do.
#[derive(Clone, Copy, Debug, PartialEq, Eq, Structural)]
pub enum ActionType {
    Swap,
    OpenPerp,
    ClosePerp,
    DepositLending,
    WithdrawLending,
    Borrow,
    Repay,
    UpdateParam,
}

/// Lifecycle of a governance proposal. `Active` resolves to `Passed` or
/// `Failed` at the end of voting; only `Passed` can become `Executed`, and
/// only before the execution deadline.
#[derive(Clone, Copy, Debug, PartialEq, Eq, Structural)]
pub enum ProposalStatus {
    Active,
    Passed,
    Failed,
    Executed,
    Expired,
}

/// A conditional-market-gated governance proposal.
#[derive(Clone, Copy, Debug, PartialEq, Eq)]
pub struct Proposal {
    pub proposal_index: u64,
    // Action
    pub action_type: ActionType,
    pub action_data: [u8; 256],
    // TWAP readings from the conditional market pair
    pub pass_twap: u128,
    pub fail_twap: u128,
    // Status
    pub status: ProposalStatus,
    // Timing
    pub voting_start: i64,
    pub voting_end: i64,
    pub execution_deadline: i64,
    pub executed_at: i64,
}

} // verus!
