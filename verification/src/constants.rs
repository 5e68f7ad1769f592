//! Fixed-point scales, protocol limits and default parameters.

use vstd::prelude::*;

verus! {

/// WAD fixed-point scale: 1.0 is represented as 10^18.
pub const WAD: u128 = 1_000_000_000_000_000_000;

/// WAD as a signed value, for funding arithmetic.
pub const WAD_I128: i128 = 1_000_000_000_000_000_000;

/// Oracle prices are quoted with six decimals: 1.0 is 10^6.
pub const PRICE_PRECISION: u64 = 1_000_000;

/// Basis-point denominator: 100% is 10_000 bps.
pub const BPS_DENOMINATOR: u64 = 10_000;

/// Factor turning a PRICE_PRECISION-scaled value into a WAD-scaled one.
pub const WAD_PER_PRICE_UNIT: u128 = 1_000_000_000_000;

// Fee limits (in basis points)
pub const MAX_SWAP_FEE_BPS: u64 = 100;
pub const MAX_PERP_FEE_BPS: u64 = 50;
pub const MAX_LENDING_FEE_BPS: u64 = 200;

// Leverage limits
pub const MIN_LEVERAGE: u64 = 1;
pub const MAX_LEVERAGE: u64 = 50;
pub const DEFAULT_MAX_LEVERAGE: u64 = 20;

// Liquidation thresholds
pub const PERP_LIQUIDATION_THRESHOLD: u64 = 500;
pub const LENDING_LIQUIDATION_THRESHOLD: u128 = WAD;
pub const LIQUIDATION_BONUS_BPS: u64 = 500;
pub const MAX_LIQUIDATION_FRACTION_BPS: u64 = 5_000;

// Interest rate model defaults (WAD-scaled)
pub const DEFAULT_OPTIMAL_UTILIZATION: u128 = 800_000_000_000_000_000;
pub const DEFAULT_BASE_RATE: u128 = 20_000_000_000_000_000;
pub const DEFAULT_SLOPE1: u128 = 40_000_000_000_000_000;
pub const DEFAULT_SLOPE2: u128 = 750_000_000_000_000_000;

/// Seconds in a (non-leap) year, the interest accrual base.
pub const SECONDS_PER_YEAR: u128 = 31_536_000;

// Funding rate
pub const FUNDING_INTERVAL: i64 = 3600;
pub const MAX_FUNDING_RATE: u128 = 10_000_000_000_000_000;

// Oracle
pub const MAX_ORACLE_STALENESS: u64 = 60;

// Position limits
pub const MAX_PERP_POSITIONS: u8 = 10;
pub const MAX_LENDING_POSITIONS: u8 = 10;

// Fund fee limits (in basis points)
pub const MAX_PERFORMANCE_FEE_BPS: u64 = 2_000;
pub const MAX_MANAGEMENT_FEE_BPS: u64 = 500;

// Fund governance
pub const MIN_PROPOSAL_SHARES: u64 = 1_000_000;
pub const PROPOSAL_VOTING_PERIOD: i64 = 5;
pub const PROPOSAL_EXECUTION_DEADLINE: i64 = 60;

// Fund limits
pub const MAX_FUND_HOLDINGS: u8 = 20;
pub const MAX_ACTIVE_PROPOSALS: u8 = 10;
pub const INITIAL_NAV_PER_SHARE: u128 = WAD;

} // verus!
