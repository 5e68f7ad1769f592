//! Single discriminated failure reason per operation.
//!
//! Every fallible call reports exactly one error; when several conditions are
//! violated at once, the first one checked wins, and the order of checks is
//! part of each operation's contract.

use vstd::prelude::*;

verus! {

/// Failure taxonomy: arithmetic, oracle, state/authorization, capacity and
/// domain errors.
#[derive(Clone, Copy, Debug, PartialEq, Eq, Structural)]
pub enum ErrorCode {
    // General
    MathOverflow,
    MathUnderflow,
    DivisionByZero,
    InvalidAmount,
    Unauthorized,
    ExchangePaused,
    InvalidParameter,
    AlreadyInitialized,
    // Oracle
    OraclePriceStale,
    OraclePriceInvalid,
    OracleConfidenceTooWide,
    OracleAccountMismatch,
    // Swap
    SlippageExceeded,
    UnsupportedProtocol,
    SwapOutputZero,
    InsufficientSwapBalance,
    // Perp
    ExcessiveLeverage,
    PositionTooSmall,
    PositionNotFound,
    OpenInterestLimitExceeded,
    NotLiquidatable,
    FundingIntervalNotElapsed,
    InvalidPositionSide,
    CloseAmountExceedsPosition,
    InsufficientCollateral,
    MaxPerpPositionsReached,
    // Lending
    InsufficientCollateralValue,
    HealthFactorBelowMinimum,
    InsufficientPoolLiquidity,
    RepayExceedsDebt,
    WithdrawalWouldLiquidate,
    LendingNotLiquidatable,
    MaxLendingPositionsReached,
    InvalidCollateralFactor,
    // Admin
    FeeExceedsMaximum,
    LeverageOutOfBounds,
    InsufficientVaultBalance,
    // Fund
    FundPaused,
    InsufficientShares,
    MaxActiveProposals,
    MaxFundHoldings,
    ProposalNotActive,
    ProposalNotPassed,
    ProposalExpired,
    VotingPeriodNotEnded,
    InvalidActionData,
    NavStale,
    FundWindingDown,
    InsufficientFundLiquidity,
}

} // verus!
