//! Risk-and-accounting core for an exchange: WAD fixed-point arithmetic,
//! oracle price normalization, a kinked interest-rate model with cumulative
//! index accrual, perpetual funding and PnL settlement, liquidation and
//! health-factor rules, pooled-fund NAV and share pricing, and a
//! conditional-market-gated governance proposal state machine.
//!
//! Every operation is a single atomic state transition over the records the
//! caller supplies; a failed call leaves every record unchanged.

pub mod bytes;
pub mod constants;
pub mod errors;
pub mod fixed_point;
pub mod fund_ops;
pub mod funding;
pub mod governance;
pub mod interest;
pub mod lending;
pub mod liquidation;
pub mod nav;
pub mod oracle;
pub mod payload;
pub mod perp;
pub mod setup;
pub mod state;
pub mod swap;
