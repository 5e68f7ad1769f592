//! Oracle price feed normalization.
//!
//! A feed account is a byte buffer of at least 112 bytes carrying, in
//! little-endian order, a signed price at offset 73, a confidence at 81,
//! a decimal exponent at 89 and a publish time at 93. The normalizer
//! rejects short buffers, non-positive prices and stale readings, and
//! rescales price and confidence to the fixed six-decimal precision.

use vstd::prelude::*;

use crate::bytes::{le_i32_at, le_i64_at, le_u64_at, spec_le_i32_at, spec_le_i64_at, spec_le_u64_at};
use crate::constants::MAX_ORACLE_STALENESS;
use crate::errors::ErrorCode;

verus! {

/// A normalized oracle reading: price and confidence carry six decimals.
#[derive(Clone, Copy, Debug, PartialEq, Eq, Structural)]
pub struct OraclePrice {
    pub price: u64,
    pub confidence: u64,
    pub timestamp: i64,
}

/// 10^e as a mathematical integer.
pub open spec fn spec_pow10(e: nat) -> int
    decreases e,
{
    if e == 0 {
        1
    } else {
        10 * spec_pow10((e - 1) as nat)
    }
}

/// What a raw feed value scales to at six target decimals: multiplied by
/// 10^(6 + exponent) when the shift is non-negative, floor-divided by
/// 10^-(6 + exponent) otherwise.
pub open spec fn spec_normalized(raw: int, exponent: int) -> int
    recommends
        raw >= 0,
{
    let shift = 6 + exponent;
    if shift >= 0 {
        raw * spec_pow10(shift as nat)
    } else {
        raw / spec_pow10((-shift) as nat)
    }
}

proof fn lemma_pow10_increases(a: nat, b: nat)
    requires
        a <= b,
    ensures
        spec_pow10(a) <= spec_pow10(b),
        spec_pow10(a) >= 1,
    decreases b,
{
    if b > 0 {
        lemma_pow10_increases(if a < b {
            a
        } else {
            (b - 1) as nat
        }, (b - 1) as nat);
    }
}

/// 10^e for e <= 19, the largest power of ten a u64 holds.
fn pow10_u64(e: u32) -> (r: u64)
    requires
        e <= 19,
    ensures
        r == spec_pow10(e as nat),
{
    proof {
        reveal_with_fuel(spec_pow10, 20);
        assert(spec_pow10(19) == 10_000_000_000_000_000_000);
    }
    let mut acc: u64 = 1;
    let mut i: u32 = 0;
    while i < e
        invariant
            i <= e <= 19,
            acc == spec_pow10(i as nat),
            spec_pow10(19) == 10_000_000_000_000_000_000,
        decreases e - i,
    {
        proof {
            lemma_pow10_increases((i + 1) as nat, 19);
        }
        acc = acc * 10;
        i = i + 1;
    }
    acc
}

/// Rescale a raw non-negative feed value with its decimal exponent to six
/// decimals, reporting overflow instead of truncating.
pub fn normalize_price(raw_price: u64, exponent: i32) -> (r: Result<u64, ErrorCode>)
    ensures
        spec_normalized(raw_price as int, exponent as int) <= u64::MAX ==> r == Ok::<
            u64,
            ErrorCode,
        >(spec_normalized(raw_price as int, exponent as int) as u64),
        spec_normalized(raw_price as int, exponent as int) > u64::MAX ==> r == Err::<
            u64,
            ErrorCode,
        >(ErrorCode::MathOverflow),
{
    let shift: i64 = 6 + (exponent as i64);
    if shift >= 0 {
        if shift >= 20 {
            proof {
                lemma_pow10_increases(20, shift as nat);
                reveal_with_fuel(spec_pow10, 21);
                assert(spec_pow10(20) == 100_000_000_000_000_000_000);
                if raw_price > 0 {
                    assert(raw_price * spec_pow10(shift as nat) >= spec_pow10(shift as nat))
                        by (nonlinear_arith)
                        requires
                            raw_price >= 1,
                            spec_pow10(shift as nat) >= 0,
                    ;
                }
            }
            if raw_price == 0 {
                Ok(0)
            } else {
                Err(ErrorCode::MathOverflow)
            }
        } else {
            let factor: u64 = pow10_u64(shift as u32);
            match raw_price.checked_mul(factor) {
                Some(scaled) => Ok(scaled),
                None => Err(ErrorCode::MathOverflow),
            }
        }
    } else {
        let neg_shift: i64 = -shift;
        if neg_shift >= 20 {
            proof {
                lemma_pow10_increases(20, neg_shift as nat);
                reveal_with_fuel(spec_pow10, 21);
                assert(spec_pow10(20) == 100_000_000_000_000_000_000);
                assert(raw_price as int / spec_pow10(neg_shift as nat) == 0) by (nonlinear_arith)
                    requires
                        0 <= raw_price < spec_pow10(neg_shift as nat),
                ;
            }
            Ok(0)
        } else {
            let divisor: u64 = pow10_u64(neg_shift as u32);
            proof {
                lemma_pow10_increases(0, neg_shift as nat);
            }
            Ok(raw_price / divisor)
        }
    }
}

/// The raw signed price a feed buffer carries at offset 73.
pub open spec fn spec_feed_price_raw(s: Seq<u8>) -> int {
    spec_le_i64_at(s, 73)
}

/// The raw confidence a feed buffer carries at offset 81.
pub open spec fn spec_feed_confidence_raw(s: Seq<u8>) -> int {
    spec_le_u64_at(s, 81)
}

/// The decimal exponent a feed buffer carries at offset 89.
pub open spec fn spec_feed_exponent(s: Seq<u8>) -> int {
    spec_le_i32_at(s, 89)
}

/// The publish time a feed buffer carries at offset 93.
pub open spec fn spec_feed_publish_time(s: Seq<u8>) -> int {
    spec_le_i64_at(s, 93)
}

/// Parse and validate an oracle feed buffer against the supplied clock.
///
/// Rejects, in this order: a buffer under 112 bytes and a non-positive
/// price (`OraclePriceInvalid`); a publish time so far from `now` that the
/// age cannot be formed (`MathOverflow`); a reading older than the
/// staleness bound (`OraclePriceStale`); then normalizes price and
/// confidence, reporting `MathOverflow` where a rescaled value cannot fit.
pub fn get_price(data: &[u8], now: i64) -> (r: Result<OraclePrice, ErrorCode>)
    ensures
        ({
            let s = data@;
            let price_raw = spec_feed_price_raw(s);
            let expo = spec_feed_exponent(s);
            let publish = spec_feed_publish_time(s);
            let norm_price = spec_normalized(price_raw, expo);
            let norm_conf = spec_normalized(spec_feed_confidence_raw(s), expo);
            if s.len() < 112 {
                r == Err::<OraclePrice, ErrorCode>(ErrorCode::OraclePriceInvalid)
            } else if price_raw <= 0 {
                r == Err::<OraclePrice, ErrorCode>(ErrorCode::OraclePriceInvalid)
            } else if !(i64::MIN <= now - publish <= i64::MAX) {
                r == Err::<OraclePrice, ErrorCode>(ErrorCode::MathOverflow)
            } else if now - publish > MAX_ORACLE_STALENESS {
                r == Err::<OraclePrice, ErrorCode>(ErrorCode::OraclePriceStale)
            } else if norm_price > u64::MAX {
                r == Err::<OraclePrice, ErrorCode>(ErrorCode::MathOverflow)
            } else if norm_conf > u64::MAX {
                r == Err::<OraclePrice, ErrorCode>(ErrorCode::MathOverflow)
            } else {
                r == Ok::<OraclePrice, ErrorCode>(OraclePrice {
                    price: norm_price as u64,
                    confidence: norm_conf as u64,
                    timestamp: publish as i64,
                })
            }
        }),
{
    let n: usize = data.len();
    if n < 112 {
        return Err(ErrorCode::OraclePriceInvalid);
    }
    let price_raw: i64 = le_i64_at(data, 73);
    let conf_raw: u64 = le_u64_at(data, 81);
    let exponent: i32 = le_i32_at(data, 89);
    let publish_time: i64 = le_i64_at(data, 93);

    if price_raw <= 0 {
        return Err(ErrorCode::OraclePriceInvalid);
    }
    let age: i64 = match now.checked_sub(publish_time) {
        Some(a) => a,
        None => {
            return Err(ErrorCode::MathOverflow);
        },
    };
    if age > MAX_ORACLE_STALENESS as i64 {
        return Err(ErrorCode::OraclePriceStale);
    }

    let price: u64 = normalize_price(price_raw as u64, exponent)?;
    let confidence: u64 = normalize_price(conf_raw, exponent)?;

    Ok(OraclePrice { price, confidence, timestamp: publish_time })
}

} // verus!
