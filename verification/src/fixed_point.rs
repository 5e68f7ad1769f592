//! WAD (10^18) and basis-point fixed-point primitives.
//!
//! Every multiplication widens before it divides, every divisor is checked,
//! and every narrowing is overflow-checked: no operation silently truncates.

use vstd::prelude::*;

use crate::constants::{BPS_DENOMINATOR, WAD, WAD_I128};
use crate::errors::ErrorCode;

verus! {

/// Mathematical value of a WAD product: floor(a * b / WAD).
pub open spec fn spec_wad_mul(a: int, b: int) -> int {
    (a * b) / (WAD as int)
}

/// Mathematical value of a WAD quotient: floor(a * WAD / b), for b != 0.
pub open spec fn spec_wad_div(a: int, b: int) -> int
    recommends
        b != 0,
{
    (a * (WAD as int)) / b
}

/// Division truncating toward zero, as Rust's integer `/` computes it.
pub open spec fn div_trunc(x: int, d: int) -> int
    recommends
        d > 0,
{
    if x >= 0 {
        x / d
    } else {
        -((-x) / d)
    }
}

/// Multiply two WAD values: floor(a * b / WAD).
pub fn wad_mul(a: u128, b: u128) -> (r: Result<u128, ErrorCode>)
    ensures
        a * b <= u128::MAX ==> r == Ok::<u128, ErrorCode>(spec_wad_mul(a as int, b as int) as u128),
        a * b > u128::MAX ==> r == Err::<u128, ErrorCode>(ErrorCode::MathOverflow),
{
    match a.checked_mul(b) {
        Some(product) => Ok(product / WAD),
        None => Err(ErrorCode::MathOverflow),
    }
}

/// Divide two WAD values: floor(a * WAD / b).
pub fn wad_div(a: u128, b: u128) -> (r: Result<u128, ErrorCode>)
    ensures
        b == 0 ==> r == Err::<u128, ErrorCode>(ErrorCode::DivisionByZero),
        b != 0 && a * WAD > u128::MAX ==> r == Err::<u128, ErrorCode>(ErrorCode::MathOverflow),
        b != 0 && a * WAD <= u128::MAX ==> r == Ok::<u128, ErrorCode>(
            spec_wad_div(a as int, b as int) as u128,
        ),
{
    if b == 0 {
        return Err(ErrorCode::DivisionByZero);
    }
    match a.checked_mul(WAD) {
        Some(scaled) => Ok(scaled / b),
        None => Err(ErrorCode::MathOverflow),
    }
}

/// Scale a raw u64 amount up to WAD precision. Never overflows u128.
pub fn to_wad(value: u64) -> (r: Result<u128, ErrorCode>)
    ensures
        r == Ok::<u128, ErrorCode>((value * WAD) as u128),
{
    assert(value * WAD <= u64::MAX * (WAD as int)) by (nonlinear_arith)
        requires
            value <= u64::MAX,
    ;
    match (value as u128).checked_mul(WAD) {
        Some(scaled) => Ok(scaled),
        None => Err(ErrorCode::MathOverflow),
    }
}

/// Scale a WAD value back down to a raw u64 amount, flooring.
pub fn from_wad(value: u128) -> (r: Result<u64, ErrorCode>)
    ensures
        value / WAD <= u64::MAX ==> r == Ok::<u64, ErrorCode>((value / WAD) as u64),
        value / WAD > u64::MAX ==> r == Err::<u64, ErrorCode>(ErrorCode::MathOverflow),
{
    let scaled_down: u128 = value / WAD;
    if scaled_down > u64::MAX as u128 {
        Err(ErrorCode::MathOverflow)
    } else {
        Ok(scaled_down as u64)
    }
}

/// Take a basis-point fraction of a value: floor(value * bps / 10_000).
pub fn bps_mul(value: u64, bps: u64) -> (r: Result<u64, ErrorCode>)
    ensures
        (value * bps) / (BPS_DENOMINATOR as int) <= u64::MAX ==> r == Ok::<u64, ErrorCode>(
            ((value * bps) / (BPS_DENOMINATOR as int)) as u64,
        ),
        (value * bps) / (BPS_DENOMINATOR as int) > u64::MAX ==> r == Err::<u64, ErrorCode>(
            ErrorCode::MathOverflow,
        ),
{
    assert(value * bps <= u64::MAX * (u64::MAX as int)) by (nonlinear_arith)
        requires
            value <= u64::MAX,
            bps <= u64::MAX,
    ;
    let product: u128 = (value as u128) * (bps as u128);
    let scaled: u128 = product / (BPS_DENOMINATOR as u128);
    if scaled > u64::MAX as u128 {
        Err(ErrorCode::MathOverflow)
    } else {
        Ok(scaled as u64)
    }
}

/// Signed WAD multiply for funding arithmetic, truncating toward zero.
pub fn wad_mul_signed(a: i128, b: i128) -> (r: Result<i128, ErrorCode>)
    ensures
        i128::MIN <= a * b <= i128::MAX ==> r == Ok::<i128, ErrorCode>(
            div_trunc(a * b, WAD as int) as i128,
        ),
        !(i128::MIN <= a * b <= i128::MAX) ==> r == Err::<i128, ErrorCode>(ErrorCode::MathOverflow),
{
    match a.checked_mul(b) {
        Some(product) => {
            proof {
                lemma_div_trunc_shrinks(product as int, WAD as int);
            }
            match product.checked_div(WAD_I128) {
                Some(quotient) => Ok(quotient),
                None => Err(ErrorCode::DivisionByZero),
            }
        },
        None => Err(ErrorCode::MathOverflow),
    }
}

/// Truncating division by a positive divisor never grows the magnitude.
pub proof fn lemma_div_trunc_shrinks(x: int, d: int)
    requires
        d > 0,
    ensures
        x >= 0 ==> 0 <= div_trunc(x, d) <= x,
        x < 0 ==> x <= div_trunc(x, d) <= 0,
{
    if x >= 0 {
        assert(0 <= x / d <= x) by (nonlinear_arith)
            requires
                x >= 0,
                d > 0,
        ;
    } else {
        assert(0 <= (-x) / d <= -x) by (nonlinear_arith)
            requires
                -x > 0,
                d > 0,
        ;
    }
}

/// Round trip of the WAD primitives: dividing by `y` and multiplying back
/// recovers `x` up to floor-rounding error — the result never exceeds `x`
/// and falls short by at most `y / WAD + 1`. (`wad_div` itself reports
/// `DivisionByZero` when `y == 0`, as its contract states.)
pub proof fn lemma_wad_round_trip(x: u128, y: u128)
    requires
        y != 0,
        x * WAD <= u128::MAX,
        spec_wad_div(x as int, y as int) * y <= u128::MAX,
    ensures
        spec_wad_mul(spec_wad_div(x as int, y as int), y as int) <= x,
        x - spec_wad_mul(spec_wad_div(x as int, y as int), y as int) <= y / WAD + 1,
{
    let w = WAD as int;
    let q = spec_wad_div(x as int, y as int);
    let m = spec_wad_mul(q, y as int);
    assert(q == (x * w) / (y as int));
    assert(m == (q * y) / w);

    // Upper bound: q * y <= x * WAD, so m = floor(q * y / WAD) <= x.
    assert(q * y <= x * w && x * w - (y as int) < q * y) by (nonlinear_arith)
        requires
            y > 0,
            q == (x * w) / (y as int),
            w > 0,
    ;
    assert(m <= x) by (nonlinear_arith)
        requires
            q * y <= x * w,
            m == (q * y) / w,
            w > 0,
    ;
    // Lower bound: q * y > x * WAD - y, so m * WAD > x * WAD - y - WAD.
    assert(m * w > x * w - (y as int) - w) by (nonlinear_arith)
        requires
            x * w - (y as int) < q * y,
            m == (q * y) / w,
            w > 0,
    ;
    assert(x - m <= (y as int) / w + 1) by (nonlinear_arith)
        requires
            m * w > x * w - (y as int) - w,
            w > 0,
            y > 0,
    ;
}

} // verus!
