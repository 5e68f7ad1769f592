use beethoven::constants::WAD;
use beethoven::errors::ErrorCode;
use beethoven::fixed_point::{bps_mul, from_wad, to_wad, wad_div, wad_mul, wad_mul_signed};

#[test]
fn wad_mul_scales_product_down() {
    // 2.0 * 3.0 = 6.0 in WAD
    assert_eq!(wad_mul(2 * WAD, 3 * WAD), Ok(6 * WAD));
    // floors: 1 * 1 (raw units) / WAD = 0
    assert_eq!(wad_mul(1, 1), Ok(0));
}

#[test]
fn wad_mul_reports_overflow() {
    assert_eq!(wad_mul(u128::MAX, 2), Err(ErrorCode::MathOverflow));
}

#[test]
fn wad_div_scales_quotient_up() {
    // 6.0 / 3.0 = 2.0 in WAD
    assert_eq!(wad_div(6 * WAD, 3 * WAD), Ok(2 * WAD));
    // 1 / 3 floors at WAD precision
    assert_eq!(wad_div(1, 3), Ok(WAD / 3));
}

#[test]
fn wad_div_rejects_zero_divisor() {
    assert_eq!(wad_div(5, 0), Err(ErrorCode::DivisionByZero));
}

#[test]
fn wad_div_reports_overflow() {
    assert_eq!(wad_div(u128::MAX, 1), Err(ErrorCode::MathOverflow));
}

#[test]
fn wad_round_trip_stays_within_floor_error() {
    // wad_mul(wad_div(x, y), y) recovers x up to floor rounding
    let x: u128 = 123_456_789;
    let y: u128 = 97;
    let q = wad_div(x, y).unwrap();
    let m = wad_mul(q, y).unwrap();
    assert!(m <= x);
    assert!(x - m <= y / WAD + 1);
}

#[test]
fn to_wad_and_from_wad_invert() {
    assert_eq!(to_wad(42), Ok(42 * WAD));
    assert_eq!(from_wad(42 * WAD), Ok(42));
    // flooring on the way down
    assert_eq!(from_wad(42 * WAD + WAD - 1), Ok(42));
}

#[test]
fn from_wad_reports_overflow() {
    assert_eq!(from_wad(u128::MAX), Err(ErrorCode::MathOverflow));
}

#[test]
fn bps_mul_takes_basis_point_fraction() {
    assert_eq!(bps_mul(10_000, 50), Ok(50));
    assert_eq!(bps_mul(10, 500), Ok(0));
    assert_eq!(bps_mul(0, 5_000), Ok(0));
}

#[test]
fn bps_mul_reports_overflow() {
    assert_eq!(bps_mul(u64::MAX, u64::MAX), Err(ErrorCode::MathOverflow));
}

#[test]
fn wad_mul_signed_truncates_toward_zero() {
    let w = WAD as i128;
    assert_eq!(wad_mul_signed(2 * w, 3 * w), Ok(6 * w));
    assert_eq!(wad_mul_signed(-2 * w, 3 * w), Ok(-6 * w));
    // -3 * 0.5 = -1.5, truncated toward zero to -1 (raw units)
    assert_eq!(wad_mul_signed(-3, WAD as i128 / 2), Ok(-1));
    assert_eq!(wad_mul_signed(3, WAD as i128 / 2), Ok(1));
}

#[test]
fn wad_mul_signed_reports_overflow() {
    assert_eq!(wad_mul_signed(i128::MAX, 2), Err(ErrorCode::MathOverflow));
}
