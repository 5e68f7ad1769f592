use beethoven::errors::ErrorCode;
use beethoven::oracle::{get_price, normalize_price, OraclePrice};

fn feed(price: i64, conf: u64, exponent: i32, publish_time: i64) -> Vec<u8> {
    let mut data = vec![0u8; 112];
    data[73..81].copy_from_slice(&price.to_le_bytes());
    data[81..89].copy_from_slice(&conf.to_le_bytes());
    data[89..93].copy_from_slice(&exponent.to_le_bytes());
    data[93..101].copy_from_slice(&publish_time.to_le_bytes());
    data
}

#[test]
fn get_price_normalizes_a_fresh_feed() {
    // raw price 12_345_678_900 at exponent -8 scales to 6 decimals: /100
    let data = feed(12_345_678_900, 200, -8, 1_000);
    let r = get_price(&data, 1_030);
    assert_eq!(
        r,
        Ok(OraclePrice { price: 123_456_789, confidence: 2, timestamp: 1_000 })
    );
}

#[test]
fn get_price_rejects_short_buffer() {
    let data = vec![0u8; 111];
    assert_eq!(get_price(&data, 0), Err(ErrorCode::OraclePriceInvalid));
}

#[test]
fn get_price_rejects_non_positive_price() {
    let zero = feed(0, 1, -8, 1_000);
    assert_eq!(get_price(&zero, 1_000), Err(ErrorCode::OraclePriceInvalid));
    let negative = feed(-5, 1, -8, 1_000);
    assert_eq!(get_price(&negative, 1_000), Err(ErrorCode::OraclePriceInvalid));
}

#[test]
fn get_price_rejects_stale_reading() {
    // 61 seconds old exceeds the 60-second staleness bound
    let data = feed(100_000_000, 1, -8, 1_000);
    assert_eq!(get_price(&data, 1_061), Err(ErrorCode::OraclePriceStale));
    // exactly 60 seconds old is still accepted
    assert!(get_price(&data, 1_060).is_ok());
}

#[test]
fn normalize_price_scales_in_both_directions() {
    // exponent -8: divide by 100, flooring
    assert_eq!(normalize_price(199, -8), Ok(1));
    // exponent 0: multiply by 10^6
    assert_eq!(normalize_price(7, 0), Ok(7_000_000));
    // exponent -6: already at target precision
    assert_eq!(normalize_price(55, -6), Ok(55));
}

#[test]
fn normalize_price_reports_overflow_and_huge_downscales() {
    assert_eq!(normalize_price(u64::MAX, 0), Err(ErrorCode::MathOverflow));
    assert_eq!(normalize_price(1, 40), Err(ErrorCode::MathOverflow));
    // shifting 26 decimals down floors any u64 to zero
    assert_eq!(normalize_price(u64::MAX, -32), Ok(0));
}
