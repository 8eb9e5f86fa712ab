//! Tests of the price-decay model.

use dutch_auction::calculate_current_price;

/// One whole token in the asset's smallest unit.
const TOKEN: u128 = 1_000_000_000_000_000_000;

#[test]
fn test_price_at_start() {
    let start_price = 100 * TOKEN;
    let floor_price = 10 * TOKEN;
    let decay_amount = TOKEN;
    let decay_interval = 60_000_000; // 60 seconds in microseconds
    let start_time = 1000000;

    let price = calculate_current_price(
        start_price,
        floor_price,
        decay_amount,
        decay_interval,
        start_time,
        start_time, // At exact start
    );
    assert_eq!(price, start_price);
}

#[test]
fn test_price_before_start() {
    let start_price = 100 * TOKEN;
    let floor_price = 10 * TOKEN;
    let decay_amount = TOKEN;
    let decay_interval = 60_000_000;
    let start_time = 2000000;
    let current_time = 1000000;

    let price = calculate_current_price(
        start_price,
        floor_price,
        decay_amount,
        decay_interval,
        start_time,
        current_time,
    );
    assert_eq!(price, start_price);
}

#[test]
fn test_price_after_one_interval() {
    let start_price = 100 * TOKEN;
    let floor_price = 10 * TOKEN;
    let decay_amount = TOKEN;
    let decay_interval = 60_000_000; // 60 seconds
    let start_time = 1000000;
    let current_time = start_time + 60_000_000;

    let price = calculate_current_price(
        start_price,
        floor_price,
        decay_amount,
        decay_interval,
        start_time,
        current_time,
    );
    assert_eq!(price, 99 * TOKEN);
}

#[test]
fn test_price_reaches_floor() {
    let start_price = 100 * TOKEN;
    let floor_price = 10 * TOKEN;
    let decay_amount = TOKEN;
    let decay_interval = 60_000_000;
    let start_time = 1000000;
    // After 100 intervals, price would be 0 without floor
    let current_time = start_time + 6_000_000_000;

    let price = calculate_current_price(
        start_price,
        floor_price,
        decay_amount,
        decay_interval,
        start_time,
        current_time,
    );
    assert_eq!(price, floor_price);
}

#[test]
fn test_price_is_non_increasing_over_time() {
    let start_time = 5_000_000;
    let mut last = u128::MAX;
    for step in 0..200u64 {
        let now = start_time + step * 7_000_000;
        let price = calculate_current_price(1000, 37, 13, 60_000_000, start_time, now);
        assert!(price <= last);
        assert!(price >= 37);
        last = price;
    }
}

#[test]
fn test_price_decay_saturates_to_floor() {
    // The total decay overflows any representable amount; the price
    // clamps to the floor instead of wrapping.
    let price = calculate_current_price(u128::MAX, 5, u128::MAX, 1, 0, u64::MAX);
    assert_eq!(price, 5);
}
