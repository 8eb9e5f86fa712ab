//! The price-decay model: a pure function from auction parameters and a
//! point in time to the current unit price.
//!
//! The price starts at `start_price`, steps down by `price_decay_amount`
//! once per full `price_decay_interval` that has elapsed since `start_time`,
//! and is clamped from below by `floor_price`. Before `start_time` the
//! auction has not opened and the start price is returned unchanged.

use vstd::prelude::*;

use crate::arith::{sat_mul, saturating_mul, saturating_sub};

verus! {

/// The price of one unit at time `now`, as a mathematical integer.
///
/// `now` and `start_time` are timestamps in microseconds;
/// `price_decay_interval` is a duration in microseconds.
pub open spec fn price_at(
    start_price: u128,
    floor_price: u128,
    price_decay_amount: u128,
    price_decay_interval: u64,
    start_time: u64,
    now: u64,
) -> int {
    if now < start_time {
        start_price as int
    } else {
        let intervals = ((now - start_time) as int) / (price_decay_interval as int);
        let decayed = start_price - price_decay_amount * intervals;
        if decayed >= floor_price {
            decayed
        } else {
            floor_price as int
        }
    }
}

/// Computes the current unit price for an auction whose price decays over
/// time, exactly as [`price_at`] specifies.
///
/// Evaluation has no side effect, so repeated calls at the same `current_time`
/// return the same value. A zero `price_decay_interval` is rejected when an
/// auction is created and is therefore excluded here.
pub fn calculate_current_price(
    start_price: u128,
    floor_price: u128,
    price_decay_amount: u128,
    price_decay_interval: u64,
    start_time: u64,
    current_time: u64,
) -> (price: u128)
    requires
        price_decay_interval > 0,
    ensures
        price == price_at(
            start_price,
            floor_price,
            price_decay_amount,
            price_decay_interval,
            start_time,
            current_time,
        ),
        current_time >= start_time ==> price >= floor_price,
        current_time < start_time ==> price == start_price,
        current_time <= start_time && floor_price <= start_price ==> price == start_price,
{
    if current_time < start_time {
        return start_price;
    }

    let elapsed: u64 = current_time - start_time;
    let intervals_passed: u64 = elapsed / price_decay_interval;
    let total_decay: u128 = saturating_mul(price_decay_amount, intervals_passed as u128);
    let decayed: u128 = saturating_sub(start_price, total_decay);

    proof {
        let k = ((current_time - start_time) as int) / (price_decay_interval as int);
        assert(intervals_passed == k);
        if current_time == start_time {
            vstd::arithmetic::div_mod::lemma_div_of0(price_decay_interval as int);
            vstd::arithmetic::mul::lemma_mul_basics(price_decay_amount as int);
        }
        if price_decay_amount * k > u128::MAX {
            assert(start_price - price_decay_amount * k < floor_price);
        }
    }

    if decayed >= floor_price {
        decayed
    } else {
        floor_price
    }
}

/// The decay model is monotone: evaluated at a later time, the price is
/// never higher, provided the floor does not exceed the start price.
///
/// (With a floor above the start price, the price would jump up from
/// `start_price` to `floor_price` the moment the auction opens; such
/// configurations are excluded here.)
pub proof fn lemma_price_non_increasing(
    start_price: u128,
    floor_price: u128,
    price_decay_amount: u128,
    price_decay_interval: u64,
    start_time: u64,
    t1: u64,
    t2: u64,
)
    requires
        price_decay_interval > 0,
        floor_price <= start_price,
        t1 <= t2,
    ensures
        price_at(start_price, floor_price, price_decay_amount, price_decay_interval, start_time, t1)
            >= price_at(
            start_price,
            floor_price,
            price_decay_amount,
            price_decay_interval,
            start_time,
            t2,
        ),
{
    let p1 = price_at(start_price, floor_price, price_decay_amount, price_decay_interval,
        start_time, t1);
    let p2 = price_at(start_price, floor_price, price_decay_amount, price_decay_interval,
        start_time, t2);
    if t1 < start_time {
        assert(p1 == start_price);
        if t2 < start_time {
            assert(p2 == start_price);
        } else {
            let k2 = ((t2 - start_time) as int) / (price_decay_interval as int);
            vstd::arithmetic::div_mod::lemma_div_is_ordered(0, (t2 - start_time) as int,
                price_decay_interval as int);
            assert(k2 >= 0);
            vstd::arithmetic::mul::lemma_mul_nonnegative(price_decay_amount as int, k2);
            assert(start_price - price_decay_amount * k2 <= start_price);
            assert(p2 <= start_price);
        }
    } else {
        let k1 = ((t1 - start_time) as int) / (price_decay_interval as int);
        let k2 = ((t2 - start_time) as int) / (price_decay_interval as int);
        vstd::arithmetic::div_mod::lemma_div_is_ordered((t1 - start_time) as int,
            (t2 - start_time) as int, price_decay_interval as int);
        assert(k1 <= k2);
        vstd::arithmetic::div_mod::lemma_div_is_ordered(0, (t1 - start_time) as int,
            price_decay_interval as int);
        assert(0 <= k1);
        vstd::arithmetic::mul::lemma_mul_inequality(k1, k2, price_decay_amount as int);
        assert(price_decay_amount * k1 <= price_decay_amount * k2) by {
            vstd::arithmetic::mul::lemma_mul_is_commutative(price_decay_amount as int, k1);
            vstd::arithmetic::mul::lemma_mul_is_commutative(price_decay_amount as int, k2);
        }
        assert(start_price - price_decay_amount * k1 >= start_price - price_decay_amount * k2);
    }
}

/// At or before the moment the auction opens, the model returns the start
/// price itself, provided the floor does not exceed the start price.
pub proof fn lemma_price_at_start(
    start_price: u128,
    floor_price: u128,
    price_decay_amount: u128,
    price_decay_interval: u64,
    start_time: u64,
    now: u64,
)
    requires
        price_decay_interval > 0,
        floor_price <= start_price,
        now <= start_time,
    ensures
        price_at(start_price, floor_price, price_decay_amount, price_decay_interval, start_time,
            now) == start_price,
{
    if now == start_time {
        assert(((now - start_time) as int) / (price_decay_interval as int) == 0);
    }
}

/// The model never returns a price below the floor, provided the floor does
/// not exceed the start price.
pub proof fn lemma_price_above_floor(
    start_price: u128,
    floor_price: u128,
    price_decay_amount: u128,
    price_decay_interval: u64,
    start_time: u64,
    now: u64,
)
    requires
        price_decay_interval > 0,
        floor_price <= start_price,
    ensures
        price_at(start_price, floor_price, price_decay_amount, price_decay_interval, start_time,
            now) >= floor_price,
{
}

} // verus!
