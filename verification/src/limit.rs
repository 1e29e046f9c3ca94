//! Clamp-and-round: snap a value to the nearest multiple of a unit, then pin
//! it into a closed interval.

use vstd::prelude::*;
use crate::config::Config;

verus! {

/// The multiple of `unit` nearest to `value`, ties going up. A unit of zero
/// has only one multiple, zero.
pub open spec fn round_to_multiple(value: int, unit: int) -> int {
    if unit <= 0 {
        0
    } else {
        ((2 * value + unit) / (2 * unit)) * unit
    }
}

/// `x` pinned into `[low, high]`; the lower bound is tested first.
pub open spec fn pin(x: int, low: int, high: int) -> int {
    if x < low {
        low
    } else if x > high {
        high
    } else {
        x
    }
}

/// Rounding first, pinning second: a pinned result need not be a multiple of
/// the unit.
pub open spec fn clamp_and_round_spec(value: int, low: int, high: int, unit: int) -> int {
    pin(round_to_multiple(value, unit), low, high)
}

proof fn lemma_rounded_bounds(value: int, unit: int)
    requires
        0 <= value,
        0 < unit,
    ensures
        0 <= round_to_multiple(value, unit),
        2 * round_to_multiple(value, unit) <= 2 * value + unit,
        2 * value - unit < 2 * round_to_multiple(value, unit),
        (2 * value + unit) / (2 * unit) <= 2 * value + unit,
{
    let n = 2 * value + unit;
    let d = 2 * unit;
    let q = n / d;
    vstd::arithmetic::div_mod::lemma_fundamental_div_mod(n, d);
    vstd::arithmetic::div_mod::lemma_mod_bound(n, d);
    vstd::arithmetic::div_mod::lemma_div_pos_is_pos(n, d);
    assert(d * q == 2 * (q * unit)) by (nonlinear_arith)
        requires
            d == 2 * unit,
    ;
    assert(q <= d * q) by (nonlinear_arith)
        requires
            q >= 0,
            d >= 1,
    ;
}

pub fn clamp_and_round(value: u32, low_limit: u32, high_limit: u32, rounding_value: u32) -> (result: u32)
    ensures
        result == clamp_and_round_spec(
            value as int,
            low_limit as int,
            high_limit as int,
            rounding_value as int,
        ),
        low_limit <= high_limit ==> low_limit <= result <= high_limit,
{
    let rounded: u64 = if rounding_value == 0 {
        0
    } else {
        proof {
            lemma_rounded_bounds(value as int, rounding_value as int);
        }
        let unit: u64 = rounding_value as u64;
        let steps: u64 = (2 * (value as u64) + unit) / (2 * unit);
        steps * unit
    };
    if rounded < low_limit as u64 {
        low_limit
    } else if rounded > high_limit as u64 {
        high_limit
    } else {
        rounded as u32
    }
}

/// The unit that a call rounds to: the one it names, else the configured one.
pub open spec fn unit_or_configured(rounding_value: Option<u32>, config: &Config) -> int {
    match rounding_value {
        Some(unit) => unit as int,
        None => config.rounding_value as int,
    }
}

/// Clamp-and-round with the configured rounding unit standing in where the
/// call names none.
pub fn limit(
    value: u32,
    low_limit: u32,
    high_limit: u32,
    rounding_value: Option<u32>,
    config: &Config,
) -> (result: u32)
    ensures
        result == clamp_and_round_spec(
            value as int,
            low_limit as int,
            high_limit as int,
            unit_or_configured(rounding_value, config),
        ),
        low_limit <= high_limit ==> low_limit <= result <= high_limit,
{
    let unit: u32 = match rounding_value {
        Some(unit) => unit,
        None => config.rounding_value,
    };
    clamp_and_round(value, low_limit, high_limit, unit)
}

/// The result of clamp-and-round lies within the bounds, whenever the bounds
/// are an interval at all.
pub proof fn lemma_limit_within_bounds(value: u32, low: u32, high: u32, unit: u32)
    requires
        low <= high,
    ensures
        low <= clamp_and_round_spec(value as int, low as int, high as int, unit as int) <= high,
{
}

/// Rounding leaves a multiple of the unit where it is.
pub proof fn lemma_round_keeps_multiples(steps: int, unit: int)
    requires
        0 <= steps,
        0 < unit,
    ensures
        round_to_multiple(steps * unit, unit) == steps * unit,
{
    let n = 2 * (steps * unit) + unit;
    let d = 2 * unit;
    assert(n == steps * d + unit) by (nonlinear_arith)
        requires
            n == 2 * (steps * unit) + unit,
            d == 2 * unit,
    ;
    vstd::arithmetic::div_mod::lemma_fundamental_div_mod_converse(n, d, steps, unit);
}

/// A value that is pinned to a bound stays there on a second pass: the lower
/// bound must not round to something above itself, nor the upper bound to
/// something below itself, unless the two bounds coincide. Values that
/// rounding leaves inside the bounds always stay.
pub open spec fn settles(value: int, low: int, high: int, unit: int) -> bool {
    let rounded = round_to_multiple(value, unit);
    &&& rounded < low ==> round_to_multiple(low, unit) <= low || low == high
    &&& rounded > high ==> round_to_multiple(high, unit) >= high || low == high
}

/// Clamp-and-round applied to its own result, with the same bounds and unit,
/// gives that result again exactly when the value settles. With a lower
/// bound of 105 and a unit of 10 the value 50 does not: it is pinned to 105,
/// and 105 rounds to 110.
pub proof fn lemma_limit_idempotent(value: u32, low: u32, high: u32, unit: u32)
    requires
        low <= high,
    ensures
        settles(value as int, low as int, high as int, unit as int) <==> clamp_and_round_spec(
            clamp_and_round_spec(value as int, low as int, high as int, unit as int),
            low as int,
            high as int,
            unit as int,
        ) == clamp_and_round_spec(value as int, low as int, high as int, unit as int),
{
    let rounded = round_to_multiple(value as int, unit as int);
    if low <= rounded <= high {
        if unit > 0 {
            let steps = (2 * value + unit) / (2 * unit);
            lemma_rounded_bounds(value as int, unit as int);
            vstd::arithmetic::div_mod::lemma_div_pos_is_pos(2 * value + unit, 2 * unit);
            lemma_round_keeps_multiples(steps, unit as int);
        }
    }
}

/// Where both bounds are multiples of the unit, every value settles.
pub proof fn lemma_aligned_bounds_settle(value: u32, low: u32, high: u32, unit: u32)
    requires
        low <= high,
        unit > 0,
        low % unit == 0,
        high % unit == 0,
    ensures
        settles(value as int, low as int, high as int, unit as int),
{
    vstd::arithmetic::div_mod::lemma_fundamental_div_mod(low as int, unit as int);
    vstd::arithmetic::div_mod::lemma_fundamental_div_mod(high as int, unit as int);
    vstd::arithmetic::div_mod::lemma_div_pos_is_pos(low as int, unit as int);
    vstd::arithmetic::div_mod::lemma_div_pos_is_pos(high as int, unit as int);
    vstd::arithmetic::mul::lemma_mul_is_commutative(unit as int, low as int / unit as int);
    vstd::arithmetic::mul::lemma_mul_is_commutative(unit as int, high as int / unit as int);
    lemma_round_keeps_multiples(low as int / unit as int, unit as int);
    lemma_round_keeps_multiples(high as int / unit as int, unit as int);
}

} // verus!
