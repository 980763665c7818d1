//! Fixed-point arithmetic shared by the stages.

use vstd::arithmetic::div_mod::{
    lemma_div_is_ordered, lemma_div_multiples_vanish, lemma_hoist_over_denominator,
};
use vstd::prelude::*;

verus! {

/// The fixed-point representation of the number one: quantities are counted
/// in millionths, so `UNIT` stands for `1.0` and `UNIT / 4` for `0.25`.
pub const UNIT: u64 = 1_000_000;

/// The average of `value_1` and `value_2`, weighted by `weight_1` and
/// `weight_2` and rounded down to a whole number. Where both weights are
/// zero there is nothing to average, and the first value stands unchanged.
pub open spec fn weighted_average_spec(
    value_1: int,
    weight_1: int,
    value_2: int,
    weight_2: int,
) -> int {
    if weight_1 + weight_2 == 0 {
        value_1
    } else {
        (weight_1 * value_1 + weight_2 * value_2) / (weight_1 + weight_2)
    }
}

/// The product of two fixed-point numbers, rounded down to a millionth.
pub open spec fn scaled_product_spec(a: int, b: int) -> int {
    a * b / (UNIT as int)
}

/// With weights that are not negative, a weighted average lies between the
/// two values that it blends.
pub proof fn lemma_weighted_average_between(
    value_1: int,
    weight_1: int,
    value_2: int,
    weight_2: int,
)
    requires
        weight_1 >= 0,
        weight_2 >= 0,
    ensures
        value_1 <= value_2 ==> value_1 <= weighted_average_spec(
            value_1,
            weight_1,
            value_2,
            weight_2,
        ) <= value_2,
        value_2 <= value_1 ==> value_2 <= weighted_average_spec(
            value_1,
            weight_1,
            value_2,
            weight_2,
        ) <= value_1,
{
    let total = weight_1 + weight_2;
    if total != 0 {
        let weighted_sum = weight_1 * value_1 + weight_2 * value_2;
        let low = if value_1 <= value_2 { value_1 } else { value_2 };
        let high = if value_1 <= value_2 { value_2 } else { value_1 };
        assert(total * low <= weighted_sum <= total * high) by (nonlinear_arith)
            requires
                weight_1 >= 0,
                weight_2 >= 0,
                total == weight_1 + weight_2,
                weighted_sum == weight_1 * value_1 + weight_2 * value_2,
                low <= value_1 <= high,
                low <= value_2 <= high,
        ;
        lemma_div_is_ordered(total * low, weighted_sum, total);
        lemma_div_is_ordered(weighted_sum, total * high, total);
        lemma_div_multiples_vanish(low, total);
        lemma_div_multiples_vanish(high, total);
    }
}

/// Blending two proportions gives a proportion: where both values lie in
/// `[0, UNIT]` and neither weight is negative, so does their weighted
/// average.
pub proof fn lemma_weighted_average_of_proportions(
    value_1: int,
    weight_1: int,
    value_2: int,
    weight_2: int,
)
    requires
        0 <= value_1 <= UNIT,
        0 <= value_2 <= UNIT,
        weight_1 >= 0,
        weight_2 >= 0,
    ensures
        0 <= weighted_average_spec(value_1, weight_1, value_2, weight_2) <= UNIT,
{
    lemma_weighted_average_between(value_1, weight_1, value_2, weight_2);
}

/// A weighted average is the lower value plus the share of the spread that
/// the other value's weight claims.
proof fn lemma_weighted_average_from_lower(low: int, low_weight: int, high: int, high_weight: int)
    requires
        low <= high,
        low_weight >= 0,
        high_weight >= 0,
        low_weight + high_weight > 0,
    ensures
        (low_weight * low + high_weight * high) / (low_weight + high_weight) == low + (high - low)
            * high_weight / (low_weight + high_weight),
        0 <= (high - low) * high_weight / (low_weight + high_weight) <= high - low,
{
    let total = low_weight + high_weight;
    let spread = high - low;
    assert(spread * high_weight + low * total == low_weight * low + high_weight * high)
        by (nonlinear_arith)
        requires
            total == low_weight + high_weight,
            spread == high - low,
    ;
    lemma_hoist_over_denominator(spread * high_weight, low, total as nat);
    assert(0 <= spread * high_weight <= total * spread) by (nonlinear_arith)
        requires
            spread >= 0,
            0 <= high_weight <= total,
    ;
    lemma_div_is_ordered(0, spread * high_weight, total);
    lemma_div_is_ordered(spread * high_weight, total * spread, total);
    lemma_div_multiples_vanish(spread, total);
}

/// Blends `value_1` and `value_2` in the ratio of their weights.
pub fn weighted_average(value_1: u64, weight_1: u64, value_2: u64, weight_2: u64) -> (average:
    u64)
    ensures
        average == weighted_average_spec(
            value_1 as int,
            weight_1 as int,
            value_2 as int,
            weight_2 as int,
        ),
        value_1 <= value_2 ==> value_1 <= average <= value_2,
        value_2 <= value_1 ==> value_2 <= average <= value_1,
{
    let total: u128 = weight_1 as u128 + weight_2 as u128;
    if total == 0 {
        return value_1;
    }
    if value_1 <= value_2 {
        let spread: u128 = (value_2 - value_1) as u128;
        proof {
            lemma_weighted_average_from_lower(
                value_1 as int,
                weight_1 as int,
                value_2 as int,
                weight_2 as int,
            );
            assert(spread * weight_2 <= 0xffff_ffff_ffff_ffff * 0xffff_ffff_ffff_ffff)
                by (nonlinear_arith)
                requires
                    0 <= spread <= 0xffff_ffff_ffff_ffff,
                    0 <= weight_2 <= 0xffff_ffff_ffff_ffff,
            ;
        }
        let share: u128 = spread * (weight_2 as u128) / total;
        value_1 + share as u64
    } else {
        let spread: u128 = (value_1 - value_2) as u128;
        proof {
            lemma_weighted_average_from_lower(
                value_2 as int,
                weight_2 as int,
                value_1 as int,
                weight_1 as int,
            );
            assert(spread * weight_1 <= 0xffff_ffff_ffff_ffff * 0xffff_ffff_ffff_ffff)
                by (nonlinear_arith)
                requires
                    0 <= spread <= 0xffff_ffff_ffff_ffff,
                    0 <= weight_1 <= 0xffff_ffff_ffff_ffff,
            ;
        }
        let share: u128 = spread * (weight_1 as u128) / total;
        value_2 + share as u64
    }
}

/// Multiplies two fixed-point numbers.
pub fn scaled_product(a: u64, b: u64) -> (product: u128)
    ensures
        product == scaled_product_spec(a as int, b as int),
{
    proof {
        assert(a * b <= 0xffff_ffff_ffff_ffff * 0xffff_ffff_ffff_ffff) by (nonlinear_arith)
            requires
                0 <= a <= 0xffff_ffff_ffff_ffff,
                0 <= b <= 0xffff_ffff_ffff_ffff,
        ;
    }
    (a as u128) * (b as u128) / (UNIT as u128)
}

/// Scaling by a proportion never enlarges: where `a` is at most `UNIT`,
/// the scaled product of `a` and `b` is at most `b`.
pub proof fn lemma_scaled_product_of_proportion(a: int, b: int)
    requires
        0 <= a <= UNIT,
        0 <= b,
    ensures
        0 <= scaled_product_spec(a, b) <= b,
{
    assert(0 <= a * b <= (UNIT as int) * b) by (nonlinear_arith)
        requires
            0 <= a <= UNIT,
            0 <= b,
    ;
    lemma_div_is_ordered(0, a * b, UNIT as int);
    lemma_div_is_ordered(a * b, (UNIT as int) * b, UNIT as int);
    lemma_div_multiples_vanish(b, UNIT as int);
}

} // verus!
