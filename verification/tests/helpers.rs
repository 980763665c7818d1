use respiration::helpers::{scaled_product, weighted_average, UNIT};

#[test]
fn weighted_average_blends_in_the_ratio_of_the_weights() {
    assert_eq!(weighted_average(2 * UNIT, 75 * UNIT, UNIT, 25 * UNIT), 1_750_000);
    assert_eq!(weighted_average(0, 75 * UNIT, 11 * UNIT, 25 * UNIT), 2_750_000);
    assert_eq!(weighted_average(0, 50, UNIT / 2, 50), UNIT / 4);
    assert_eq!(weighted_average(10, 1, 20, 3), 17);
    assert_eq!(weighted_average(20, 3, 10, 1), 17);
    assert_eq!(weighted_average(7, 5, 7, 9), 7);
}

#[test]
fn weighted_average_rounds_down() {
    // (1 * 0 + 2 * 1) / 3 and (2 * 0 + 1 * 1) / 3
    assert_eq!(weighted_average(0, 1, 1, 2), 0);
    assert_eq!(weighted_average(0, 2, 1, 1), 0);
    assert_eq!(weighted_average(1, 2, 0, 1), 0);
    // (1 * 10 + 2 * 15) / 3 = 13.33
    assert_eq!(weighted_average(10, 1, 15, 2), 13);
    assert_eq!(weighted_average(15, 2, 10, 1), 13);
}

#[test]
fn weighted_average_without_weight_keeps_the_first_value() {
    assert_eq!(weighted_average(3 * UNIT, 0, 9 * UNIT, 0), 3 * UNIT);
    assert_eq!(weighted_average(9 * UNIT, 0, 3 * UNIT, 0), 9 * UNIT);
    assert_eq!(weighted_average(0, 0, u64::MAX, 0), 0);
}

#[test]
fn weighted_average_with_one_weight_takes_that_value() {
    assert_eq!(weighted_average(3 * UNIT, 5, 9 * UNIT, 0), 3 * UNIT);
    assert_eq!(weighted_average(3 * UNIT, 0, 9 * UNIT, 5), 9 * UNIT);
}

#[test]
fn weighted_average_stays_between_its_values_at_the_limits() {
    assert_eq!(weighted_average(u64::MAX, u64::MAX, u64::MAX, u64::MAX), u64::MAX);
    assert_eq!(weighted_average(0, u64::MAX, u64::MAX, u64::MAX), u64::MAX / 2);
    assert_eq!(weighted_average(u64::MAX, u64::MAX, 0, u64::MAX), u64::MAX / 2);
    assert_eq!(weighted_average(u64::MAX, 1, 0, u64::MAX), 0);
    assert_eq!(weighted_average(0, 1, u64::MAX, u64::MAX), u64::MAX - 1);
}

#[test]
fn weighted_average_of_proportions_is_a_proportion() {
    let values = [0, 1, 210_000, 500_000, 780_000, UNIT - 1, UNIT];
    let weights = [0, 1, 3, 50 * UNIT, u64::MAX];
    for value_1 in values {
        for value_2 in values {
            for weight_1 in weights {
                for weight_2 in weights {
                    let average = weighted_average(value_1, weight_1, value_2, weight_2);
                    assert!(average <= UNIT);
                    assert!(average >= value_1.min(value_2));
                    assert!(average <= value_1.max(value_2));
                }
            }
        }
    }
}

#[test]
fn scaled_product_multiplies_fixed_point_numbers() {
    assert_eq!(scaled_product(UNIT, UNIT), u128::from(UNIT));
    assert_eq!(scaled_product(UNIT / 2, UNIT / 2), u128::from(UNIT / 4));
    assert_eq!(scaled_product(210_000, 4 * UNIT), 840_000);
    assert_eq!(scaled_product(0, u64::MAX), 0);
    assert_eq!(scaled_product(3, 333_333), 0);
    assert_eq!(scaled_product(3, 333_334), 1);
    assert_eq!(
        scaled_product(u64::MAX, u64::MAX),
        340_282_366_920_938_463_426_481_119_284_349
    );
}
