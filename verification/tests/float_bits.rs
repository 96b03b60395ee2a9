//! Comparisons on bit patterns against those on numbers.

use steel_core::float_bits::{Double, Single};

fn singles() -> Vec<f32> {
    let mut values = vec![
        0.0,
        f32::MIN_POSITIVE,
        f32::from_bits(1),
        1.0,
        39.999996,
        40.0,
        40.000004,
        50.0,
        f32::MAX,
        f32::INFINITY,
        f32::NAN,
    ];
    for i in 0..values.len() {
        values.push(-values[i]);
    }
    values
}

fn doubles() -> Vec<f64> {
    let mut values = vec![
        0.0,
        f64::MIN_POSITIVE,
        f64::from_bits(1),
        0.00009999999999999999,
        0.0001,
        0.00010000000000000002,
        0.7999999999999999,
        0.8,
        0.8000000000000002,
        f64::MAX,
        f64::INFINITY,
        f64::NAN,
    ];
    for i in 0..values.len() {
        values.push(-values[i]);
    }
    values
}

#[test]
fn singles_are_ordered_as_their_bits_say() {
    for &a in &singles() {
        for &b in &singles() {
            let left = Single { bits: a.to_bits() };
            let right = Single { bits: b.to_bits() };
            assert_eq!(left.is_greater_than(right), a > b, "{a} > {b}");
        }
    }
}

#[test]
fn doubles_are_ordered_as_their_bits_say() {
    for &a in &doubles() {
        for &b in &doubles() {
            let left = Double { bits: a.to_bits() };
            let right = Double { bits: b.to_bits() };
            assert_eq!(left.is_less_than(right), a < b, "{a} < {b}");
        }
    }
}

#[test]
fn absolute_value_drops_the_sign() {
    for &a in &doubles() {
        let value = Double { bits: a.to_bits() };
        assert_eq!(value.abs().bits, a.abs().to_bits());
    }
}
