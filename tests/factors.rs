use cosmwasm_std::{Decimal, Fraction};
use std::str::FromStr;
use update_scaling_factor::get_factors;

#[test]
fn test_scaling_factors() {
    let exchange_rate = Decimal::from_str("1.19234").unwrap();
    let factors = get_factors(
        exchange_rate.numerator().u128(),
        exchange_rate.denominator().u128(),
        Some(9),
    )
    .expect("should be set");
    assert_eq!(factors, vec![1192340000, 1000000000]);

    // cutoff after 9th position
    let exchange_rate = Decimal::from_str("1.192342342456").unwrap();
    let factors = get_factors(
        exchange_rate.numerator().u128(),
        exchange_rate.denominator().u128(),
        Some(9),
    )
    .expect("should be set");
    assert_eq!(factors, vec![1192342342, 1000000000]);

    let exchange_rate = Decimal::from_str("1.192342342456").unwrap();
    let factors = get_factors(
        exchange_rate.numerator().u128(),
        exchange_rate.denominator().u128(),
        Some(2),
    )
    .expect("should be set");
    assert_eq!(factors, vec![119, 100]);

    let exchange_rate = Decimal::from_str("1.192342342456").unwrap();
    let factors = get_factors(
        exchange_rate.numerator().u128(),
        exchange_rate.denominator().u128(),
        Some(1),
    )
    .expect("should be set");
    assert_eq!(factors, vec![11, 10]);

    // Decimal::MAX too big
    let exchange_rate = Decimal::MAX;
    let factors = get_factors(
        exchange_rate.numerator().u128(),
        exchange_rate.denominator().u128(),
        Some(9),
    )
    .expect_err("should be error");
    assert_eq!(
        factors.to_string(),
        "out of range integral type conversion attempted"
    );

    // max exchange_rate that is supported
    let exchange_rate = Decimal::from_str("18446744073.709551615").unwrap();
    let factors = get_factors(
        exchange_rate.numerator().u128(),
        exchange_rate.denominator().u128(),
        Some(9),
    )
    .expect("should be set");
    assert_eq!(factors, vec![u64::MAX, 1000000000]);
}

const ONE: u128 = 1_000_000_000_000_000_000;

#[test]
fn truncation_is_floor_division_at_each_precision() {
    let numerator: u128 = 1_999_999_999_999_999_999;
    for p in 0u32..=17 {
        let divisor = 10u128.pow(18 - p);
        let factors = get_factors(numerator, ONE, Some(p)).unwrap();
        assert_eq!(factors, vec![(numerator / divisor) as u64, (ONE / divisor) as u64]);
    }
    assert_eq!(get_factors(numerator, ONE, Some(0)).unwrap(), vec![1, 1]);
    assert_eq!(get_factors(numerator, ONE, Some(17)).unwrap(), vec![199_999_999_999_999_999, 100_000_000_000_000_000]);
}

#[test]
fn default_precision_keeps_four_digits() {
    assert_eq!(get_factors(1_192_342_342_456_000_000, ONE, None).unwrap(), vec![11923, 10000]);
}

#[test]
fn swapping_inputs_swaps_factors() {
    let n: u128 = 1_192_342_342_456_000_000;
    let a = get_factors(n, ONE, Some(6)).unwrap();
    let b = get_factors(ONE, n, Some(6)).unwrap();
    assert_eq!(a, vec![1_192_342, 1_000_000]);
    assert_eq!(b, vec![a[1], a[0]]);
}

#[test]
fn lower_precision_never_increases_factors() {
    let n: u128 = 7_654_321_987_654_321_987;
    let mut previous = get_factors(n, ONE, Some(17)).unwrap();
    for p in (0u32..17).rev() {
        let current = get_factors(n, ONE, Some(p)).unwrap();
        assert!(current[0] <= previous[0]);
        assert!(current[1] <= previous[1]);
        previous = current;
    }
}

#[test]
fn overflow_boundary_is_exact() {
    let divisor: u128 = 1_000_000_000;
    let largest = (u64::MAX as u128) * divisor + (divisor - 1);
    assert_eq!(get_factors(largest, ONE, Some(9)).unwrap(), vec![u64::MAX, 1_000_000_000]);
    let err = get_factors(largest + 1, ONE, Some(9)).unwrap_err();
    assert_eq!(err.to_string(), "out of range integral type conversion attempted");
    let err = get_factors(ONE, largest + 1, Some(9)).unwrap_err();
    assert!(matches!(err, update_scaling_factor::ContractError::TryFromInt(_)));
}

#[test]
fn largest_rate_overflows_at_precision_nine() {
    assert!(get_factors(u128::MAX, ONE, Some(9)).is_err());
}
