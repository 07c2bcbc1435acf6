use terranames::auction::{
    deposit_from_seconds_ceil, deposit_from_seconds_floor, seconds_from_deposit, RATE_SEC_DENOM,
};
use terranames::math::{checked_multiply_ratio, Decimal, DECIMAL_FRACTIONAL};
use terranames::utils::Timedelta;

#[test]
fn multiply_ratio_rounds_down() {
    assert_eq!(checked_multiply_ratio(500, 3, 2), Some(750));
    assert_eq!(checked_multiply_ratio(500, 2, 3), Some(333));
    assert_eq!(checked_multiply_ratio(500, 5, 6), Some(416));
    assert_eq!(checked_multiply_ratio(10, 3, 4), Some(7));
    assert_eq!(checked_multiply_ratio(0, 3, 4), Some(0));
    assert_eq!(checked_multiply_ratio(7, 0, 4), Some(0));
}

#[test]
fn multiply_ratio_is_not_the_identity() {
    // The value itself comes back only where numerator and denominator agree.
    assert_eq!(checked_multiply_ratio(1_000, 1, 1), Some(1_000));
    assert_eq!(checked_multiply_ratio(1_000, 1, 7), Some(142));
    assert_eq!(checked_multiply_ratio(6, 86_400, 7), Some(74_057));
}

#[test]
fn multiply_ratio_survives_wide_products() {
    assert_eq!(checked_multiply_ratio(u128::MAX, u128::MAX, u128::MAX), Some(u128::MAX));
    assert_eq!(checked_multiply_ratio(u128::MAX, 2, 2), Some(u128::MAX));
    assert_eq!(checked_multiply_ratio(u128::MAX - 1, 3, 4), Some(255211775190703847597530955573826158590));
    assert_eq!(
        checked_multiply_ratio(u128::MAX, 1_000_000_000_000_000_000, 3_000_000_000_000_000_000),
        Some(u128::MAX / 3)
    );
}

#[test]
fn multiply_ratio_reports_overflow() {
    assert_eq!(checked_multiply_ratio(u128::MAX, 2, 1), None);
    assert_eq!(checked_multiply_ratio(u128::MAX, u128::MAX, 1), None);
    assert_eq!(checked_multiply_ratio(u128::MAX / 2 + 1, 2, 1), None);
    assert_eq!(checked_multiply_ratio(u128::MAX / 2, 2, 1), Some(u128::MAX - 1));
}

#[test]
fn decimal_from_ratio() {
    assert_eq!(Decimal::from_ratio(1, 1), Some(Decimal::one()));
    assert_eq!(Decimal::from_ratio(0, 5), Some(Decimal::zero()));
    assert_eq!(Decimal::from_ratio(405, 100_000), Some(Decimal(4_050_000_000_000_000)));
    assert_eq!(Decimal::from_ratio(1, 3), Some(Decimal(333_333_333_333_333_333)));
    assert_eq!(Decimal::from_ratio(134_010, 9_122_993), Some(Decimal(14_689_258_229_179_831)));
    // The largest whole number that fits, and the first that does not.
    assert_eq!(
        Decimal::from_ratio(340_282_366_920_938_463_463, 1),
        Some(Decimal(340_282_366_920_938_463_463_000_000_000_000_000_000))
    );
    assert_eq!(Decimal::from_ratio(340_282_366_920_938_463_464, 1), None);
}

#[test]
fn decimal_parts() {
    let d = Decimal(1_500_000_000_000_000_000);
    assert_eq!(d.numerator(), 1_500_000_000_000_000_000);
    assert_eq!(d.denominator(), DECIMAL_FRACTIONAL);
    assert_eq!(Decimal::one().numerator(), 1_000_000_000_000_000_000);
    assert!(Decimal::zero().is_zero());
    assert!(!Decimal::one().is_zero());
}

#[test]
fn decimal_checked_add() {
    assert_eq!(Decimal(5).checked_add(Decimal(7)), Some(Decimal(12)));
    assert_eq!(Decimal(u128::MAX).checked_add(Decimal(0)), Some(Decimal(u128::MAX)));
    assert_eq!(Decimal(u128::MAX).checked_add(Decimal(1)), None);
}

#[test]
fn decimal_times_amount_rounds_down() {
    let half = Decimal(500_000_000_000_000_000);
    assert_eq!(half.checked_mul_amount(3), Some(1));
    assert_eq!(half.checked_mul_amount(4), Some(2));
    assert_eq!(Decimal(14_689_258_229_179_831).checked_mul_amount(9_122_993), Some(134_009));
    assert_eq!(Decimal(u128::MAX).checked_mul_amount(u128::MAX), None);
}

#[test]
fn deposit_floor_values() {
    assert_eq!(RATE_SEC_DENOM, 24 * 60 * 60);
    // One day at a rate costs the rate.
    assert_eq!(deposit_from_seconds_floor(Timedelta::from_seconds(86_400), 123), Some(123));
    assert_eq!(deposit_from_seconds_floor(Timedelta::from_seconds(86_399), 1), Some(0));
    assert_eq!(deposit_from_seconds_floor(Timedelta::from_seconds(0), 123), Some(0));
    assert_eq!(deposit_from_seconds_floor(Timedelta::from_seconds(157_784_760), 123), Some(224_624));
    assert_eq!(deposit_from_seconds_floor(Timedelta::from_seconds(157_784_760), 673), Some(1_229_041));
    assert_eq!(deposit_from_seconds_floor(Timedelta::from_seconds(157_784_760), 674), Some(1_230_867));
}

#[test]
fn deposit_ceil_values() {
    assert_eq!(deposit_from_seconds_ceil(Timedelta::from_seconds(86_400), 123), Some(123));
    assert_eq!(deposit_from_seconds_ceil(Timedelta::from_seconds(86_401), 1), Some(2));
    assert_eq!(deposit_from_seconds_ceil(Timedelta::from_seconds(1), 1), Some(1));
    assert_eq!(deposit_from_seconds_ceil(Timedelta::from_seconds(0), 123), Some(0));
    assert_eq!(deposit_from_seconds_ceil(Timedelta::from_seconds(5), 0), Some(0));
    assert_eq!(deposit_from_seconds_ceil(Timedelta::from_seconds(15_778_476), 6_735), Some(1_229_955));
    assert_eq!(deposit_from_seconds_ceil(Timedelta::from_seconds(15_778_476), 6_736), Some(1_230_137));
    assert_eq!(deposit_from_seconds_ceil(Timedelta::from_seconds(998_766), 123), Some(1_422));
}

#[test]
fn deposit_ceil_is_floor_or_one_more() {
    for (seconds, rate) in [(0u64, 0u128), (1, 1), (86_400, 7), (86_401, 7), (604_800, 123), (1_000_000, 98)] {
        let floor = deposit_from_seconds_floor(Timedelta::from_seconds(seconds), rate).unwrap();
        let ceil = deposit_from_seconds_ceil(Timedelta::from_seconds(seconds), rate).unwrap();
        let exact = (seconds as u128 * rate) % 86_400 == 0;
        assert_eq!(ceil, if exact { floor } else { floor + 1 });
    }
}

#[test]
fn deposits_beyond_128_bits() {
    assert_eq!(deposit_from_seconds_floor(Timedelta::from_seconds(86_400), u128::MAX), Some(u128::MAX));
    assert_eq!(deposit_from_seconds_ceil(Timedelta::from_seconds(86_400), u128::MAX), Some(u128::MAX));
    assert_eq!(deposit_from_seconds_floor(Timedelta::from_seconds(86_401), u128::MAX), None);
    assert_eq!(deposit_from_seconds_ceil(Timedelta::from_seconds(86_401), u128::MAX), None);
    assert_eq!(deposit_from_seconds_floor(Timedelta::from_seconds(u64::MAX), u128::MAX), None);
    // The product does not fit 128 bits, the deposit does.
    assert_eq!(
        deposit_from_seconds_floor(Timedelta::from_seconds(43_200), u128::MAX),
        Some(u128::MAX / 2)
    );
    assert_eq!(
        deposit_from_seconds_ceil(Timedelta::from_seconds(43_200), u128::MAX),
        Some(u128::MAX / 2 + 1)
    );
}

#[test]
fn seconds_from_deposit_values() {
    assert_eq!(seconds_from_deposit(30_000, 123), Some(Timedelta::from_seconds(21_073_170)));
    assert_eq!(seconds_from_deposit(1_230_000, 4_513), Some(Timedelta::from_seconds(23_547_972)));
    assert_eq!(seconds_from_deposit(0, 5), Some(Timedelta::from_seconds(0)));
    assert_eq!(seconds_from_deposit(1, 86_400), Some(Timedelta::from_seconds(1)));
    assert_eq!(seconds_from_deposit(1, 86_401), Some(Timedelta::from_seconds(0)));
}

#[test]
fn seconds_from_deposit_without_expiry() {
    // At rate zero a deposit is never used up.
    assert_eq!(seconds_from_deposit(30_000, 0), None);
    assert_eq!(seconds_from_deposit(0, 0), None);
    // Nor within representable time where the seconds do not fit.
    assert_eq!(seconds_from_deposit(u128::MAX, 1), None);
    assert_eq!(seconds_from_deposit(u64::MAX as u128 + 1, 86_400), None);
    assert_eq!(
        seconds_from_deposit(u64::MAX as u128, 86_400),
        Some(Timedelta::from_seconds(u64::MAX))
    );
}
