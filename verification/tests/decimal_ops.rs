use seemycity_backend::decimal::{FixedDec, MAX_UNITS, SCALE};

fn d(v: i64) -> FixedDec {
    FixedDec::from_int(v).unwrap()
}

fn u(x: i128) -> FixedDec {
    FixedDec::from_units(x).unwrap()
}

#[test]
fn construction_and_units() {
    assert_eq!(FixedDec::zero().units(), 0);
    assert_eq!(FixedDec::one().units(), SCALE);
    assert_eq!(d(1).units(), 1_000_000);
    assert_eq!(d(-3).units(), -3_000_000);
    assert_eq!(u(123_456).units(), 123_456);
    assert!(FixedDec::from_units(MAX_UNITS).is_some());
    assert!(FixedDec::from_units(MAX_UNITS + 1).is_none());
    assert!(FixedDec::from_units(-MAX_UNITS - 1).is_none());
}

#[test]
fn addition_and_subtraction_exact() {
    // 0.1 + 0.2 is exactly 0.3 in base 10
    let a = u(100_000);
    let b = u(200_000);
    assert_eq!(a.checked_add(b).unwrap(), u(300_000));
    assert_eq!(a.checked_sub(b).unwrap(), u(-100_000));
    assert!(u(MAX_UNITS).checked_add(u(1)).is_none());
    assert!(u(-MAX_UNITS).checked_sub(u(1)).is_none());
}

#[test]
fn multiplication_truncates_toward_zero() {
    // 1.5 * 2.5 = 3.75 exactly
    assert_eq!(u(1_500_000).checked_mul(u(2_500_000)).unwrap(), u(3_750_000));
    // 0.000003 * 0.5 = 0.0000015, truncated to 0.000001
    assert_eq!(u(3).checked_mul(u(500_000)).unwrap(), u(1));
    // and toward zero for negative products
    assert_eq!(u(-3).checked_mul(u(500_000)).unwrap(), u(-1));
    assert!(u(MAX_UNITS).checked_mul(u(2_000_000)).is_none());
}

#[test]
fn division_truncates_toward_zero() {
    // 1 / 3 = 0.333333...
    assert_eq!(d(1).checked_div(d(3)).unwrap(), u(333_333));
    assert_eq!(d(-1).checked_div(d(3)).unwrap(), u(-333_333));
    assert_eq!(d(10).checked_div(d(4)).unwrap(), u(2_500_000));
    assert!(d(1).checked_div(d(0)).is_none());
    // a tiny divisor pushes the quotient out of range
    assert!(u(MAX_UNITS).checked_div(u(1)).is_none());
}

#[test]
fn comparisons_and_clamp() {
    assert!(d(1).lt(&d(2)));
    assert!(d(2).le(&d(2)));
    assert!(d(3).gt(&d(2)));
    assert!(d(2).ge(&d(2)));
    assert_eq!(d(150).clamp_to(d(0), d(100)), d(100));
    assert_eq!(d(-5).clamp_to(d(0), d(100)), d(0));
    assert_eq!(d(42).clamp_to(d(0), d(100)), d(42));
}
