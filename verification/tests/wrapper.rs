use bonding_curve::fixed::Fixed;
use bonding_curve::fixed_wrapper::FixedWrapper;

#[test]
fn failure_propagates_through_any_chain() {
    let failed = FixedWrapper::failed();
    let one = FixedWrapper::from_fixed(Fixed::from_integer(1));
    let two = FixedWrapper::from_fixed(Fixed::from_integer(2));
    assert_eq!(failed.add(one).mul(two).sub(one).div(two).get(), None);
    assert_eq!(one.add(two).mul(failed).sub(one).get(), None);
    assert_eq!(one.div(two.sub(two)).add(one).get(), None);
}

#[test]
fn overflow_yields_failure_not_wrapping() {
    let max = FixedWrapper::from_fixed(Fixed::max_value());
    let one = FixedWrapper::from_fixed(Fixed::from_integer(1));
    assert_eq!(max.add(one).get(), None);
    assert_eq!(max.mul(max).get(), None);
    assert_eq!(Fixed::max_value().checked_add(Fixed::from_integer(1)), None);
    assert_eq!(Fixed::max_value().checked_mul(Fixed::max_value()), None);
    assert_eq!(FixedWrapper::from_integer(i64::MAX).get(), None);
}

#[test]
fn division_by_zero_fails() {
    let one = FixedWrapper::from_fixed(Fixed::from_integer(1));
    let zero = FixedWrapper::from_fixed(Fixed::zero());
    assert_eq!(one.div(zero).get(), None);
    assert_eq!(Fixed::from_integer(1).checked_div(Fixed::zero()), None);
}

#[test]
fn failed_wrappers_are_equal_to_nothing() {
    let failed = FixedWrapper::failed();
    let one = FixedWrapper::from_fixed(Fixed::from_integer(1));
    assert!(failed != failed);
    assert!(failed != one);
    assert!(one != failed);
    assert!(one == FixedWrapper::from_fixed(Fixed::from_integer(1)));
    assert_eq!(failed.partial_cmp(&failed), None);
    assert_eq!(failed.partial_cmp(&one), None);
    assert_eq!(
        one.partial_cmp(&FixedWrapper::from_fixed(Fixed::from_integer(2))),
        Some(core::cmp::Ordering::Less)
    );
    assert!(one < FixedWrapper::from_fixed(Fixed::from_integer(2)));
}

#[test]
fn sqrt_is_the_rounded_down_root() {
    let four = FixedWrapper::from_fixed(Fixed::from_integer(4));
    assert_eq!(four.sqrt().get(), Some(Fixed::from_integer(2)));
    let two = FixedWrapper::from_fixed(Fixed::from_integer(2));
    assert_eq!(two.sqrt().get(), Some(Fixed { inner: 1414 }));
    let negative = FixedWrapper::from_fixed(Fixed::from_ratio(-1, 1));
    assert_eq!(negative.sqrt().get(), None);
    assert_eq!(FixedWrapper::failed().sqrt().get(), None);
}

#[test]
fn wrapped_values_round_trip_through_get() {
    let v = Fixed::from_ratio(993, 10);
    assert_eq!(FixedWrapper::from_fixed(v).get(), Some(v));
    assert_eq!(FixedWrapper::from_option(Some(v)).get(), Some(v));
    assert_eq!(FixedWrapper::from_option(None).get(), None);
    assert_eq!(
        FixedWrapper::from_integer(7).get(),
        Some(Fixed::from_integer(7))
    );
}

#[test]
fn truncation_rounds_toward_zero() {
    // 1 / 3 at three fractional digits.
    assert_eq!(Fixed::from_ratio(1, 3), Fixed { inner: 333 });
    assert_eq!(Fixed::from_ratio(-1, 3), Fixed { inner: -333 });
    assert_eq!(
        Fixed::from_ratio(-1, 1).checked_div(Fixed::from_integer(3)),
        Some(Fixed { inner: -333 })
    );
    assert_eq!(
        Fixed::from_ratio(7, 2).checked_mul(Fixed::from_ratio(1, 2)),
        Some(Fixed { inner: 1750 })
    );
}
