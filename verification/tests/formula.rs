//! Decimal, percentage and ratio notations all normalize to the same
//! fixed scale: an integer part plus a fractional part written as a
//! ratio equals the value written as one ratio.

use bonding_curve::fixed::Fixed;

fn plus(a: Fixed, b: Fixed) -> Fixed {
    a.checked_add(b).expect("exact sum")
}

#[test]
fn should_calculate_formula() {
    assert_eq!(Fixed::from_ratio(1, 2), Fixed::from_percentage(50));
    assert_eq!(Fixed::from_percentage(10), Fixed::from_ratio(10, 100));
    assert_eq!(
        plus(Fixed::from_integer(1), Fixed::from_ratio(2, 10)),
        Fixed::from_ratio(12, 10)
    );
    assert_eq!(
        plus(Fixed::from_integer(10), Fixed::from_ratio(2, 10)),
        Fixed::from_ratio(102, 10)
    );
    assert_eq!(
        plus(Fixed::from_integer(1), Fixed::from_ratio(20, 100)),
        Fixed::from_ratio(12, 10)
    );
    assert_eq!(
        plus(Fixed::from_integer(10), Fixed::from_ratio(20, 100)),
        Fixed::from_ratio(102, 10)
    );
    assert_eq!(
        plus(Fixed::from_integer(10), Fixed::from_ratio(0, 10)),
        Fixed::from_integer(10)
    );
    assert_eq!(
        plus(Fixed::from_percentage(2), Fixed::from_ratio(5, 1000)),
        Fixed::from_ratio(25, 10_00)
    );
    assert_eq!(
        plus(Fixed::from_percentage(20), Fixed::from_ratio(5, 1000)),
        Fixed::from_ratio(205, 10_00)
    );
    assert_eq!(
        plus(Fixed::from_percentage(20), Fixed::from_ratio(50, 10000)),
        Fixed::from_ratio(205, 10_00)
    );
    assert_eq!(
        plus(Fixed::from_percentage(20), Fixed::from_ratio(0, 100)),
        Fixed::from_percentage(20)
    );
}
