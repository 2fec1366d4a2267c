use trading_system::amount::{Amount, MAX_MANTISSA};

fn parts(a: &Amount) -> (i128, u32) {
    (a.mantissa(), a.scale())
}

#[test]
fn amount_new_and_parts() {
    let a = Amount::new(-12345, 3);
    assert_eq!(parts(&a), (-12345, 3));
    assert_eq!(parts(&Amount::zero()), (0, 0));
}

#[test]
fn amount_from_parts_checks_range() {
    assert!(Amount::from_parts(MAX_MANTISSA, 28).is_some());
    assert!(Amount::from_parts(-MAX_MANTISSA, 0).is_some());
    assert!(Amount::from_parts(MAX_MANTISSA + 1, 0).is_none());
    assert!(Amount::from_parts(1, 29).is_none());
}

#[test]
fn amount_add_aligns_scales_exactly() {
    let a = Amount::new(15, 1);
    let b = Amount::new(225, 2);
    let sum = a.checked_add(&b).unwrap();
    assert_eq!(parts(&sum), (375, 2));
    assert_eq!(parts(&a.plus(b)), (375, 2));
}

#[test]
fn amount_sub_aligns_scales_exactly() {
    let a = Amount::new(5, 0);
    let b = Amount::new(15, 1);
    let difference = a.checked_sub(&b).unwrap();
    assert_eq!(parts(&difference), (35, 1));
    assert_eq!(parts(&a.minus(b)), (35, 1));
}

#[test]
fn amount_zero_operand_keeps_the_other() {
    let zero = Amount::new(0, 5);
    let b = Amount::new(7, 2);
    assert_eq!(parts(&zero.checked_add(&b).unwrap()), (7, 2));
    assert_eq!(parts(&b.checked_add(&zero).unwrap()), (7, 2));
    assert_eq!(parts(&zero.checked_sub(&b).unwrap()), (-7, 2));
}

#[test]
fn amount_add_overflow_is_none() {
    let max = Amount::from_parts(MAX_MANTISSA, 0).unwrap();
    let one = Amount::new(1, 0);
    assert!(max.checked_add(&one).is_none());
    let min = Amount::from_parts(-MAX_MANTISSA, 0).unwrap();
    assert!(min.checked_sub(&one).is_none());
}

#[test]
fn amount_add_rounds_where_inexact() {
    // The exact sum needs more than 96 bits at one fractional digit, so it is
    // rounded to the nearest whole number.
    let max = Amount::from_parts(MAX_MANTISSA, 0).unwrap();
    let small = Amount::new(-4, 1);
    let sum = max.checked_add(&small).unwrap();
    assert_eq!(parts(&sum), (MAX_MANTISSA, 0));
}

#[test]
fn amount_less_than_compares_values() {
    let one = Amount::new(1, 0);
    let one_point_zero = Amount::new(100, 2);
    let half = Amount::new(5, 1);
    assert!(!one.lt(&one_point_zero));
    assert!(!one_point_zero.lt(&one));
    assert!(half.lt(&one));
    assert!(Amount::new(-1, 0).lt(&Amount::zero()));
}

#[test]
fn amount_negation_is_an_involution() {
    let a = Amount::new(-42, 3);
    assert_eq!(parts(&-a), (42, 3));
    assert_eq!(parts(&-(-a)), (-42, 3));
}
