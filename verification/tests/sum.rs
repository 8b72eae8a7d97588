use randomos::{add_numbers, Error, FLOOR};

#[test]
fn floor_is_ten() {
    assert_eq!(FLOOR, 10);
}

#[test]
fn add_numbers_adds_from_the_floor_up() {
    assert_eq!(add_numbers(10, 5), Ok(15));
    assert_eq!(add_numbers(10, 0), Ok(10));
    assert_eq!(add_numbers(1000, 234), Ok(1234));
}

#[test]
fn add_numbers_refuses_a_small_first_operand() {
    assert_eq!(add_numbers(9, 100), Err(Error::ValueTooSmall(9)));
    assert_eq!(add_numbers(0, 0), Err(Error::ValueTooSmall(0)));
    assert_eq!(add_numbers(-5, 1000), Err(Error::ValueTooSmall(-5)));
    assert_eq!(add_numbers(i64::MIN, i64::MAX), Err(Error::ValueTooSmall(i64::MIN)));
}

#[test]
fn add_numbers_does_not_check_the_second_operand() {
    assert_eq!(add_numbers(10, 3), Ok(13));
    assert_eq!(add_numbers(10, -3), Ok(7));
    assert_eq!(add_numbers(20, -100), Ok(-80));
    assert_eq!(add_numbers(10, i64::MIN), Ok(i64::MIN + 10));
}

#[test]
fn add_numbers_wraps_on_overflow() {
    assert_eq!(add_numbers(i64::MAX, 0), Ok(i64::MAX));
    assert_eq!(add_numbers(i64::MAX, 1), Ok(i64::MIN));
    assert_eq!(add_numbers(10, i64::MAX), Ok(i64::MIN + 9));
    assert_eq!(add_numbers(i64::MAX, i64::MAX), Ok(-2));
}
