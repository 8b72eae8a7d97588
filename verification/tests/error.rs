use randomos::decimal::{magnitude, push_decimal, push_digits};
use randomos::{add_numbers, Error, Field};

#[test]
fn too_small_message_repeats_the_value() {
    assert_eq!(Error::ValueTooSmall(5).message(), "Too small number: 5, think big.");
    assert_eq!(Error::ValueTooSmall(0).message(), "Too small number: 0, think big.");
    assert_eq!(Error::ValueTooSmall(-3).message(), "Too small number: -3, think big.");
    assert_eq!(
        Error::ValueTooSmall(i64::MIN).message(),
        "Too small number: -9223372036854775808, think big."
    );
    assert_eq!(
        Error::ValueTooSmall(i64::MAX).message(),
        "Too small number: 9223372036854775807, think big."
    );
}

#[test]
fn too_small_message_through_add_numbers() {
    match add_numbers(7, 1) {
        Err(e) => assert_eq!(e.message(), "Too small number: 7, think big."),
        Ok(_) => panic!("7 is below the floor"),
    }
}

#[test]
fn other_messages() {
    assert_eq!(Error::MissingField(Field::Name).message(), "Missing field: name");
    assert_eq!(Error::MissingField(Field::City).message(), "Missing field: city");
    assert_eq!(Error::FileNotFound.message(), "no file found");
    assert_eq!(Error::Decode.message(), "file is not valid UTF-8");
}

#[test]
fn push_digits_appends() {
    let mut out = String::from("n=");
    push_digits(&mut out, 0);
    assert_eq!(out, "n=0");
    push_digits(&mut out, 9);
    push_digits(&mut out, 10);
    push_digits(&mut out, 120);
    assert_eq!(out, "n=0910120");
    let mut out = String::new();
    push_digits(&mut out, u64::MAX);
    assert_eq!(out, "18446744073709551615");
}

#[test]
fn push_decimal_agrees_with_display() {
    for a in [0, 1, -1, 9, 10, -10, 99, 100, 12345, -67890, i64::MAX, i64::MIN, i64::MIN + 1] {
        let mut out = String::new();
        push_decimal(&mut out, a);
        assert_eq!(out, format!("{}", a));
    }
}

#[test]
fn magnitude_of_extremes() {
    assert_eq!(magnitude(0), 0);
    assert_eq!(magnitude(-1), 1);
    assert_eq!(magnitude(17), 17);
    assert_eq!(magnitude(i64::MAX), 9223372036854775807);
    assert_eq!(magnitude(i64::MIN), 9223372036854775808);
}
