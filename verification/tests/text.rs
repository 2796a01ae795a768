use sealvault_core::text::{
    chars_of, is_digit_char, is_token_character, parse_i64, push_decimal, push_signed_decimal,
    string_of, IntegerLiteralError,
};

#[test]
fn characters_of_a_string_and_back() {
    let chars = chars_of("héllo-1");
    assert_eq!(chars, vec!['h', 'é', 'l', 'l', 'o', '-', '1']);
    assert_eq!(string_of(&chars), "héllo-1");
    assert_eq!(chars_of(""), Vec::<char>::new());
}

#[test]
fn classes_of_characters() {
    for c in "0123456789".chars() {
        assert!(is_digit_char(c));
        assert!(is_token_character(c));
    }
    for c in "abcxyzABCXYZ-".chars() {
        assert!(!is_digit_char(c));
        assert!(is_token_character(c));
    }
    for c in "_. /:@[`{\n٣é".chars() {
        assert!(!is_digit_char(c));
        assert!(!is_token_character(c));
    }
}

#[test]
fn decimal_notation_of_numbers() {
    let mut out = String::from("n=");
    push_decimal(&mut out, 0);
    assert_eq!(out, "n=0");
    for n in [1u64, 9, 10, 11, 99, 100, 12345, u64::MAX] {
        let mut out = String::new();
        push_decimal(&mut out, n);
        assert_eq!(out, n.to_string());
    }
    for n in [0i64, -1, 1, -10, 1700000000, i64::MAX, i64::MIN] {
        let mut out = String::new();
        push_signed_decimal(&mut out, n);
        assert_eq!(out, n.to_string());
    }
}

#[test]
fn integer_literals() {
    assert_eq!(parse_i64("0"), Ok(0));
    assert_eq!(parse_i64("-12"), Ok(-12));
    assert_eq!(parse_i64("+12"), Ok(12));
    assert_eq!(parse_i64("-9223372036854775808"), Ok(i64::MIN));
    assert_eq!(parse_i64("9223372036854775807"), Ok(i64::MAX));
    assert_eq!(parse_i64(""), Err(IntegerLiteralError::Empty));
    assert_eq!(parse_i64("-"), Err(IntegerLiteralError::InvalidDigit));
    assert_eq!(parse_i64("1-"), Err(IntegerLiteralError::InvalidDigit));
    assert_eq!(parse_i64("--1"), Err(IntegerLiteralError::InvalidDigit));
    assert_eq!(parse_i64("9223372036854775808"), Err(IntegerLiteralError::TooLarge));
    assert_eq!(parse_i64("-9223372036854775809"), Err(IntegerLiteralError::TooSmall));
    assert_eq!(parse_i64("99999999999999999999x"), Err(IntegerLiteralError::TooLarge));
    assert_eq!(parse_i64("-99999999999999999999x"), Err(IntegerLiteralError::TooSmall));
    assert_eq!(parse_i64("9223372036854775807x"), Err(IntegerLiteralError::InvalidDigit));
    assert_eq!(parse_i64("x99999999999999999999"), Err(IntegerLiteralError::InvalidDigit));
    assert_eq!(
        IntegerLiteralError::TooSmall.description(),
        "number too small to fit in target type"
    );
}
