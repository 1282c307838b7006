use tushare_api::CellValue;
use tushare_api::TushareError;
use tushare_api::convert::FromOptionalTushareValue;
use tushare_api::convert::FromTushareValue;

fn text(s: &str) -> CellValue {
    CellValue::Text(s.to_string())
}

fn number(s: &str) -> CellValue {
    CellValue::Number(s.to_string())
}

#[test]
fn null_cell_is_an_error_for_required_fields() {
    assert!(matches!(
        i64::from_tushare_value(&CellValue::Null),
        Err(TushareError::ParseError(_))
    ));
    assert!(matches!(
        i32::from_tushare_value(&CellValue::Null),
        Err(TushareError::ParseError(_))
    ));
    assert!(matches!(
        u8::from_tushare_value(&CellValue::Null),
        Err(TushareError::ParseError(_))
    ));
    assert!(matches!(
        bool::from_tushare_value(&CellValue::Null),
        Err(TushareError::ParseError(_))
    ));
    assert!(matches!(
        char::from_tushare_value(&CellValue::Null),
        Err(TushareError::ParseError(_))
    ));
    // A required string reads a null cell as the empty string.
    assert_eq!(String::from_tushare_value(&CellValue::Null).unwrap(), "");
}

#[test]
fn null_cell_is_absent_for_optional_fields() {
    assert_eq!(i64::from_optional_tushare_value(&CellValue::Null).unwrap(), None);
    assert_eq!(u32::from_optional_tushare_value(&CellValue::Null).unwrap(), None);
    assert_eq!(bool::from_optional_tushare_value(&CellValue::Null).unwrap(), None);
    assert_eq!(char::from_optional_tushare_value(&CellValue::Null).unwrap(), None);
    assert_eq!(String::from_optional_tushare_value(&CellValue::Null).unwrap(), None);
}

#[test]
fn empty_string_is_absent_for_optional_fields() {
    assert_eq!(String::from_optional_tushare_value(&text("")).unwrap(), None);
    assert_eq!(i64::from_optional_tushare_value(&text("")).unwrap(), None);
    assert_eq!(u16::from_optional_tushare_value(&text("")).unwrap(), None);
    assert_eq!(bool::from_optional_tushare_value(&text("")).unwrap(), None);
    assert_eq!(char::from_optional_tushare_value(&text("")).unwrap(), None);
}

#[test]
fn string_and_number_cells_read_alike_at_integer_targets() {
    assert_eq!(i64::from_tushare_value(&text("123")).unwrap(), 123);
    assert_eq!(i64::from_tushare_value(&number("123")).unwrap(), 123);
    assert_eq!(i32::from_tushare_value(&text("123")).unwrap(), 123);
    assert_eq!(i32::from_tushare_value(&number("123")).unwrap(), 123);
    assert!(matches!(
        i64::from_tushare_value(&text("12.5")),
        Err(TushareError::ParseError(_))
    ));
    assert!(matches!(
        i64::from_tushare_value(&number("12.5")),
        Err(TushareError::ParseError(_))
    ));
}

#[test]
fn signed_integer_text_parses_with_signs() {
    assert_eq!(i64::from_tushare_value(&text("-42")).unwrap(), -42);
    assert_eq!(i64::from_tushare_value(&text("+42")).unwrap(), 42);
    assert_eq!(i64::from_tushare_value(&text("0042")).unwrap(), 42);
    assert!(i64::from_tushare_value(&text("")).is_err());
    assert!(i64::from_tushare_value(&text("-")).is_err());
    assert!(i64::from_tushare_value(&text("4 2")).is_err());
    assert!(i64::from_tushare_value(&text("42x")).is_err());
}

#[test]
fn out_of_range_integers_are_errors_not_truncations() {
    assert!(i8::from_tushare_value(&number("128")).is_err());
    assert_eq!(i8::from_tushare_value(&number("127")).unwrap(), 127);
    assert_eq!(i8::from_tushare_value(&number("-128")).unwrap(), -128);
    assert!(i8::from_tushare_value(&number("-129")).is_err());
    assert!(u8::from_tushare_value(&number("256")).is_err());
    assert!(u8::from_tushare_value(&number("-1")).is_err());
    assert!(u64::from_tushare_value(&text("-1")).is_err());
    assert_eq!(
        u64::from_tushare_value(&text("18446744073709551615")).unwrap(),
        u64::MAX
    );
    assert!(u64::from_tushare_value(&text("18446744073709551616")).is_err());
    assert_eq!(
        i64::from_tushare_value(&text("-9223372036854775808")).unwrap(),
        i64::MIN
    );
    assert!(i64::from_tushare_value(&text("-9223372036854775809")).is_err());
    assert!(i64::from_tushare_value(&text("999999999999999999999999999")).is_err());
}

#[test]
fn boolean_vocabulary_is_case_insensitive() {
    for s in ["true", "TRUE", "True", "1", "yes", "YES", "y", "Y"] {
        assert_eq!(bool::from_tushare_value(&text(s)).unwrap(), true, "{}", s);
    }
    for s in ["false", "FALSE", "0", "no", "NO", "n", "N", ""] {
        assert_eq!(bool::from_tushare_value(&text(s)).unwrap(), false, "{}", s);
    }
    assert!(bool::from_tushare_value(&text("maybe")).is_err());
    assert!(bool::from_tushare_value(&text("10")).is_err());
}

#[test]
fn boolean_number_cells_read_nonzero_as_true() {
    assert_eq!(bool::from_tushare_value(&CellValue::Bool(true)).unwrap(), true);
    assert_eq!(bool::from_tushare_value(&CellValue::Bool(false)).unwrap(), false);
    assert_eq!(bool::from_tushare_value(&number("0")).unwrap(), false);
    assert_eq!(bool::from_tushare_value(&number("0.0")).unwrap(), false);
    assert_eq!(bool::from_tushare_value(&number("-0.0")).unwrap(), false);
    assert_eq!(bool::from_tushare_value(&number("1")).unwrap(), true);
    assert_eq!(bool::from_tushare_value(&number("-7")).unwrap(), true);
    assert_eq!(bool::from_tushare_value(&number("2.5")).unwrap(), true);
}

#[test]
fn every_cell_reads_as_a_string() {
    assert_eq!(String::from_tushare_value(&text("hello")).unwrap(), "hello");
    assert_eq!(String::from_tushare_value(&number("10.5")).unwrap(), "10.5");
    assert_eq!(String::from_tushare_value(&CellValue::Bool(true)).unwrap(), "true");
    assert_eq!(String::from_tushare_value(&CellValue::Bool(false)).unwrap(), "false");
    assert_eq!(
        String::from_optional_tushare_value(&text("x")).unwrap(),
        Some("x".to_string())
    );
}

#[test]
fn char_cells_accept_one_character_or_a_code_point() {
    assert_eq!(char::from_tushare_value(&text("A")).unwrap(), 'A');
    assert_eq!(char::from_tushare_value(&text("银")).unwrap(), '银');
    assert!(char::from_tushare_value(&text("AB")).is_err());
    assert!(char::from_tushare_value(&text("")).is_err());
    assert_eq!(char::from_tushare_value(&number("65")).unwrap(), 'A');
    // Surrogate code points are not scalar values.
    assert!(char::from_tushare_value(&number("55296")).is_err());
    assert!(char::from_tushare_value(&number("1114112")).is_err());
    assert_eq!(char::from_optional_tushare_value(&text("z")).unwrap(), Some('z'));
}

#[test]
fn optional_readings_still_reject_malformed_present_cells() {
    assert!(i64::from_optional_tushare_value(&text("abc")).is_err());
    assert!(bool::from_optional_tushare_value(&text("maybe")).is_err());
    assert_eq!(i64::from_optional_tushare_value(&number("7")).unwrap(), Some(7));
    assert_eq!(bool::from_optional_tushare_value(&text("Yes")).unwrap(), Some(true));
}
