use tushare_api::CellValue;
use tushare_api::TushareError;
use tushare_api::convert::FromOptionalTushareValue;
use tushare_api::convert::FromTushareValue;
use tushare_api::dates::Date;
use tushare_api::dates::DateTime;
use tushare_api::dates::UtcDateTime;
use tushare_api::dates::FromTushareValueWithFormat;
use tushare_api::dates::from_optional_tushare_value_with_date_format;
use tushare_api::dates::from_tushare_value_with_date_format;

fn text(s: &str) -> CellValue {
    CellValue::Text(s.to_string())
}

fn number(s: &str) -> CellValue {
    CellValue::Number(s.to_string())
}

const IDES: Date = Date { year: 2024, month: 3, day: 15 };

#[test]
fn default_formats_agree_on_one_date() {
    assert_eq!(Date::from_tushare_value(&text("20240315")).unwrap(), IDES);
    assert_eq!(Date::from_tushare_value(&text("2024-03-15")).unwrap(), IDES);
    assert_eq!(Date::from_tushare_value(&text("2024/03/15")).unwrap(), IDES);
    assert_eq!(Date::from_tushare_value(&text("2024.03.15")).unwrap(), IDES);
    assert_eq!(Date::from_tushare_value(&text("2024年03月15日")).unwrap(), IDES);
    assert_eq!(
        Date::from_tushare_value(&text("2024-03-15 00:00:00")).unwrap(),
        IDES
    );
}

#[test]
fn number_cells_read_as_compact_dates() {
    assert_eq!(Date::from_tushare_value(&number("20240315")).unwrap(), IDES);
    assert!(Date::from_tushare_value(&number("2024315")).is_err());
    assert!(Date::from_tushare_value(&number("20241315")).is_err());
}

#[test]
fn unparseable_dates_are_errors() {
    assert!(Date::from_tushare_value(&text("ides of march")).is_err());
    assert!(Date::from_tushare_value(&text("2024-13-40")).is_err());
    assert!(Date::from_tushare_value(&CellValue::Bool(true)).is_err());
}

#[test]
fn format_override_is_exclusive() {
    let d: Date =
        from_tushare_value_with_date_format(&text("15/03/2024"), "%d/%m/%Y").unwrap();
    assert_eq!(d, IDES);

    // The right date in the wrong format is an error naming the format.
    let err = Date::from_tushare_value_with_format(&text("2024-03-15"), "%d/%m/%Y");
    match err {
        Err(TushareError::ParseError(m)) => {
            assert!(m.contains("%d/%m/%Y"), "{}", m);
            assert!(m.contains("2024-03-15"), "{}", m);
        }
        other => panic!("expected a conversion error, got {:?}", other),
    }
}

#[test]
fn optional_dates_treat_absent_cells_as_none() {
    assert_eq!(Date::from_optional_tushare_value(&CellValue::Null).unwrap(), None);
    assert_eq!(Date::from_optional_tushare_value(&text("")).unwrap(), None);
    assert_eq!(
        Date::from_optional_tushare_value(&text("20240315")).unwrap(),
        Some(IDES)
    );
    let o: Option<Date> =
        from_optional_tushare_value_with_date_format(&CellValue::Null, "%d/%m/%Y").unwrap();
    assert_eq!(o, None);
    let o: Option<Date> =
        from_optional_tushare_value_with_date_format(&text("15/03/2024"), "%d/%m/%Y").unwrap();
    assert_eq!(o, Some(IDES));
}

#[test]
fn datetime_formats_agree_on_one_timestamp() {
    let expected = DateTime { year: 2024, month: 3, day: 15, hour: 10, minute: 30, second: 5 };
    assert_eq!(
        DateTime::from_tushare_value(&text("20240315 10:30:05")).unwrap(),
        expected
    );
    assert_eq!(
        DateTime::from_tushare_value(&text("2024-03-15 10:30:05")).unwrap(),
        expected
    );
    assert_eq!(
        DateTime::from_tushare_value(&text("2024/03/15 10:30:05")).unwrap(),
        expected
    );
    assert_eq!(
        DateTime::from_tushare_value(&text("2024-03-15T10:30:05")).unwrap(),
        expected
    );
    assert!(DateTime::from_tushare_value(&text("2024-03-15")).is_err());
    assert!(DateTime::from_tushare_value(&number("20240315")).is_err());
}

#[test]
fn datetime_format_override_is_exclusive() {
    let expected = DateTime { year: 2024, month: 3, day: 15, hour: 10, minute: 30, second: 5 };
    let d: DateTime =
        from_tushare_value_with_date_format(&text("15/03/2024 10-30-05"), "%d/%m/%Y %H-%M-%S")
            .unwrap();
    assert_eq!(d, expected);
    let err = DateTime::from_tushare_value_with_format(&text("2024-03-15 10:30:05"), "%d/%m/%Y %H-%M-%S");
    match err {
        Err(TushareError::ParseError(m)) => assert!(m.contains("%d/%m/%Y %H-%M-%S"), "{}", m),
        other => panic!("expected a conversion error, got {:?}", other),
    }
    assert_eq!(
        DateTime::from_optional_tushare_value(&text("")).unwrap(),
        None
    );
}

#[test]
fn utc_timestamps_prefer_rfc3339_and_normalise_offsets() {
    let expected = UtcDateTime { year: 2024, month: 3, day: 15, hour: 10, minute: 30, second: 5 };
    // An offset-carrying text is converted to UTC.
    assert_eq!(
        UtcDateTime::from_tushare_value(&text("2024-03-15T12:30:05+02:00")).unwrap(),
        expected
    );
    assert_eq!(
        UtcDateTime::from_tushare_value(&text("2024-03-15T10:30:05Z")).unwrap(),
        expected
    );
    // A plain timestamp falls back to the fixed list, read as already UTC.
    assert_eq!(
        UtcDateTime::from_tushare_value(&text("2024-03-15 10:30:05")).unwrap(),
        expected
    );
    assert!(UtcDateTime::from_tushare_value(&text("not a timestamp")).is_err());
    assert!(UtcDateTime::from_tushare_value(&CellValue::Bool(true)).is_err());
    assert_eq!(UtcDateTime::from_optional_tushare_value(&CellValue::Null).unwrap(), None);
    assert_eq!(UtcDateTime::from_optional_tushare_value(&text("")).unwrap(), None);
}

#[test]
fn utc_format_override_carries_the_offset() {
    let expected = UtcDateTime { year: 2024, month: 3, day: 15, hour: 8, minute: 30, second: 5 };
    let d: UtcDateTime = from_tushare_value_with_date_format(
        &text("15/03/2024 10:30:05 +0200"),
        "%d/%m/%Y %H:%M:%S %z",
    )
    .unwrap();
    assert_eq!(d, expected);
    let err = UtcDateTime::from_tushare_value_with_format(&text("2024-03-15"), "%d/%m/%Y %H:%M:%S %z");
    match err {
        Err(TushareError::ParseError(m)) => assert!(m.contains("%d/%m/%Y %H:%M:%S %z"), "{}", m),
        other => panic!("expected a conversion error, got {:?}", other),
    }
}
