use tushare_api::CellValue;
use tushare_api::convert::FromOptionalTushareValue;
use tushare_api::convert::FromTushareValue;
use tushare_api::decimal::BigDecimal;
use tushare_api::decimal::Decimal;
use tushare_api::mapper::FieldMapping;
use tushare_api::mapper::FieldType;
use tushare_api::mapper::FieldValue;
use tushare_api::mapper::map_row;
use tushare_api::uid::Uuid;

fn text(s: &str) -> CellValue {
    CellValue::Text(s.to_string())
}

fn number(s: &str) -> CellValue {
    CellValue::Number(s.to_string())
}

#[test]
fn decimal_cells_parse_exactly() {
    assert_eq!(
        Decimal::from_tushare_value(&text("10.5")).unwrap(),
        Decimal { mantissa: 105, scale: 1 }
    );
    assert_eq!(
        Decimal::from_tushare_value(&number("10.5")).unwrap(),
        Decimal { mantissa: 105, scale: 1 }
    );
    assert_eq!(
        Decimal::from_tushare_value(&text("-3.14")).unwrap(),
        Decimal { mantissa: -314, scale: 2 }
    );
    assert_eq!(
        Decimal::from_tushare_value(&text("42")).unwrap(),
        Decimal { mantissa: 42, scale: 0 }
    );
    assert!(Decimal::from_tushare_value(&text("not a number")).is_err());
    assert!(Decimal::from_tushare_value(&CellValue::Null).is_err());
    assert!(Decimal::from_tushare_value(&CellValue::Bool(true)).is_err());
}

#[test]
fn optional_decimals_treat_absent_cells_as_none() {
    assert_eq!(Decimal::from_optional_tushare_value(&CellValue::Null).unwrap(), None);
    assert_eq!(Decimal::from_optional_tushare_value(&text("")).unwrap(), None);
    assert_eq!(
        Decimal::from_optional_tushare_value(&text("0.25")).unwrap(),
        Some(Decimal { mantissa: 25, scale: 2 })
    );
    assert!(Decimal::from_optional_tushare_value(&text("bad")).is_err());
}

#[test]
fn uuid_cells_parse_from_text_only() {
    let parsed = Uuid::from_tushare_value(&text("67e55044-10b1-426f-9247-bb680e5fe0c8")).unwrap();
    assert_eq!(parsed, Uuid { value: 0x67e5504410b1426f9247bb680e5fe0c8 });
    assert!(Uuid::from_tushare_value(&text("not a uuid")).is_err());
    assert!(Uuid::from_tushare_value(&number("5")).is_err());
    assert_eq!(Uuid::from_optional_tushare_value(&CellValue::Null).unwrap(), None);
    assert_eq!(Uuid::from_optional_tushare_value(&text("")).unwrap(), None);
}

#[test]
fn mapper_reads_decimal_and_uuid_targets() {
    let cols: Vec<String> = vec!["price".to_string(), "batch".to_string()];
    let row = vec![
        CellValue::Number("10.5".to_string()),
        CellValue::Text("67e55044-10b1-426f-9247-bb680e5fe0c8".to_string()),
    ];
    let mappings = vec![
        FieldMapping::required(FieldType::Decimal, "price"),
        FieldMapping::required(FieldType::Uuid, "batch"),
    ];
    let vals = map_row(&cols, &row, &mappings).unwrap();
    assert_eq!(vals[0], FieldValue::Decimal(Decimal { mantissa: 105, scale: 1 }));
    assert_eq!(
        vals[1],
        FieldValue::Uuid(Uuid { value: 0x67e5504410b1426f9247bb680e5fe0c8 })
    );
}

#[test]
fn bigdecimal_cells_keep_every_digit() {
    assert_eq!(
        BigDecimal::from_tushare_value(&text("1.23456")).unwrap(),
        BigDecimal { digits: "123456".to_string(), scale: 5 }
    );
    assert_eq!(
        BigDecimal::from_tushare_value(&number("-1.2")).unwrap(),
        BigDecimal { digits: "-12".to_string(), scale: 1 }
    );
    assert_eq!(
        BigDecimal::from_tushare_value(&text("42")).unwrap(),
        BigDecimal { digits: "42".to_string(), scale: 0 }
    );
    // More digits than any fixed-width decimal could hold.
    assert_eq!(
        BigDecimal::from_tushare_value(&text("123456789012345678901234567890123456789.5"))
            .unwrap(),
        BigDecimal { digits: "1234567890123456789012345678901234567895".to_string(), scale: 1 }
    );
    assert!(BigDecimal::from_tushare_value(&text("not a number")).is_err());
    assert!(BigDecimal::from_tushare_value(&CellValue::Null).is_err());
    assert_eq!(BigDecimal::from_optional_tushare_value(&CellValue::Null).unwrap(), None);
    assert_eq!(BigDecimal::from_optional_tushare_value(&text("")).unwrap(), None);
}
