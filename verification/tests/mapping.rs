use tushare_api::CellValue;
use tushare_api::TushareError;
use tushare_api::dates::Date;
use tushare_api::mapper::EntityDescriptor;
use tushare_api::mapper::FieldMapping;
use tushare_api::mapper::FieldType;
use tushare_api::mapper::FieldValue;
use tushare_api::mapper::map_row;

fn columns(names: &[&str]) -> Vec<String> {
    names.iter().map(|n| n.to_string()).collect()
}

#[test]
fn map_row_converts_each_field_by_column_name() {
    // Columns arrive in an order unrelated to the field declarations.
    let cols = columns(&["volume", "ts_code", "trade_date", "suspended"]);
    let row = vec![
        CellValue::Number("123456".to_string()),
        CellValue::Text("000001.SZ".to_string()),
        CellValue::Text("20240315".to_string()),
        CellValue::Text("N".to_string()),
    ];
    let mappings = vec![
        FieldMapping::required(FieldType::Str, "ts_code"),
        FieldMapping::required(FieldType::Date, "trade_date"),
        FieldMapping::required(FieldType::U64, "volume"),
        FieldMapping::required(FieldType::Bool, "suspended"),
    ];
    let vals = map_row(&cols, &row, &mappings).unwrap();
    assert_eq!(vals.len(), 4);
    assert_eq!(vals[0], FieldValue::Str("000001.SZ".to_string()));
    assert_eq!(
        vals[1],
        FieldValue::Date(Date { year: 2024, month: 3, day: 15 })
    );
    assert_eq!(vals[2], FieldValue::U64(123456));
    assert_eq!(vals[3], FieldValue::Bool(false));
}

#[test]
fn missing_required_column_names_the_column() {
    let cols = columns(&["symbol", "name"]);
    let row = vec![
        CellValue::Text("000001".to_string()),
        CellValue::Text("平安银行".to_string()),
    ];
    let mappings = vec![FieldMapping::required(FieldType::Str, "ts_code")];
    match map_row(&cols, &row, &mappings) {
        Err(TushareError::ParseError(m)) => assert_eq!(m, "Missing field: ts_code"),
        other => panic!("expected a conversion error, got {:?}", other),
    }
}

#[test]
fn missing_optional_column_reads_as_absent() {
    let cols = columns(&["ts_code"]);
    let row = vec![CellValue::Text("000001.SZ".to_string())];
    let mappings = vec![
        FieldMapping::required(FieldType::Str, "ts_code"),
        FieldMapping::optional(FieldType::I64, "holders"),
    ];
    let vals = map_row(&cols, &row, &mappings).unwrap();
    assert_eq!(vals[1], FieldValue::Absent);
}

#[test]
fn null_and_empty_cells_read_as_absent_for_optional_fields() {
    let cols = columns(&["a", "b"]);
    let row = vec![CellValue::Null, CellValue::Text("".to_string())];
    let mappings = vec![
        FieldMapping::optional(FieldType::I64, "a"),
        FieldMapping::optional(FieldType::Str, "b"),
    ];
    let vals = map_row(&cols, &row, &mappings).unwrap();
    assert_eq!(vals[0], FieldValue::Absent);
    assert_eq!(vals[1], FieldValue::Absent);

    // The same cells under required non-string targets are errors.
    let required = vec![FieldMapping::required(FieldType::I64, "a")];
    assert!(map_row(&cols, &row, &required).is_err());
}

#[test]
fn skipped_fields_take_defaults_without_consulting_the_row() {
    let cols = columns(&["other"]);
    let row = vec![CellValue::Text("x".to_string())];
    let mut skipped = FieldMapping::required(FieldType::I64, "missing");
    skipped.skip = true;
    let mut skipped_str = FieldMapping::required(FieldType::Str, "missing");
    skipped_str.skip = true;
    let mut skipped_opt = FieldMapping::optional(FieldType::Bool, "missing");
    skipped_opt.skip = true;
    let vals = map_row(&cols, &row, &vec![skipped, skipped_str, skipped_opt]).unwrap();
    assert_eq!(vals[0], FieldValue::I64(0));
    assert_eq!(vals[1], FieldValue::Str(String::new()));
    assert_eq!(vals[2], FieldValue::Absent);
}

#[test]
fn conversion_stops_at_the_first_failing_field() {
    let cols = columns(&["a", "b"]);
    let row = vec![
        CellValue::Text("not a number".to_string()),
        CellValue::Text("also bad".to_string()),
    ];
    let mappings = vec![
        FieldMapping::required(FieldType::I64, "a"),
        FieldMapping::required(FieldType::I64, "b"),
    ];
    assert!(matches!(
        map_row(&cols, &row, &mappings),
        Err(TushareError::ParseError(_))
    ));
}

#[test]
fn short_rows_are_conversion_errors() {
    let cols = columns(&["a", "b"]);
    let row = vec![CellValue::Text("x".to_string())];
    let mappings = vec![FieldMapping::required(FieldType::Str, "b")];
    assert!(map_row(&cols, &row, &mappings).is_err());
}

#[test]
fn format_override_applies_per_field() {
    let cols = columns(&["listed"]);
    let row = vec![CellValue::Text("15/03/2024".to_string())];
    let mut m = FieldMapping::required(FieldType::Date, "listed");
    m.format = Some("%d/%m/%Y".to_string());
    let vals = map_row(&cols, &row, &vec![m.clone()]).unwrap();
    assert_eq!(
        vals[0],
        FieldValue::Date(Date { year: 2024, month: 3, day: 15 })
    );

    // The override replaces the default list entirely.
    let row2 = vec![CellValue::Text("2024-03-15".to_string())];
    assert!(map_row(&cols, &row2, &vec![m]).is_err());
}

#[test]
fn descriptor_rejects_format_overrides_on_non_date_targets() {
    let mut bad = FieldMapping::required(FieldType::I64, "volume");
    bad.format = Some("%Y%m%d".to_string());
    match EntityDescriptor::new(vec![bad]) {
        Err(TushareError::Other(m)) => assert!(m.contains("volume"), "{}", m),
        other => panic!("expected a configuration error, got {:?}", other),
    }

    let mut good = FieldMapping::required(FieldType::Date, "listed");
    good.format = Some("%d/%m/%Y".to_string());
    let desc = EntityDescriptor::new(vec![good]).unwrap();
    let cols = columns(&["listed"]);
    let row = vec![CellValue::Text("15/03/2024".to_string())];
    let vals = desc.map_row(&cols, &row).unwrap();
    assert_eq!(
        vals[0],
        FieldValue::Date(Date { year: 2024, month: 3, day: 15 })
    );
}
