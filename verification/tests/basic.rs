use tushare_api::Api;
use tushare_api::CellValue;
use tushare_api::TushareData;
use tushare_api::TushareError;
use tushare_api::TushareRequest;
use tushare_api::TushareResponse;
use tushare_api::mapper::FromTushareData;
use tushare_api::utils::get_field_value;
use tushare_api::utils::get_string_field;
use tushare_api::utils::response_to_vec;

#[test]
fn test_api_serialization() {
    let api = Api::StockBasic;
    assert_eq!(api.name(), "stock_basic");
}

#[test]
fn test_tushare_request_creation() {
    let request = TushareRequest::new(
        Api::StockBasic,
        vec![("list_status".to_string(), "L".to_string())],
        vec!["ts_code".to_string(), "symbol".to_string()],
    );

    assert_eq!(request.api_name, Api::StockBasic);
    assert_eq!(request.params.len(), 1);
    assert_eq!(request.fields.len(), 2);
}

#[test]
fn test_tushare_response_creation() {
    let response = TushareResponse {
        request_id: "test123".to_string(),
        code: 0,
        msg: None,
        data: Some(TushareData {
            fields: vec!["ts_code".to_string(), "name".to_string()],
            items: vec![
                vec![
                    CellValue::Text("000001.SZ".to_string()),
                    CellValue::Text("平安银行".to_string()),
                ],
                vec![
                    CellValue::Text("000002.SZ".to_string()),
                    CellValue::Text("万科A".to_string()),
                ],
            ],
            has_more: false,
            count: 2,
        }),
    };

    assert_eq!(response.code, 0);
    assert_eq!(response.data.clone().map(|data| data.items.len()).unwrap_or(0), 2);
    assert_eq!(response.data.clone().map(|data| data.items.len()).unwrap_or(0), 2);
}

#[derive(Debug, PartialEq)]
struct TestStock {
    ts_code: String,
    symbol: String,
    name: String,
    price: Option<f64>,
}

fn get_optional_float_field(
    fields: &[String],
    values: &[CellValue],
    field_name: &str,
) -> Result<Option<f64>, TushareError> {
    match get_field_value(fields, values, field_name) {
        Ok(CellValue::Null) => Ok(None),
        Ok(CellValue::Number(t)) => t
            .parse::<f64>()
            .map(Some)
            .map_err(|_| TushareError::ParseError(format!("Field {} is not a number", field_name))),
        Ok(_) => Err(TushareError::ParseError(format!(
            "Field {} is not a number",
            field_name
        ))),
        Err(_) => Ok(None),
    }
}

impl FromTushareData for TestStock {
    fn from_row(fields: &[String], values: &[CellValue]) -> Result<Self, TushareError> {
        Ok(TestStock {
            ts_code: get_string_field(fields, values, "ts_code")?,
            symbol: get_string_field(fields, values, "symbol")?,
            name: get_string_field(fields, values, "name")?,
            price: get_optional_float_field(fields, values, "price")?,
        })
    }
}

#[test]
fn test_response_to_vec() {
    let response = TushareResponse {
        request_id: "test".to_string(),
        code: 0,
        msg: None,
        data: Some(TushareData {
            fields: vec![
                "ts_code".to_string(),
                "symbol".to_string(),
                "name".to_string(),
                "price".to_string(),
            ],
            items: vec![
                vec![
                    CellValue::Text("000001.SZ".to_string()),
                    CellValue::Text("000001".to_string()),
                    CellValue::Text("平安银行".to_string()),
                    CellValue::Number("10.5".to_string()),
                ],
                vec![
                    CellValue::Text("000002.SZ".to_string()),
                    CellValue::Text("000002".to_string()),
                    CellValue::Text("万科A".to_string()),
                    CellValue::Null,
                ],
            ],
            has_more: false,
            count: 2,
        }),
    };

    let stocks: Vec<TestStock> = response_to_vec(response).unwrap();

    assert_eq!(stocks.len(), 2);
    assert_eq!(stocks[0].ts_code, "000001.SZ");
    assert_eq!(stocks[0].symbol, "000001");
    assert_eq!(stocks[0].name, "平安银行");
    assert_eq!(stocks[0].price, Some(10.5));

    assert_eq!(stocks[1].ts_code, "000002.SZ");
    assert_eq!(stocks[1].symbol, "000002");
    assert_eq!(stocks[1].name, "万科A");
    assert_eq!(stocks[1].price, None);
}
