use tushare_api::Api;
use tushare_api::CellValue;
use tushare_api::LogConfig;
use tushare_api::LogLevel;
use tushare_api::Logger;
use tushare_api::TushareClient;
use tushare_api::TushareClientBuilder;
use tushare_api::TushareData;
use tushare_api::TushareEntityList;
use tushare_api::TushareError;
use tushare_api::TushareRequest;
use tushare_api::TushareResponse;
use tushare_api::client::classify_response;
use tushare_api::error::transport_error;
use tushare_api::utils::get_bool_field;
use tushare_api::utils::get_int_field;
use tushare_api::utils::get_optional_int_field;
use tushare_api::utils::get_optional_string_field;
use tushare_api::utils::get_string_field;

fn sample_response(code: i32, msg: Option<&str>) -> TushareResponse {
    TushareResponse {
        request_id: "r1".to_string(),
        code,
        msg: msg.map(|m| m.to_string()),
        data: None,
    }
}

#[test]
fn nonzero_status_codes_become_business_errors() {
    match classify_response(sample_response(40001, Some("credentials exhausted"))) {
        Err(TushareError::ApiError { code, message }) => {
            assert_eq!(code, 40001);
            assert_eq!(message, "credentials exhausted");
        }
        other => panic!("expected a business error, got {:?}", other),
    }
    match classify_response(sample_response(2, None)) {
        Err(TushareError::ApiError { code, message }) => {
            assert_eq!(code, 2);
            assert_eq!(message, "Unknown API error");
        }
        other => panic!("expected a business error, got {:?}", other),
    }
    let ok = classify_response(sample_response(0, None)).unwrap();
    assert_eq!(ok.request_id, "r1");
}

#[test]
fn builder_fails_fast_without_a_credential() {
    assert!(matches!(
        TushareClientBuilder::new().build(),
        Err(TushareError::InvalidToken)
    ));
    let client = TushareClient::builder()
        .with_token("SECRET-REDACTED")
        .with_connect_timeout(5_000)
        .with_timeout(60_000)
        .build()
        .unwrap();
    assert_eq!(client.token, "SECRET-REDACTED");
    assert_eq!(client.http_config.connect_timeout, 5_000);
    assert_eq!(client.http_config.timeout, 60_000);
}

#[test]
fn transport_failures_keep_their_kind() {
    assert!(matches!(
        transport_error(true, "took too long".to_string()),
        TushareError::TimeoutError
    ));
    match transport_error(false, "connection reset".to_string()) {
        TushareError::HttpError(m) => assert_eq!(m, "connection reset"),
        other => panic!("expected a transport error, got {:?}", other),
    }
}

#[test]
fn error_messages_name_their_layer() {
    assert_eq!(TushareError::TimeoutError.message(), "Request timeout");
    assert_eq!(TushareError::InvalidToken.message(), "Invalid API Token");
    assert_eq!(
        TushareError::ApiError { code: 40001, message: "boom".to_string() }.message(),
        "API error (code: 40001): boom"
    );
    assert_eq!(
        TushareError::ApiError { code: -5, message: "odd".to_string() }.message(),
        "API error (code: -5): odd"
    );
    assert_eq!(
        TushareError::HttpError("reset".to_string()).message(),
        "HTTP request error: reset"
    );
    assert_eq!(
        TushareError::ParseError("bad cell".to_string()).message(),
        "Parse error: bad cell"
    );
}

#[test]
fn logger_composes_exact_lines() {
    let logger = Logger::new(LogConfig::default());
    assert_eq!(
        logger.log_api_start("r1", "daily", 2, 3).unwrap(),
        "[r1] Starting Tushare API call: daily, params count: 2, fields count: 3"
    );
    assert_eq!(
        logger.log_api_success("r1", 42, 7).unwrap(),
        "[r1] API call successful, duration: 42ms, data rows returned: 7"
    );
    assert_eq!(
        logger.log_api_error("r1", 5, 40001, "boom").unwrap(),
        "[r1] API returned error, duration: 5ms, error code: 40001, error message: boom"
    );
    // Debug lines are filtered at the default Info level.
    assert_eq!(logger.log_http_request("r1"), None);
    assert_eq!(logger.log_request_details("r1", "daily", "{}", "[]", None), None);
}

#[test]
fn logger_honours_level_and_gates() {
    let verbose = Logger::new(LogConfig {
        level: LogLevel::Trace,
        log_requests: true,
        log_responses: true,
        log_sensitive_data: false,
        log_performance: false,
    });
    assert_eq!(
        verbose.log_http_request("r1").unwrap(),
        "[r1] Sending HTTP request to Tushare API"
    );
    assert_eq!(
        verbose.log_http_response("r1", 200).unwrap(),
        "[r1] Received HTTP response, status code: 200"
    );
    assert_eq!(
        verbose.log_raw_response("r1", "{}").unwrap(),
        "[r1] Raw response content: {}"
    );
    assert_eq!(
        verbose.log_api_success("r1", 42, 7).unwrap(),
        "[r1] API call successful"
    );
    assert_eq!(
        verbose.log_json_parse_error("r1", 9, "eof", "{\"k\":").unwrap(),
        "[r1] JSON parsing failed, duration: 9ms, error: eof, response content: {\"k\":"
    );

    let silent = Logger::new(LogConfig {
        level: LogLevel::Off,
        log_requests: true,
        log_responses: true,
        log_sensitive_data: false,
        log_performance: true,
    });
    assert_eq!(silent.log_api_error("r1", 5, 1, "x"), None);
    assert!(!silent.should_log(&LogLevel::Error));

    let errors_only = Logger::new(LogConfig {
        level: LogLevel::Error,
        log_requests: true,
        log_responses: false,
        log_sensitive_data: false,
        log_performance: true,
    });
    assert!(errors_only.should_log(&LogLevel::Error));
    assert!(!errors_only.should_log(&LogLevel::Warn));
    assert_eq!(
        errors_only.log_json_parse_error("r1", 9, "eof", "{\"k\":").unwrap(),
        "[r1] JSON parsing failed, duration: 9ms, error: eof, response content: [Hidden]"
    );
}

#[test]
fn sensitive_data_appears_only_when_configured() {
    let open = Logger::new(LogConfig {
        level: LogLevel::Debug,
        log_requests: true,
        log_responses: false,
        log_sensitive_data: true,
        log_performance: true,
    });
    assert_eq!(
        open.log_safe(LogLevel::Debug, "hello", Some("tok***")).unwrap(),
        "hello [Sensitive data: tok***]"
    );
    let closed = Logger::new(LogConfig::default());
    assert_eq!(
        closed.log_safe(LogLevel::Info, "hello", Some("tok***")).unwrap(),
        "hello"
    );
}

#[test]
fn requests_keep_the_last_value_per_key() {
    let request = TushareRequest::new(
        Api::Daily,
        vec![
            ("ts_code".to_string(), "000001.SZ".to_string()),
            ("ts_code".to_string(), "000002.SZ".to_string()),
        ],
        vec!["open".to_string()],
    );
    assert_eq!(request.params.len(), 1);
    assert_eq!(request.params[0].1, "000002.SZ");

    let request = request.add_param("ts_code", "000003.SZ").add_param("limit", "10");
    assert_eq!(request.params.len(), 2);
    let request = request.add_field("close");
    assert_eq!(request.fields, vec!["open".to_string(), "close".to_string()]);

    let request = TushareRequest::with_str_params(
        Api::Custom("my_api".to_string()),
        [("list_status", "L")],
        &["ts_code", "name"],
    );
    assert_eq!(request.api_name.name(), "my_api");
    assert_eq!(request.params.len(), 1);
    assert_eq!(request.fields.len(), 2);
}

#[test]
fn entity_list_exposes_its_page() {
    let mut list = TushareEntityList::new(vec![1i64, 2, 3], true, 100);
    assert_eq!(list.len(), 3);
    assert!(!list.is_empty());
    assert!(list.has_more());
    assert_eq!(list.count(), 100);
    assert_eq!(list.items(), &[1, 2, 3]);
    assert_eq!(list.iter(), &[1, 2, 3]);
    list.items_mut()[0] = 7;
    assert_eq!(list.into_items(), vec![7i64, 2, 3]);

    let from_vec: TushareEntityList<i64> = vec![4i64].into();
    assert_eq!(from_vec.len(), 1);
    assert!(!from_vec.has_more());
    assert_eq!(from_vec.count(), 0);

    let empty: TushareEntityList<i64> = TushareEntityList::new(Vec::new(), false, 0);
    assert!(empty.is_empty());
}

#[test]
fn strict_field_accessors_check_cell_kinds() {
    let fields: Vec<String> = vec!["code".to_string(), "count".to_string(), "live".to_string()];
    let row = vec![
        CellValue::Text("000001.SZ".to_string()),
        CellValue::Number("42".to_string()),
        CellValue::Bool(true),
    ];
    assert_eq!(get_string_field(&fields, &row, "code").unwrap(), "000001.SZ");
    assert_eq!(get_int_field(&fields, &row, "count").unwrap(), 42);
    assert_eq!(get_bool_field(&fields, &row, "live").unwrap(), true);

    // Strict accessors do not coerce across cell kinds.
    assert!(get_string_field(&fields, &row, "count").is_err());
    assert!(get_int_field(&fields, &row, "code").is_err());
    assert!(get_bool_field(&fields, &row, "count").is_err());

    match get_string_field(&fields, &row, "ts_code") {
        Err(TushareError::ParseError(m)) => assert_eq!(m, "Missing field: ts_code"),
        other => panic!("expected a conversion error, got {:?}", other),
    }

    assert_eq!(get_optional_string_field(&fields, &row, "absent").unwrap(), None);
    assert_eq!(get_optional_int_field(&fields, &row, "absent").unwrap(), None);
    assert_eq!(
        get_optional_string_field(&fields, &row, "code").unwrap(),
        Some("000001.SZ".to_string())
    );
    assert_eq!(get_optional_int_field(&fields, &row, "count").unwrap(), Some(42));
}

struct Nothing;

impl tushare_api::FromTushareData for Nothing {
    fn from_row(_fields: &[String], _values: &[CellValue]) -> Result<Self, TushareError> {
        Ok(Nothing)
    }
}

#[test]
fn response_without_a_table_converts_to_an_empty_page() {
    let response = TushareResponse {
        request_id: "r1".to_string(),
        code: 0,
        msg: None,
        data: None,
    };
    let list: TushareEntityList<Nothing> =
        tushare_api::utils::entity_list_from_response(response).unwrap();
    assert!(list.is_empty());
    assert!(!list.has_more());
    assert_eq!(list.count(), 0);

    // A table with zero rows converts successfully: no row conversion runs.
    let empty_table = TushareResponse {
        request_id: "r1".to_string(),
        code: 0,
        msg: None,
        data: Some(TushareData {
            fields: vec!["x".to_string()],
            items: Vec::new(),
            has_more: false,
            count: 0,
        }),
    };
    let list: TushareEntityList<Nothing> =
        tushare_api::utils::entity_list_from_response(empty_table).unwrap();
    assert!(list.is_empty());

    let data = TushareData {
        fields: vec!["x".to_string()],
        items: vec![vec![CellValue::Null], vec![CellValue::Null]],
        has_more: true,
        count: 11,
    };
    let response = TushareResponse {
        request_id: "r2".to_string(),
        code: 0,
        msg: None,
        data: Some(data),
    };
    let list: TushareEntityList<Nothing> =
        tushare_api::utils::entity_list_from_response(response).unwrap();
    assert_eq!(list.len(), 2);
    assert!(list.has_more());
    assert_eq!(list.count(), 11);
}
