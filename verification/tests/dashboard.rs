use events_service::dashboard::assemble;
use events_service::dashboard::dashboard_requests;
use events_service::dashboard::get_dashboard_data;
use events_service::error::AppError;
use events_service::error::BackendFault;
use events_service::headers::Headers;
use events_service::state::AppState;
use events_service::status::StatusCode;
use events_service::store::Query;
use events_service::store::QueryOutcome;
use events_service::store::StoreReply;
use events_service::store::StoreRequest;
use events_service::store::STORE_URL;
use serde_json::Value;

fn state() -> AppState {
    AppState {
        gps_token: "gps-secret".to_string(),
        embedded_token: "embedded-secret".to_string(),
        store_user: "reader".to_string(),
        store_password: "key".to_string(),
    }
}

fn replied(status: u16, body: &str) -> QueryOutcome {
    Ok(StoreReply { status: StatusCode(status), body: body.as_bytes().to_vec() })
}

fn unreachable(cause: &str) -> QueryOutcome {
    Err(cause.to_string())
}

const SERIES: &str = "{\"data\":[{\"time\":\"2024-05-01 12:00:10\",\"co2_ppm\":415.5},{\"time\":\"2024-05-01 12:00:00\",\"co2_ppm\":414}],\"rows\":2}";
const LATEST: &str = "{\"data\":[{\"avg_co2\":415.1}],\"rows\":1}";
const HUMIDITY: &str = " {\"data\": [{\"humidity\": 48.2}], \"rows\": 1}\n";

fn header<'a>(request: &'a StoreRequest, name: &str) -> Vec<&'a str> {
    request
        .headers
        .iter()
        .filter(|line| line.0 == name)
        .map(|line| line.1.as_str())
        .collect()
}

#[test]
fn the_store_listens_on_localhost() {
    assert_eq!(STORE_URL, "http://localhost:8123/");
}

#[test]
fn requests_carry_the_three_queries_in_order() {
    let (first, second, third) = dashboard_requests(&state());
    assert_eq!(first.body, Query::Co2Values.sql());
    assert_eq!(second.body, Query::Co2Latest.sql());
    assert_eq!(third.body, Query::HumLatest.sql());
    assert_eq!(first.url, "http://localhost:8123/");
    assert_eq!(second.url, "http://localhost:8123/");
    assert_eq!(third.url, "http://localhost:8123/");
}

#[test]
fn requests_carry_format_and_credentials() {
    let (first, second, third) = dashboard_requests(&state());
    for request in [&first, &second, &third] {
        assert_eq!(request.headers.len(), 3);
        assert_eq!(header(request, "X-ClickHouse-Format"), vec!["JSON"]);
        assert_eq!(header(request, "X-ClickHouse-User"), vec!["reader"]);
        assert_eq!(header(request, "X-ClickHouse-Key"), vec!["key"]);
    }
}

#[test]
fn a_single_request_is_built_for_its_query() {
    let request = StoreRequest::new(Query::HumLatest, &state());
    assert_eq!(request.body, Query::HumLatest.sql());
    assert_eq!(request.url, STORE_URL);
    assert_eq!(request.headers[0], ("X-ClickHouse-Format".to_string(), "JSON".to_string()));
    assert_eq!(request.headers[1], ("X-ClickHouse-User".to_string(), "reader".to_string()));
    assert_eq!(request.headers[2], ("X-ClickHouse-Key".to_string(), "key".to_string()));
}

#[test]
fn co2_series_is_averaged_per_ten_seconds_over_three_hours_newest_first() {
    let sql = Query::Co2Values.sql();
    assert!(sql.contains("toIntervalMillisecond(10000)"));
    assert!(sql.contains("avg(JSONExtractFloat(SpanAttributes['payload'], 'co2')) as co2_ppm"));
    assert!(sql.contains("SpanName = 'data'"));
    assert!(sql.contains("INTERVAL 3 HOUR"));
    assert!(sql.contains("time DESC"));
}

#[test]
fn latest_co2_is_averaged_over_two_minutes() {
    let sql = Query::Co2Latest.sql();
    assert!(sql.contains("avg(JSONExtractFloat(SpanAttributes['payload'], 'co2')) as avg_co2"));
    assert!(sql.contains("SpanName = 'data'"));
    assert!(sql.contains("INTERVAL 2 MINUTE"));
}

#[test]
fn latest_humidity_is_one_bucket_over_two_hours() {
    let sql = Query::HumLatest.sql();
    assert!(sql.contains("avg(JSONExtractFloat(SpanAttributes['payload'], 'humidity')) as humidity"));
    assert!(sql.contains("SpanAttributes['bucket'] = 'humidity-laundry-room'"));
    assert!(sql.contains("INTERVAL 2 HOUR"));
}

#[test]
fn three_successful_replies_make_a_dashboard() {
    let response = get_dashboard_data(
        &Headers::new(),
        replied(200, SERIES),
        replied(200, LATEST),
        replied(200, HUMIDITY),
    )
    .unwrap();
    assert_eq!(response.co2_values, serde_json::from_str::<Value>(SERIES).unwrap());
    assert_eq!(response.co2_latest, serde_json::from_str::<Value>(LATEST).unwrap());
    assert_eq!(response.hum_latest, serde_json::from_str::<Value>(HUMIDITY).unwrap());
    assert_eq!(response.co2_values["rows"].as_u64(), Some(2));
    assert_eq!(response.co2_latest["data"][0]["avg_co2"].as_f64(), Some(415.1));
    assert_eq!(response.hum_latest["data"][0]["humidity"].as_f64(), Some(48.2));
}

#[test]
fn the_dashboard_does_not_depend_on_request_headers() {
    let mut headers = Headers::new();
    headers.append("emitter".to_string(), b"anything".to_vec());
    let response =
        get_dashboard_data(&headers, replied(204, "1"), replied(299, "[]"), replied(200, "null"))
            .unwrap();
    assert_eq!(response.co2_values, serde_json::from_str::<Value>("1").unwrap());
    assert_eq!(response.co2_latest, serde_json::from_str::<Value>("[]").unwrap());
    assert_eq!(response.hum_latest, Value::Null);
}

#[test]
fn a_refused_query_fails_the_whole_dashboard() {
    for failing in 0..3 {
        let status = |index: usize| if index == failing { 500 } else { 200 };
        let response = get_dashboard_data(
            &Headers::new(),
            replied(status(0), SERIES),
            replied(status(1), LATEST),
            replied(status(2), HUMIDITY),
        );
        let error = response.unwrap_err();
        let expected = [Query::Co2Values, Query::Co2Latest, Query::HumLatest][failing];
        match &error {
            AppError::BackendError(BackendFault::Status { query, status, body }) => {
                assert_eq!(*query, expected);
                assert_eq!(*status, StatusCode(500));
                let sent = [SERIES, LATEST, HUMIDITY][failing];
                assert_eq!(body.as_slice(), sent.as_bytes());
            }
            other => panic!("unexpected error: {:?}", other),
        }
        assert_eq!(error.into_response().status, StatusCode(500));
    }
}

#[test]
fn statuses_outside_200_to_299_are_refusals() {
    for status in [100, 199, 300, 301, 400, 401, 404, 503] {
        let response = get_dashboard_data(
            &Headers::new(),
            replied(200, SERIES),
            replied(status, "Code: 62. DB::Exception: Syntax error"),
            replied(200, HUMIDITY),
        );
        match response {
            Err(AppError::BackendError(BackendFault::Status { query, status: got, body })) => {
                assert_eq!(query, Query::Co2Latest);
                assert_eq!(got, StatusCode(status));
                assert_eq!(body, b"Code: 62. DB::Exception: Syntax error".to_vec());
            }
            other => panic!("unexpected outcome: {:?}", other),
        }
    }
}

#[test]
fn an_unreachable_store_fails_the_whole_dashboard() {
    let response = get_dashboard_data(
        &Headers::new(),
        replied(200, SERIES),
        unreachable("connection refused"),
        replied(200, HUMIDITY),
    );
    let error = response.unwrap_err();
    match &error {
        AppError::BackendUnavailable { query, cause } => {
            assert_eq!(*query, Query::Co2Latest);
            assert_eq!(cause, "connection refused");
        }
        other => panic!("unexpected error: {:?}", other),
    }
    assert_eq!(error.status_code(), StatusCode(500));
}

#[test]
fn unreachable_is_reported_before_refused_and_undecodable() {
    let response = get_dashboard_data(
        &Headers::new(),
        replied(500, "boom"),
        replied(200, "not json"),
        unreachable("timed out"),
    );
    assert!(matches!(
        response,
        Err(AppError::BackendUnavailable { query: Query::HumLatest, .. })
    ));
    let response = get_dashboard_data(
        &Headers::new(),
        replied(200, "not json"),
        replied(200, LATEST),
        replied(502, "bad gateway"),
    );
    assert!(matches!(
        response,
        Err(AppError::BackendError(BackendFault::Status { query: Query::HumLatest, .. }))
    ));
}

#[test]
fn the_first_failure_in_dashboard_order_is_reported() {
    let response = get_dashboard_data(
        &Headers::new(),
        unreachable("first"),
        unreachable("second"),
        unreachable("third"),
    );
    match response {
        Err(AppError::BackendUnavailable { query, cause }) => {
            assert_eq!(query, Query::Co2Values);
            assert_eq!(cause, "first");
        }
        other => panic!("unexpected outcome: {:?}", other),
    }
    let response = get_dashboard_data(
        &Headers::new(),
        replied(200, SERIES),
        replied(404, "a"),
        replied(500, "b"),
    );
    assert!(matches!(
        response,
        Err(AppError::BackendError(BackendFault::Status { query: Query::Co2Latest, .. }))
    ));
}

#[test]
fn an_undecodable_body_fails_the_whole_dashboard() {
    for failing in 0..3 {
        let body = |index: usize, good: &'static str| if index == failing { "{\"data\": [" } else { good };
        let response = get_dashboard_data(
            &Headers::new(),
            replied(200, body(0, SERIES)),
            replied(200, body(1, LATEST)),
            replied(200, body(2, HUMIDITY)),
        );
        let error = response.unwrap_err();
        let expected = [Query::Co2Values, Query::Co2Latest, Query::HumLatest][failing];
        match &error {
            AppError::BackendError(BackendFault::Undecodable { query, .. }) => {
                assert_eq!(*query, expected)
            }
            other => panic!("unexpected error: {:?}", other),
        }
        assert_eq!(error.status_code(), StatusCode(500));
    }
}

#[test]
fn an_empty_body_is_undecodable() {
    let response =
        get_dashboard_data(&Headers::new(), replied(200, ""), replied(200, LATEST), replied(200, HUMIDITY));
    assert!(matches!(
        response,
        Err(AppError::BackendError(BackendFault::Undecodable { query: Query::Co2Values, .. }))
    ));
}

#[test]
fn assemble_joins_three_decoded_answers() {
    let one = serde_json::from_str::<Value>("1");
    let two = serde_json::from_str::<Value>("[2]");
    let three = serde_json::from_str::<Value>("{\"three\":3}");
    let response = assemble(one, two, three).unwrap();
    assert_eq!(response.co2_values.as_u64(), Some(1));
    assert_eq!(response.co2_latest[0].as_u64(), Some(2));
    assert_eq!(response.hum_latest["three"].as_u64(), Some(3));
}

#[test]
fn assemble_short_circuits_on_the_first_failure() {
    let bad = || serde_json::from_str::<Value>("}");
    let good = || serde_json::from_str::<Value>("0");
    assert!(matches!(
        assemble(bad(), bad(), bad()),
        Err(AppError::BackendError(BackendFault::Undecodable { query: Query::Co2Values, .. }))
    ));
    assert!(matches!(
        assemble(good(), bad(), bad()),
        Err(AppError::BackendError(BackendFault::Undecodable { query: Query::Co2Latest, .. }))
    ));
    assert!(matches!(
        assemble(good(), good(), bad()),
        Err(AppError::BackendError(BackendFault::Undecodable { query: Query::HumLatest, .. }))
    ));
}
