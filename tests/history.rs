use fyers::endpoints::history_response;
use fyers::history::{Candle, RawCandle};
use fyers::json::parse_json;
use fyers::{CandleResolution, FyersError, HistoryRequest};

const HISTORY_SUCCESS: &str = r#"{
  "s": "ok",
  "code": 200,
  "message": "",
  "candles": [
    [1609459200, 274.9, 280, 274.4, 279.4, 24531791],
    [1609545600, 279.5, 283.0, 278.1, 281.2, 30100212],
    [1609804800, 281.0, 286.4, 280.2, 284.6, 35600021],
    [1609891200, 284.7, 287.9, 283.5, 285.05, 40765708]
  ]
}"#;

fn pairs(req: &HistoryRequest) -> Vec<(String, String)> {
    req.query_pairs()
}

#[test]
fn history_success() {
    let from = fyers::ist_datetime(2021, 1, 1, 9, 15);
    let to = fyers::ist_datetime(2021, 1, 6, 3, 30);
    let history_request = HistoryRequest::builder("NSE:SBIN-EQ", from, to)
        .resolution(CandleResolution::Day)
        .build();
    let q = pairs(&history_request);
    assert_eq!(q[0], ("symbol".to_string(), "NSE:SBIN-EQ".to_string()));
    assert_eq!(q[1], ("resolution".to_string(), "D".to_string()));

    let candles = history_response(200, HISTORY_SUCCESS.to_string()).unwrap();

    assert_eq!(candles.len(), 4);

    let first = candles.first().unwrap();

    assert_eq!(first.time, 1609459200);
    assert_eq!(f64::from_bits(first.open), 274.9);
    assert_eq!(f64::from_bits(first.high), 280.0);
    assert_eq!(f64::from_bits(first.low), 274.4);
    assert_eq!(f64::from_bits(first.close), 279.4);
    assert_eq!(first.volume, 24_531_791);

    let last = candles.last().unwrap();

    assert_eq!(last.time, 1609891200);
    assert_eq!(f64::from_bits(last.close), 285.05);
    assert_eq!(last.volume, 40_765_708);

    assert!(candles.windows(2).all(|candle_pair| candle_pair[0].time < candle_pair[1].time));

    assert!(candles.iter().all(|candle| candle.open_interest.is_none()));

    for c in &candles {
        assert!(f64::from_bits(c.high) >= f64::from_bits(c.low));
    }
}

#[test]
fn history_query_parameters() {
    let req = HistoryRequest::builder("NSE:SBIN-EQ", 1609472700, 1609884000).build();
    let expected = vec![
        ("symbol".to_string(), "NSE:SBIN-EQ".to_string()),
        ("resolution".to_string(), "5".to_string()),
        ("date_format".to_string(), "0".to_string()),
        ("range_from".to_string(), "1609472700".to_string()),
        ("range_to".to_string(), "1609884000".to_string()),
        ("cont_flag".to_string(), "1".to_string()),
    ];
    assert_eq!(pairs(&req), expected);
}

#[test]
fn history_open_interest_flag() {
    let without = HistoryRequest::builder("NSE:NIFTY-FUT", 0, 60).include_oi(false).build();
    assert!(pairs(&without).iter().all(|(k, _)| k != "oi_flag"));
    let with = HistoryRequest::builder("NSE:NIFTY-FUT", 0, 60).include_oi(true).build();
    let q = pairs(&with);
    assert_eq!(q.len(), 7);
    assert_eq!(q[6], ("oi_flag".to_string(), "1".to_string()));
}

#[test]
fn history_negative_timestamp_text() {
    let req = HistoryRequest::builder("X", -310435200, 0).build();
    assert_eq!(pairs(&req)[3], ("range_from".to_string(), "-310435200".to_string()));
    assert_eq!(pairs(&req)[4], ("range_to".to_string(), "0".to_string()));
}

#[test]
fn resolution_tokens() {
    let all = [
        (CandleResolution::Day, "D"),
        (CandleResolution::Seconds5, "5S"),
        (CandleResolution::Seconds10, "10S"),
        (CandleResolution::Seconds15, "15S"),
        (CandleResolution::Seconds30, "30S"),
        (CandleResolution::Seconds45, "45S"),
        (CandleResolution::Minute1, "1"),
        (CandleResolution::Minute2, "2"),
        (CandleResolution::Minute3, "3"),
        (CandleResolution::Minute5, "5"),
        (CandleResolution::Minute10, "10"),
        (CandleResolution::Minute15, "15"),
        (CandleResolution::Minute20, "20"),
        (CandleResolution::Minute30, "30"),
        (CandleResolution::Minute60, "60"),
        (CandleResolution::Minute120, "120"),
        (CandleResolution::Minute240, "240"),
    ];
    for (r, t) in all {
        assert_eq!(r.as_str(), t);
    }
}

#[test]
fn ist_datetime_values() {
    assert_eq!(fyers::ist_datetime(2021, 1, 1, 9, 15), 1609472700);
    assert_eq!(fyers::ist_datetime(2021, 1, 6, 3, 30), 1609884000);
    assert_eq!(fyers::ist_datetime(2026, 2, 5, 9, 30), 1770264000);
    assert_eq!(fyers::ist_datetime(2024, 2, 29, 0, 0), 1709145000);
    assert_eq!(fyers::ist_datetime(1960, 3, 1, 5, 30), -310435200);
}

fn candle(text: &str) -> Result<Candle, serde_json::Error> {
    Candle::decode(&parse_json(text).unwrap())
}

#[test]
fn candle_short_array_rejected() {
    assert!(candle("[1609459200, 1, 2, 0.5, 1.5]").is_err());
    assert!(candle("[]").is_err());
}

#[test]
fn candle_long_array_rejected() {
    assert!(candle("[1609459200, 1, 2, 0.5, 1.5, 10, 3, 4]").is_err());
}

#[test]
fn candle_open_interest() {
    let c = candle("[1609459200, 1, 2, 0.5, 1.5, 10]").unwrap();
    assert_eq!(c.open_interest, None);
    let c = candle("[1609459200, 1, 2, 0.5, 1.5, 10, null]").unwrap();
    assert_eq!(c.open_interest, None);
    let c = candle("[1609459200, 1, 2, 0.5, 1.5, 10, 1234.5]").unwrap();
    assert_eq!(c.open_interest, Some(1234.5f64.to_bits()));
    assert_eq!(f64::from_bits(c.low), 0.5);
}

#[test]
fn candle_wrong_element_types() {
    assert!(candle("[1609459200.5, 1, 2, 0.5, 1.5, 10]").is_err());
    assert!(candle("[1609459200, 1, 2, 0.5, 1.5, -10]").is_err());
    assert!(candle("[1609459200, \"1\", 2, 0.5, 1.5, 10]").is_err());
    assert!(candle("{\"t\": 1}").is_err());
}

#[test]
fn candle_timestamp_out_of_range() {
    let raw = RawCandle::decode(&parse_json("[9223372036854775807, 1, 2, 0.5, 1.5, 10]").unwrap()).unwrap();
    assert_eq!(raw.timestamp, i64::MAX);
    assert!(candle("[9223372036854775807, 1, 2, 0.5, 1.5, 10]").is_err());
    assert!(Candle::from_raw(raw, false).is_err());
    assert_eq!(Candle::from_raw(raw, true).unwrap().time, i64::MAX);
}

#[test]
fn history_bad_candle_is_decode_error() {
    let body = r#"{"s":"ok","code":200,"message":"","candles":[[1,2,3]]}"#;
    assert!(matches!(history_response(200, body.to_string()), Err(FyersError::Json(_))));
}

#[test]
fn history_missing_candles_is_decode_error() {
    let body = r#"{"s":"ok","code":200,"message":""}"#;
    assert!(matches!(history_response(200, body.to_string()), Err(FyersError::Json(_))));
}

#[test]
fn parse_json_deep_nesting_fails() {
    let deep = format!("{}{}", "[".repeat(200), "]".repeat(200));
    assert!(parse_json(&deep).is_err());
    let ok = format!("{}{}", "[".repeat(100), "]".repeat(100));
    assert!(parse_json(&ok).is_ok());
}

#[test]
fn candle_timestamp_range_edges() {
    assert!(candle("[8210266876799, 1, 2, 0.5, 1.5, 10]").is_ok());
    assert!(candle("[8210266876800, 1, 2, 0.5, 1.5, 10]").is_err());
    assert!(candle("[-8334601228800, 1, 2, 0.5, 1.5, 10]").is_ok());
    assert!(candle("[-8334601228801, 1, 2, 0.5, 1.5, 10]").is_err());
}
