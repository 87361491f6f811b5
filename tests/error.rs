use fyers::endpoints::profile_response;
use fyers::FyersError;

const RANDOM_ERROR: &str = r#"{"s":"error","code":9999,"message":"This is a random error"}"#;
const INVALID_JSON: &str = r#"{"s":"ok","code":200,"message":"","data":{"name": "#;
const MISSING_FIELD: &str = r#"{"s":"ok","code":200,"message":""}"#;
const INVALID_TOKEN: &str = r#"{"s":"error","code":-15,"message":"Could not authenticate the user"}"#;

#[test]
fn http_status_error() {
    let result = profile_response(403, "Forbidden".to_string());
    match result {
        Err(FyersError::HttpStatus { status, body }) => {
            assert_eq!(status, 403);
            assert_eq!(body, "Forbidden")
        }
        other => panic!("Expected HttpStatus error, got {other:?}"),
    }
}

#[test]
fn api_envelope_error() {
    let result = profile_response(200, RANDOM_ERROR.to_string());
    match result {
        Err(FyersError::Api { code, message }) => {
            assert_eq!(code, 9999);
            assert_eq!(message, "This is a random error".to_string());
        }
        other => panic!("Expected Api error, got {other:?}"),
    }
}

#[test]
fn json_parse_error() {
    let result = profile_response(200, INVALID_JSON.to_string());
    match result {
        Err(FyersError::Json(_)) => {}
        other => panic!("Expected Json error, got {other:?}"),
    }
}

#[test]
fn missing_field_on_success_error() {
    let result = profile_response(200, MISSING_FIELD.to_string());
    match result {
        Err(FyersError::MissingField(_)) => {}
        other => panic!("Expected MissingField error, got {other:?}"),
    }
}

#[test]
fn variant_error() {
    let result = profile_response(200, INVALID_TOKEN.to_string());
    match result {
        Err(FyersError::InvalidToken) => {}
        other => panic!("Expected InvalidToken error, got {other:?}"),
    }
}

#[test]
fn structured_error_wins_over_http_status() {
    let result = profile_response(500, INVALID_TOKEN.to_string());
    assert!(matches!(result, Err(FyersError::InvalidToken)));
}

#[test]
fn non_envelope_json_with_failed_status_is_http_status() {
    let result = profile_response(502, r#"{"detail":"bad gateway"}"#.to_string());
    match result {
        Err(FyersError::HttpStatus { status, body }) => {
            assert_eq!(status, 502);
            assert_eq!(body, r#"{"detail":"bad gateway"}"#);
        }
        other => panic!("Expected HttpStatus error, got {other:?}"),
    }
}

#[test]
fn invalid_json_with_failed_status_is_http_status() {
    let result = profile_response(404, "<html>not found</html>".to_string());
    assert!(matches!(result, Err(FyersError::HttpStatus { status: 404, .. })));
}

#[test]
fn ok_envelope_with_failed_status_is_http_status() {
    let result = profile_response(401, MISSING_FIELD.to_string());
    assert!(matches!(result, Err(FyersError::HttpStatus { status: 401, .. })));
}

#[test]
fn malformed_profile_data_is_decode_error() {
    let body = r#"{"s":"ok","code":200,"message":"","data":{"name":"A"}}"#;
    assert!(matches!(profile_response(200, body.to_string()), Err(FyersError::Json(_))));
}

#[test]
fn error_code_mapping() {
    let m = |c: i32| FyersError::map_api_error(c, "msg".to_string());
    assert!(matches!(m(-8), FyersError::TokenExpired));
    assert!(matches!(m(-15), FyersError::InvalidToken));
    assert!(matches!(m(-16), FyersError::InvalidToken));
    assert!(matches!(m(-17), FyersError::InvalidToken));
    assert!(matches!(m(-14), FyersError::Api { code: -14, .. }));
    assert!(matches!(m(-18), FyersError::Api { code: -18, .. }));
    match m(-50) {
        FyersError::InvalidParams(s) => assert_eq!(s, "msg"),
        other => panic!("unexpected {other:?}"),
    }
    match m(400) {
        FyersError::InvalidParams(s) => assert_eq!(s, "msg"),
        other => panic!("unexpected {other:?}"),
    }
    assert!(matches!(m(-51), FyersError::InvalidOrderId));
    assert!(matches!(m(-53), FyersError::InvalidPositionId));
    match m(-99) {
        FyersError::OrderRejected(s) => assert_eq!(s, "msg"),
        other => panic!("unexpected {other:?}"),
    }
    assert!(matches!(m(-300), FyersError::InvalidSymbol));
    assert!(matches!(m(-352), FyersError::InvalidAppId));
    assert!(matches!(m(-429), FyersError::RateLimited));
    match m(12345) {
        FyersError::Api { code, message } => {
            assert_eq!(code, 12345);
            assert_eq!(message, "msg");
        }
        other => panic!("unexpected {other:?}"),
    }
}
