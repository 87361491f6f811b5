use fyers::auth::{
    login_url, compute_app_id_hash, exchange_code_request, generate_url, generated_tokens, get_query_param,
    refreshed_tokens, AuthError, GenerateTokenRequest, RefreshTokenRequest,
};
use fyers::wire::WireValue;

#[test]
fn app_id_hash_known_value() {
    assert_eq!(
        compute_app_id_hash("a", "b"),
        "6783a31eabf68ccc0660f935c0826282bdd2241f3a80a9f2d10d59aea9ebb5d8"
    );
    assert_eq!(
        compute_app_id_hash("TEST_CLIENT_ID", "SECRET-KEY"),
        "fd9818f9f47803125deed825c75c453560234d99a91bdd278f8d198aa3d9fe80"
    );
}

#[test]
fn query_param_first_match() {
    let pairs = vec![
        ("s".to_string(), "ok".to_string()),
        ("auth_code".to_string(), "XYZ".to_string()),
        ("auth_code".to_string(), "second".to_string()),
    ];
    assert_eq!(get_query_param(&pairs, "auth_code"), Some("XYZ".to_string()));
    assert_eq!(get_query_param(&pairs, "state"), None);
}

#[test]
fn exchange_code_from_redirect() {
    let req = exchange_code_request(
        "a",
        "b",
        "https://example.com/?s=ok&code=200&auth_code=XYZ%20Z",
    )
    .unwrap();
    assert_eq!(req.code, "XYZ Z");
    assert_eq!(req.grant_type, "authorization_code");
    assert_eq!(req.app_id_hash, compute_app_id_hash("a", "b"));
}

#[test]
fn exchange_code_missing() {
    let r = exchange_code_request("a", "b", "https://example.com/?s=ok&code=200");
    assert!(matches!(r, Err(AuthError::MissingAuthCode)));
}

#[test]
fn exchange_code_invalid_url() {
    let r = exchange_code_request("a", "b", "not a url");
    assert!(matches!(r, Err(AuthError::InvalidUrl(_))));
}

#[test]
fn login_url_text() {
    let url = generate_url("CLIENT-100", "https://example.com/cb", "yourrandomstate").unwrap();
    assert_eq!(
        url.as_str(),
        "https://api-t1.fyers.in/api/v3/generate-authcode?client_id=CLIENT-100&redirect_uri=https%3A%2F%2Fexample.com%2Fcb&state=yourrandomstate"
    );
}

#[test]
fn token_request_bodies() {
    let g = GenerateTokenRequest::new("hash", "code1");
    assert_eq!(
        g.wire_fields(),
        vec![
            ("grant_type".to_string(), WireValue::Str("authorization_code".to_string())),
            ("appIdHash".to_string(), WireValue::Str("hash".to_string())),
            ("code".to_string(), WireValue::Str("code1".to_string())),
        ]
    );
    let r = RefreshTokenRequest::new("hash", "rt", "1234");
    assert_eq!(
        r.wire_fields(),
        vec![
            ("grant_type".to_string(), WireValue::Str("refresh_token".to_string())),
            ("appIdHash".to_string(), WireValue::Str("hash".to_string())),
            ("refresh_token".to_string(), WireValue::Str("rt".to_string())),
            ("pin".to_string(), WireValue::Str("1234".to_string())),
        ]
    );
}

#[test]
fn generated_tokens_outcomes() {
    let ok = r#"{"s":"ok","code":200,"message":"","access_token":"AT","refresh_token":"RT"}"#;
    let t = generated_tokens(ok).unwrap();
    assert_eq!(t.access_token, "AT");
    assert_eq!(t.refresh_token, "RT");

    let no_refresh = r#"{"s":"ok","code":200,"message":"","access_token":"AT"}"#;
    match generated_tokens(no_refresh) {
        Err(AuthError::Api { code, message }) => {
            assert_eq!(code, 200);
            assert_eq!(message, "missing refresh_token in success response");
        }
        other => panic!("unexpected {other:?}"),
    }

    let no_access = r#"{"s":"ok","code":200,"message":"","refresh_token":"RT"}"#;
    match generated_tokens(no_access) {
        Err(AuthError::Api { message, .. }) => {
            assert_eq!(message, "missing access_token in success response")
        }
        other => panic!("unexpected {other:?}"),
    }

    let err = r#"{"s":"error","code":-413,"message":"invalid auth code"}"#;
    match generated_tokens(err) {
        Err(AuthError::Api { code, message }) => {
            assert_eq!(code, -413);
            assert_eq!(message, "invalid auth code");
        }
        other => panic!("unexpected {other:?}"),
    }

    assert!(matches!(generated_tokens("nope"), Err(AuthError::Json(_))));
}

#[test]
fn refreshed_tokens_outcomes() {
    let ok = r#"{"s":"ok","code":200,"message":"","access_token":"AT2"}"#;
    let t = refreshed_tokens(ok, "OLD").unwrap();
    assert_eq!(t.access_token, "AT2");
    assert_eq!(t.refresh_token, "OLD");

    let both = r#"{"s":"ok","code":200,"message":"","access_token":"AT2","refresh_token":"NEW"}"#;
    assert_eq!(refreshed_tokens(both, "OLD").unwrap().refresh_token, "NEW");

    let none = r#"{"s":"ok","code":200,"message":""}"#;
    match refreshed_tokens(none, "OLD") {
        Err(AuthError::Api { message, .. }) => {
            assert_eq!(message, "missing access_token in refresh response")
        }
        other => panic!("unexpected {other:?}"),
    }
}

#[test]
fn login_url_query_pairs() {
    let (url, pairs) = login_url("CLIENT-100", "https://example.com/cb?x=1&y=2", "st ate");
    assert_eq!(
        pairs,
        vec![
            ("client_id".to_string(), "CLIENT-100".to_string()),
            ("redirect_uri".to_string(), "https://example.com/cb?x=1&y=2".to_string()),
            ("state".to_string(), "st ate".to_string()),
        ]
    );
    let decoded: Vec<(String, String)> =
        url.query_pairs().map(|(k, v)| (k.into_owned(), v.into_owned())).collect();
    assert_eq!(decoded, pairs);
    assert!(url.as_str().starts_with("https://api-t1.fyers.in/api/v3/generate-authcode?"));
}

#[test]
fn generate_url_never_fails() {
    assert!(generate_url("", "", "").is_ok());
}
