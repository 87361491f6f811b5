use fyers::endpoints::profile_response;

const PROFILE_SUCCESS: &str = r#"{
  "s": "ok",
  "code": 200,
  "message": "",
  "data": {
    "name": "XASHXX G H",
    "display_name": null,
    "fy_id": "XA00000",
    "image": null,
    "email_id": "xashxx@example.com",
    "PAN": "ABCDE1234F",
    "pin_change_date": "02-01-2024 10:00:00",
    "pwd_change_date": null,
    "mobile_number": "9999999999",
    "totp": true,
    "pwd_to_expire": 42,
    "ddpi_enabled": false,
    "mtf_enabled": false
  }
}"#;

#[test]
fn profile_success() {
    let profile = profile_response(200, PROFILE_SUCCESS.to_string()).unwrap();

    assert_eq!(profile.name, "XASHXX G H");
    assert!(profile.email_id.contains("@"));
    assert_eq!(profile.pwd_to_expire, 42);
    assert!(!profile.ddpi_enabled);
}

#[test]
fn profile_optional_fields() {
    let profile = profile_response(200, PROFILE_SUCCESS.to_string()).unwrap();
    assert_eq!(profile.display_name, None);
    assert_eq!(profile.image, None);
    assert_eq!(profile.pin_change_date.as_deref(), Some("02-01-2024 10:00:00"));
    assert_eq!(profile.pan, "ABCDE1234F");
    assert!(profile.totp);
}

#[test]
fn profile_pwd_to_expire_out_of_i32_range() {
    let body = PROFILE_SUCCESS.replace("\"pwd_to_expire\": 42", "\"pwd_to_expire\": 4294967296");
    assert!(profile_response(200, body).is_err());
}

#[test]
fn credentials_auth_header() {
    let c = fyers::Credentials::new("TEST_CLIENT_ID", "TEST_ACCESS_TOKEN");
    assert_eq!(c.auth_header(), "TEST_CLIENT_ID:TEST_ACCESS_TOKEN");
}

#[test]
fn base_urls() {
    let b = fyers::BaseUrls::default();
    assert_eq!(b.profile_url(), "https://api-t1.fyers.in/api/v3/profile");
    assert_eq!(b.orders_url(), "https://api-t1.fyers.in/api/v3/orders/sync");
    assert_eq!(b.place_order_url(), "https://api-t1.fyers.in/data/orders/sync");
    assert_eq!(b.positions_url(), "https://api-t1.fyers.in/api/v3/positions");
    assert_eq!(b.history_url(), "https://api-t1.fyers.in/data/history");
    let t = fyers::BaseUrls::new("http://127.0.0.1:1", "http://127.0.0.1:2");
    assert_eq!(t.history_url(), "http://127.0.0.1:2/history");
}
