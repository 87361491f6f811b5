use fyers::endpoints::place_order_response;
use fyers::wire::WireValue;
use fyers::{FyersError, OrderBuilder, OrderRequest, OrderType, ProductType, Side, Validity};

const ORDER_SUCCESS: &str =
    r#"{"s":"ok","code":1101,"message":"Order submitted successfully","id":"808058117761"}"#;

fn field<'a>(fields: &'a [(String, WireValue)], key: &str) -> &'a WireValue {
    &fields.iter().find(|(k, _)| k == key).unwrap().1
}

#[test]
fn place_order_success() {
    let order = OrderRequest::builder(
        "NSE:SBIN-EQ",
        1,
        OrderType::Market,
        Side::Buy,
        ProductType::Intraday,
        Validity::Day,
    )
    .build();
    let fields = order.wire_fields();
    assert_eq!(field(&fields, "symbol"), &WireValue::Str("NSE:SBIN-EQ".to_string()));

    let response = place_order_response(200, ORDER_SUCCESS.to_string()).unwrap();

    assert_eq!(response.id, "808058117761");
}

#[test]
fn place_order_missing_id_is_decode_error() {
    let body = r#"{"s":"ok","code":1101,"message":"Order submitted successfully"}"#;
    assert!(matches!(place_order_response(200, body.to_string()), Err(FyersError::Json(_))));
}

#[test]
fn place_order_rejected() {
    let body = r#"{"s":"error","code":-99,"message":"Insufficient funds"}"#;
    match place_order_response(200, body.to_string()) {
        Err(FyersError::OrderRejected(m)) => assert_eq!(m, "Insufficient funds"),
        other => panic!("Expected OrderRejected, got {other:?}"),
    }
}

#[test]
fn offline_order_wire_fields() {
    let order = OrderRequest::builder(
        "NSE:JIOFIN-EQ",
        1,
        OrderType::Market,
        Side::Buy,
        ProductType::Intraday,
        Validity::Day,
    )
    .offline_order(true)
    .build();
    let zero = 0.0f64.to_bits();
    let expected = vec![
        ("symbol".to_string(), WireValue::Str("NSE:JIOFIN-EQ".to_string())),
        ("qty".to_string(), WireValue::Int(1)),
        ("type".to_string(), WireValue::Int(2)),
        ("side".to_string(), WireValue::Int(1)),
        ("productType".to_string(), WireValue::Str("INTRADAY".to_string())),
        ("limitPrice".to_string(), WireValue::Float(zero)),
        ("stopPrice".to_string(), WireValue::Float(zero)),
        ("disclosedQty".to_string(), WireValue::Int(0)),
        ("validity".to_string(), WireValue::Str("DAY".to_string())),
        ("offlineOrder".to_string(), WireValue::Bool(true)),
        ("stopLoss".to_string(), WireValue::Float(zero)),
        ("takeProfit".to_string(), WireValue::Float(zero)),
        ("orderTag".to_string(), WireValue::Null),
        ("isSliceOrder".to_string(), WireValue::Bool(false)),
    ];
    assert_eq!(order.wire_fields(), expected);
}

#[test]
fn enum_wire_encodings() {
    assert_eq!(OrderType::Limit.code(), 1);
    assert_eq!(OrderType::Market.code(), 2);
    assert_eq!(OrderType::Stop.code(), 3);
    assert_eq!(OrderType::StopLimit.code(), 4);
    assert_eq!(Side::Buy.code(), 1);
    assert_eq!(Side::Sell.code(), -1);
    assert_eq!(ProductType::Cnc.as_str(), "CNC");
    assert_eq!(ProductType::Intraday.as_str(), "INTRADAY");
    assert_eq!(ProductType::Margin.as_str(), "MARGIN");
    assert_eq!(ProductType::Co.as_str(), "CO");
    assert_eq!(ProductType::Bo.as_str(), "BO");
    assert_eq!(ProductType::Mtf.as_str(), "MTF");
    assert_eq!(Validity::Ioc.as_str(), "IOC");
    assert_eq!(Validity::Day.as_str(), "DAY");
}

#[test]
fn builder_setters() {
    let order = OrderBuilder::new(
        "NSE:SBIN-EQ",
        10,
        OrderType::StopLimit,
        Side::Sell,
        ProductType::Bo,
        Validity::Ioc,
    )
    .limit_price(274.5f64.to_bits())
    .stop_price(275.0f64.to_bits())
    .disclosed_qty(5)
    .stop_loss(2.5f64.to_bits())
    .take_profit(5.0f64.to_bits())
    .order_tag("testing")
    .slice_order(true)
    .build();
    let fields = order.wire_fields();
    assert_eq!(fields.len(), 14);
    assert_eq!(field(&fields, "type"), &WireValue::Int(4));
    assert_eq!(field(&fields, "side"), &WireValue::Int(-1));
    assert_eq!(field(&fields, "productType"), &WireValue::Str("BO".to_string()));
    assert_eq!(field(&fields, "validity"), &WireValue::Str("IOC".to_string()));
    assert_eq!(field(&fields, "limitPrice"), &WireValue::Float(274.5f64.to_bits()));
    assert_eq!(field(&fields, "stopPrice"), &WireValue::Float(275.0f64.to_bits()));
    assert_eq!(field(&fields, "disclosedQty"), &WireValue::Int(5));
    assert_eq!(field(&fields, "stopLoss"), &WireValue::Float(2.5f64.to_bits()));
    assert_eq!(field(&fields, "takeProfit"), &WireValue::Float(5.0f64.to_bits()));
    assert_eq!(field(&fields, "orderTag"), &WireValue::Str("testing".to_string()));
    assert_eq!(field(&fields, "isSliceOrder"), &WireValue::Bool(true));
    assert_eq!(field(&fields, "qty"), &WireValue::Int(10));
}
