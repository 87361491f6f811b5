use fyers::endpoints::{
    cancel_order_body, cancel_pending_orders_body, cancel_response, exit_all_positions_body,
    exit_positions_response,
};
use fyers::wire::WireValue;
use fyers::{ExitPositionResult, FyersError};

const SUCCESS: &str = r#"{"s":"ok","code":200,"message":"All positions are closed"}"#;
const PENDING: &str = r#"{"s":"ok","code":201,"message":"Counter order placed"}"#;
const ORDER_CANCEL_SUCCESS: &str =
    r#"{"s":"ok","code":1103,"message":"Successfully cancelled order","id":"808058117761"}"#;

#[test]
fn exit_all_positions_success() {
    let result = exit_positions_response(200, SUCCESS.to_string()).unwrap();
    assert_eq!(result, ExitPositionResult::Closed);
}

#[test]
fn exit_all_positions_pending() {
    let result = exit_positions_response(200, PENDING.to_string()).unwrap();
    assert_eq!(result, ExitPositionResult::PendingCounterOrder);
}

#[test]
fn exit_all_positions_other_code() {
    let body = r#"{"s":"ok","code":202,"message":"Something else"}"#;
    match exit_positions_response(200, body.to_string()) {
        Err(FyersError::Api { code, message }) => {
            assert_eq!(code, 202);
            assert_eq!(message, "Something else");
        }
        other => panic!("Expected Api error, got {other:?}"),
    }
}

#[test]
fn exit_all_positions_body_fields() {
    assert_eq!(exit_all_positions_body(), vec![("exit_all".to_string(), WireValue::Int(1))]);
}

#[test]
fn cancel_order_success() {
    let order_id = "808058117761";
    assert_eq!(
        cancel_order_body(order_id),
        vec![("id".to_string(), WireValue::Str(order_id.to_string()))]
    );
    let result = cancel_response(200, ORDER_CANCEL_SUCCESS.to_string());
    assert!(result.is_ok());
}

#[test]
fn cancel_pending_orders_success() {
    let position_id = "NSE:SBIN-EQ-INTRADAY";
    assert_eq!(
        cancel_pending_orders_body(position_id),
        vec![
            ("pending_orders_cancel".to_string(), WireValue::Int(1)),
            ("id".to_string(), WireValue::Str(position_id.to_string())),
        ]
    );
    let result = cancel_response(200, SUCCESS.to_string());
    assert!(result.is_ok());
}

#[test]
fn cancel_with_position_error() {
    let body = r#"{"s":"error","code":-53,"message":"Invalid position id"}"#;
    assert!(matches!(cancel_response(200, body.to_string()), Err(FyersError::InvalidPositionId)));
}
