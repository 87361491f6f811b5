//! What each endpoint sends, and how each reads a checked response.
use vstd::prelude::*;
use crate::api_response::{decode_envelope, envelope_of, ApiResponse};
use crate::client::{reconciled, unparsed_outcome, validate_response};
use crate::error::FyersError;
use crate::history::{all_candles, candle_array_of, decode_candles, decodes_to, Candle};
use crate::json::{field, get_field, json_parses, json_view, json_view_of, JsonValue};
use crate::orders::{order_of, Order};
use crate::profile::{profile_of, Profile};
use crate::wire::{fields_view, named, text, WireValue, WireView};

verus! {

/// Result of exiting positions.
#[derive(Debug, Clone, Copy, PartialEq, Eq, Structural)]
pub enum ExitPositionResult {
    /// The positions were closed; API code `200`.
    Closed,
    /// A counter order was placed but is not filled yet; API code `201`.
    PendingCounterOrder,
}

/// Whether `r` is a decoding failure.
pub open spec fn is_decode_error<T>(r: Result<T, FyersError>) -> bool {
    r matches Err(FyersError::Json(_))
}

/// `r` is what the checked body `v` of a profile response gives: the
/// profile in its `data` member, `MissingField` when there is no such member.
pub open spec fn profile_decoded(v: JsonValue, r: Result<Profile, FyersError>) -> bool {
    match field(v, "data"@) {
        None => r matches Err(FyersError::MissingField(f)) && f@ == "data"@,
        Some(d) => match profile_of(d) {
            Some(p) => r is Ok && r.unwrap() == p,
            None => is_decode_error(r),
        },
    }
}

/// `r` is what the checked body `v` of an order placement gives.
pub open spec fn order_decoded(v: JsonValue, r: Result<Order, FyersError>) -> bool {
    match order_of(v) {
        Some(o) => r is Ok && r.unwrap() == o,
        None => is_decode_error(r),
    }
}

/// `r` is what the checked body `v` of a history response gives.
pub open spec fn candles_decoded(v: JsonValue, r: Result<Vec<Candle>, FyersError>) -> bool {
    match candle_array_of(v) {
        Some(items) => if all_candles(items) {
            r is Ok && decodes_to(items, r.unwrap()@)
        } else {
            is_decode_error(r)
        },
        None => is_decode_error(r),
    }
}

/// The result that an envelope of an exit of positions stands for: only the
/// codes `200` and `201` are successes.
pub open spec fn exit_result_of(e: ApiResponse) -> Result<ExitPositionResult, FyersError> {
    if e.code == 200 {
        Ok(ExitPositionResult::Closed)
    } else if e.code == 201 {
        Ok(ExitPositionResult::PendingCounterOrder)
    } else {
        Err(FyersError::Api { code: e.code, message: e.message })
    }
}

/// `r` is what the checked body `v` of an exit of positions gives.
pub open spec fn exit_decoded(v: JsonValue, r: Result<ExitPositionResult, FyersError>) -> bool {
    match envelope_of(v) {
        Some(e) => r == exit_result_of(e),
        None => is_decode_error(r),
    }
}

/// `r` is what the checked body of an operation that returns nothing gives.
pub open spec fn unit_decoded(v: JsonValue, r: Result<(), FyersError>) -> bool {
    r is Ok
}

/// `r` follows from a response of status `status` and text `body` that
/// parsed as `v`: the error that reconciliation finds, or else what
/// `decoded` says of the checked body.
pub open spec fn follows<T>(
    status: u16,
    body: String,
    v: JsonValue,
    r: Result<T, FyersError>,
    decoded: spec_fn(JsonValue, Result<T, FyersError>) -> bool,
) -> bool {
    match reconciled(status, body, Ok(v)) {
        Err(e) => r == Err::<T, FyersError>(e),
        Ok(w) => decoded(w, r),
    }
}

/// Reads the profile out of a checked profile response.
pub fn profile_from_body(v: &JsonValue) -> (r: Result<Profile, FyersError>)
    ensures
        profile_decoded(*v, r),
{
    match get_field(v, "data") {
        None => Err(FyersError::MissingField("data")),
        Some(d) => match Profile::decode(d) {
            Ok(p) => Ok(p),
            Err(e) => Err(FyersError::Json(e)),
        },
    }
}

/// Reads the placed order out of a checked response.
pub fn order_from_body(v: &JsonValue) -> (r: Result<Order, FyersError>)
    ensures
        order_decoded(*v, r),
{
    match Order::decode(v) {
        Ok(o) => Ok(o),
        Err(e) => Err(FyersError::Json(e)),
    }
}

/// Reads the candles out of a checked history response.
pub fn candles_from_body(v: &JsonValue) -> (r: Result<Vec<Candle>, FyersError>)
    ensures
        candles_decoded(*v, r),
{
    match decode_candles(v) {
        Ok(c) => Ok(c),
        Err(e) => Err(FyersError::Json(e)),
    }
}

/// The result of an exit of positions, from its envelope.
pub fn exit_result_from_envelope(e: ApiResponse) -> (r: Result<ExitPositionResult, FyersError>)
    ensures
        r == exit_result_of(e),
{
    match e.code {
        200 => Ok(ExitPositionResult::Closed),
        201 => Ok(ExitPositionResult::PendingCounterOrder),
        code => Err(FyersError::Api { code, message: e.message }),
    }
}

/// Reads the result out of a checked response to an exit of positions.
pub fn exit_result_from_body(v: &JsonValue) -> (r: Result<ExitPositionResult, FyersError>)
    ensures
        exit_decoded(*v, r),
{
    match decode_envelope(v) {
        Ok(e) => exit_result_from_envelope(e),
        Err(e) => Err(FyersError::Json(e)),
    }
}

/// Checks a profile response and reads the profile out of it.
pub fn profile_response(status: u16, body: String) -> (r: Result<Profile, FyersError>)
    ensures
        json_parses(body@) ==> exists|v: JsonValue|
            #[trigger] json_view(v) == json_view_of(body@).unwrap() && follows(
                status,
                body,
                v,
                r,
                |w: JsonValue, r: Result<Profile, FyersError>| profile_decoded(w, r),
            ),
        !json_parses(body@) ==> unparsed_outcome(status, body, r),
{
    let ghost b = body;
    let checked = validate_response(status, body);
    let ghost c = checked;
    let r = match checked {
        Ok(v) => profile_from_body(&v),
        Err(e) => Err(e),
    };
    proof {
        if json_parses(b@) {
            let v = choose|v: JsonValue| #[trigger] json_view(v) == json_view_of(b@).unwrap() && c == reconciled(status, b, Ok(v));
            assert(follows(status, b, v, r, |w: JsonValue, r: Result<Profile, FyersError>| profile_decoded(w, r)));
        }
    }
    r
}

/// Checks the response to an order placement and reads the order out of it.
pub fn place_order_response(status: u16, body: String) -> (r: Result<Order, FyersError>)
    ensures
        json_parses(body@) ==> exists|v: JsonValue|
            #[trigger] json_view(v) == json_view_of(body@).unwrap() && follows(
                status,
                body,
                v,
                r,
                |w: JsonValue, r: Result<Order, FyersError>| order_decoded(w, r),
            ),
        !json_parses(body@) ==> unparsed_outcome(status, body, r),
{
    let ghost b = body;
    let checked = validate_response(status, body);
    let ghost c = checked;
    let r = match checked {
        Ok(v) => order_from_body(&v),
        Err(e) => Err(e),
    };
    proof {
        if json_parses(b@) {
            let v = choose|v: JsonValue| #[trigger] json_view(v) == json_view_of(b@).unwrap() && c == reconciled(status, b, Ok(v));
            assert(follows(status, b, v, r, |w: JsonValue, r: Result<Order, FyersError>| order_decoded(w, r)));
        }
    }
    r
}

/// Checks a history response and reads its candles out of it.
pub fn history_response(status: u16, body: String) -> (r: Result<Vec<Candle>, FyersError>)
    ensures
        json_parses(body@) ==> exists|v: JsonValue|
            #[trigger] json_view(v) == json_view_of(body@).unwrap() && follows(
                status,
                body,
                v,
                r,
                |w: JsonValue, r: Result<Vec<Candle>, FyersError>| candles_decoded(w, r),
            ),
        !json_parses(body@) ==> unparsed_outcome(status, body, r),
{
    let ghost b = body;
    let checked = validate_response(status, body);
    let ghost c = checked;
    let r = match checked {
        Ok(v) => candles_from_body(&v),
        Err(e) => Err(e),
    };
    proof {
        if json_parses(b@) {
            let v = choose|v: JsonValue| #[trigger] json_view(v) == json_view_of(b@).unwrap() && c == reconciled(status, b, Ok(v));
            assert(follows(status, b, v, r, |w: JsonValue, r: Result<Vec<Candle>, FyersError>| candles_decoded(w, r)));
        }
    }
    r
}

/// Checks the response to an exit of positions and reads its result.
pub fn exit_positions_response(status: u16, body: String) -> (r: Result<ExitPositionResult, FyersError>)
    ensures
        json_parses(body@) ==> exists|v: JsonValue|
            #[trigger] json_view(v) == json_view_of(body@).unwrap() && follows(
                status,
                body,
                v,
                r,
                |w: JsonValue, r: Result<ExitPositionResult, FyersError>| exit_decoded(w, r),
            ),
        !json_parses(body@) ==> unparsed_outcome(status, body, r),
{
    let ghost b = body;
    let checked = validate_response(status, body);
    let ghost c = checked;
    let r = match checked {
        Ok(v) => exit_result_from_body(&v),
        Err(e) => Err(e),
    };
    proof {
        if json_parses(b@) {
            let v = choose|v: JsonValue| #[trigger] json_view(v) == json_view_of(b@).unwrap() && c == reconciled(status, b, Ok(v));
            assert(follows(status, b, v, r, |w: JsonValue, r: Result<ExitPositionResult, FyersError>| exit_decoded(w, r)));
        }
    }
    r
}

/// Checks the response to a cancellation, which carries nothing else.
pub fn cancel_response(status: u16, body: String) -> (r: Result<(), FyersError>)
    ensures
        json_parses(body@) ==> exists|v: JsonValue|
            #[trigger] json_view(v) == json_view_of(body@).unwrap() && follows(
                status,
                body,
                v,
                r,
                |w: JsonValue, r: Result<(), FyersError>| unit_decoded(w, r),
            ),
        !json_parses(body@) ==> unparsed_outcome(status, body, r),
{
    let ghost b = body;
    let checked = validate_response(status, body);
    let ghost c = checked;
    let r = match checked {
        Ok(v) => Ok(()),
        Err(e) => Err(e),
    };
    proof {
        if json_parses(b@) {
            let v = choose|v: JsonValue| #[trigger] json_view(v) == json_view_of(b@).unwrap() && c == reconciled(status, b, Ok(v));
            assert(follows(status, b, v, r, |w: JsonValue, r: Result<(), FyersError>| unit_decoded(w, r)));
        }
    }
    r
}

/// The body that cancels the order `order_id`: `{"id": order_id}`.
pub fn cancel_order_body(order_id: &str) -> (r: Vec<(String, WireValue)>)
    ensures
        fields_view(r@) == seq![("id"@, WireView::Str(order_id@))],
{
    let r = vec![named("id", text(order_id))];
    assert(fields_view(r@) =~= seq![("id"@, WireView::Str(order_id@))]);
    r
}

/// The body that cancels the pending orders of the position `position_id`:
/// `{"pending_orders_cancel": 1, "id": position_id}`.
pub fn cancel_pending_orders_body(position_id: &str) -> (r: Vec<(String, WireValue)>)
    ensures
        fields_view(r@) == seq![
            ("pending_orders_cancel"@, WireView::Int(1)),
            ("id"@, WireView::Str(position_id@)),
        ],
{
    let r = vec![named("pending_orders_cancel", WireValue::Int(1)), named("id", text(position_id))];
    assert(fields_view(r@) =~= seq![
        ("pending_orders_cancel"@, WireView::Int(1)),
        ("id"@, WireView::Str(position_id@)),
    ]);
    r
}

/// The body that exits all positions: `{"exit_all": 1}`.
pub fn exit_all_positions_body() -> (r: Vec<(String, WireValue)>)
    ensures
        fields_view(r@) == seq![("exit_all"@, WireView::Int(1))],
{
    let r = vec![named("exit_all", WireValue::Int(1))];
    assert(fields_view(r@) =~= seq![("exit_all"@, WireView::Int(1))]);
    r
}

/// Exiting positions succeeds on the codes `200` (closed) and `201` (a
/// counter order is pending) alone; any other code is an `Api` error that
/// keeps the code and the message.
pub proof fn lemma_exit_codes(e: ApiResponse)
    ensures
        e.code == 200 ==> exit_result_of(e) == Ok::<ExitPositionResult, FyersError>(
            ExitPositionResult::Closed,
        ),
        e.code == 201 ==> exit_result_of(e) == Ok::<ExitPositionResult, FyersError>(
            ExitPositionResult::PendingCounterOrder,
        ),
        e.code != 200 && e.code != 201 ==> exit_result_of(e) == Err::<ExitPositionResult, FyersError>(
            FyersError::Api { code: e.code, message: e.message },
        ),
{
}

} // verus!
