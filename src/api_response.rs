//! The envelope that wraps every response of the API.
use vstd::prelude::*;
use crate::json::{field, i32_of, read_i32, read_string, required, str_equals, string_of, JsonValue};

verus! {

/// The status discriminator of an envelope: `"ok"` (`Success`) or `"error"`.
#[derive(Debug, Clone, Copy, PartialEq, Eq, Structural)]
pub enum ApiStatus {
    Success,
    Error,
}

/// The part of an envelope that every response carries.
#[derive(Debug, Clone)]
pub struct ApiResponse {
    pub s: ApiStatus,
    pub code: i32,
    pub message: String,
}

/// The status that the text `s` names, if any.
pub open spec fn status_of(s: Seq<char>) -> Option<ApiStatus> {
    if s == "ok"@ {
        Some(ApiStatus::Success)
    } else if s == "error"@ {
        Some(ApiStatus::Error)
    } else {
        None
    }
}

/// `v` read as an envelope: an object whose member `s` names a status, whose
/// `code` is an `i32` and whose `message` is a string.
pub open spec fn envelope_of(v: JsonValue) -> Option<ApiResponse> {
    match (field(v, "s"@), field(v, "code"@), field(v, "message"@)) {
        (Some(s), Some(code), Some(message)) => match (string_of(s), i32_of(code), string_of(message)) {
            (Some(s), Some(code), Some(message)) => match status_of(s@) {
                Some(status) => Some(ApiResponse { s: status, code, message }),
                None => None,
            },
            _ => None,
        },
        _ => None,
    }
}

/// Reads a status discriminator.
pub fn read_status(v: &JsonValue) -> (r: Result<ApiStatus, serde_json::Error>)
    ensures
        match string_of(*v) {
            Some(s) => match status_of(s@) {
                Some(st) => r == Ok::<ApiStatus, serde_json::Error>(st),
                None => r is Err,
            },
            None => r is Err,
        },
{
    let s = read_string(v)?;
    if str_equals(&s, "ok") {
        Ok(ApiStatus::Success)
    } else if str_equals(&s, "error") {
        Ok(ApiStatus::Error)
    } else {
        Err(crate::json::shape_error("unknown variant: expected `ok` or `error`"))
    }
}

/// Reads the envelope of a response.
pub fn decode_envelope(v: &JsonValue) -> (r: Result<ApiResponse, serde_json::Error>)
    ensures
        match envelope_of(*v) {
            Some(e) => r is Ok && r.unwrap() == e,
            None => r is Err,
        },
{
    let s = read_status(required(v, "s")?)?;
    let code = read_i32(required(v, "code")?)?;
    let message = read_string(required(v, "message")?)?;
    Ok(ApiResponse { s, code, message })
}

} // verus!
