//! Errors that can occur when interacting with the Fyers API.
use vstd::prelude::*;

verus! {

/// The transport's error type, carried through unchanged.
#[verifier::external_type_specification]
#[verifier::external_body]
pub struct ExTransportError(reqwest::Error);

/// The JSON parser's error type, carried through unchanged.
#[verifier::external_type_specification]
#[verifier::external_body]
pub struct ExJsonError(serde_json::Error);

/// Errors that can occur when sending requests or reading responses.
///
/// Errors fall into three broad categories:
///
/// 1. Transport errors: network failures or non-success HTTP responses.
/// 2. API errors: well-formed responses in which Fyers rejected the request.
/// 3. Client errors: bodies that do not have the expected shape.
///
/// New variants may be added in later releases.
#[derive(Debug)]
#[non_exhaustive]
pub enum FyersError {
    /// The HTTP request could not be sent or its response could not be read.
    Request(reqwest::Error),
    /// The server answered with a non-success HTTP status and no structured
    /// API error; the raw body is kept for diagnostics.
    HttpStatus {
        /// Status code returned by the server.
        status: u16,
        /// The raw response body.
        body: String,
    },
    /// The access token has expired.
    TokenExpired,
    /// The access token is invalid.
    InvalidToken,
    /// One or more request parameters were invalid; the message comes from Fyers.
    InvalidParams(String),
    /// The trading symbol is invalid.
    InvalidSymbol,
    /// The order ID is invalid.
    InvalidOrderId,
    /// The position ID is invalid.
    InvalidPositionId,
    /// The order was rejected; the message holds the reason.
    OrderRejected(String),
    /// The Fyers app ID is invalid.
    InvalidAppId,
    /// API rate limits have been exceeded.
    RateLimited,
    /// Any API error code without a variant of its own.
    Api {
        /// Error code.
        code: i32,
        /// Error message.
        message: String,
    },
    /// The body could not be parsed, or did not have the expected shape.
    Json(serde_json::Error),
    /// A field that the operation requires was missing from a success response.
    MissingField(&'static str),
}

/// The classification of an API error code, with its message.
pub open spec fn api_error(code: i32, message: String) -> FyersError {
    if code == -8 {
        FyersError::TokenExpired
    } else if -17 <= code <= -15 {
        FyersError::InvalidToken
    } else if code == -50 || code == 400 {
        FyersError::InvalidParams(message)
    } else if code == -51 {
        FyersError::InvalidOrderId
    } else if code == -53 {
        FyersError::InvalidPositionId
    } else if code == -99 {
        FyersError::OrderRejected(message)
    } else if code == -300 {
        FyersError::InvalidSymbol
    } else if code == -352 {
        FyersError::InvalidAppId
    } else if code == -429 {
        FyersError::RateLimited
    } else {
        FyersError::Api { code, message }
    }
}

impl FyersError {
    /// Classifies an error code and message of an API envelope.
    pub fn map_api_error(code: i32, message: String) -> (r: FyersError)
        ensures
            r == api_error(code, message),
    {
        match code {
            -8 => FyersError::TokenExpired,
            -17..=-15 => FyersError::InvalidToken,
            -50 | 400 => FyersError::InvalidParams(message),
            -51 => FyersError::InvalidOrderId,
            -53 => FyersError::InvalidPositionId,
            -99 => FyersError::OrderRejected(message),
            -300 => FyersError::InvalidSymbol,
            -352 => FyersError::InvalidAppId,
            -429 => FyersError::RateLimited,
            _ => FyersError::Api { code, message },
        }
    }
}

} // verus!
