//! Credentials, base URLs and the reconciliation of a response.
use vstd::prelude::*;
use vstd::string::StringExecFns;
use crate::api_response::{decode_envelope, envelope_of, ApiStatus};
use crate::error::{api_error, FyersError};
use crate::json::{json_parses, json_view, json_view_of, parse_json, JsonValue};

verus! {

/// The identity sent with every authenticated request.
#[derive(Debug, Clone)]
pub struct Credentials {
    pub client_id: String,
    pub access_token: String,
}

impl Credentials {
    /// Bundles a client ID and an access token.
    pub fn new(client_id: &str, access_token: &str) -> (r: Credentials)
        ensures
            r.client_id@ == client_id@,
            r.access_token@ == access_token@,
    {
        Credentials { client_id: String::from_str(client_id), access_token: String::from_str(access_token) }
    }

    /// The value of the `Authorization` header: `"{client_id}:{access_token}"`.
    pub fn auth_header(&self) -> (r: String)
        ensures
            r@ == self.client_id@ + ":"@ + self.access_token@,
    {
        let mut r = self.client_id.clone();
        r.append(":");
        r.append(self.access_token.as_str());
        r
    }
}

/// The two base URLs of the API: accounts and orders, and market data.
#[derive(Debug, Clone)]
pub struct BaseUrls {
    pub api_v3: String,
    pub data: String,
}

/// Joins a base URL and a path.
pub fn join_url(base: &String, path: &str) -> (r: String)
    ensures
        r@ == base@ + path@,
{
    let mut r = base.clone();
    r.append(path);
    r
}

impl Default for BaseUrls {
    /// The production endpoints of Fyers.
    fn default() -> (r: BaseUrls)
        ensures
            r.api_v3@ == "https://api-t1.fyers.in/api/v3"@,
            r.data@ == "https://api-t1.fyers.in/data"@,
    {
        BaseUrls {
            api_v3: String::from_str("https://api-t1.fyers.in/api/v3"),
            data: String::from_str("https://api-t1.fyers.in/data"),
        }
    }
}

impl BaseUrls {
    /// Base URLs of one's choice, such as those of a test server.
    pub fn new(api_v3: &str, data: &str) -> (r: BaseUrls)
        ensures
            r.api_v3@ == api_v3@,
            r.data@ == data@,
    {
        BaseUrls { api_v3: String::from_str(api_v3), data: String::from_str(data) }
    }

    /// The URL of the profile endpoint.
    pub fn profile_url(&self) -> (r: String)
        ensures
            r@ == self.api_v3@ + "/profile"@,
    {
        join_url(&self.api_v3, "/profile")
    }

    /// The URL at which orders are placed, on the market data base.
    pub fn place_order_url(&self) -> (r: String)
        ensures
            r@ == self.data@ + "/orders/sync"@,
    {
        join_url(&self.data, "/orders/sync")
    }

    /// The URL at which orders are cancelled.
    pub fn orders_url(&self) -> (r: String)
        ensures
            r@ == self.api_v3@ + "/orders/sync"@,
    {
        join_url(&self.api_v3, "/orders/sync")
    }

    /// The URL of the positions endpoint.
    pub fn positions_url(&self) -> (r: String)
        ensures
            r@ == self.api_v3@ + "/positions"@,
    {
        join_url(&self.api_v3, "/positions")
    }

    /// The URL of the history endpoint, on the market data base.
    pub fn history_url(&self) -> (r: String)
        ensures
            r@ == self.data@ + "/history"@,
    {
        join_url(&self.data, "/history")
    }
}

/// Whether an HTTP status is a success: 200 to 299.
pub open spec fn is_success_status(status: u16) -> bool {
    200 <= status <= 299
}

/// The structured API error that a parsed body carries, if any: an envelope
/// whose status is `error`.
pub open spec fn structured_error(parsed: Result<JsonValue, serde_json::Error>) -> Option<FyersError> {
    match parsed {
        Ok(v) => match envelope_of(v) {
            Some(e) => if e.s == ApiStatus::Error {
                Some(api_error(e.code, e.message))
            } else {
                None
            },
            None => None,
        },
        Err(_) => None,
    }
}

/// The outcome of a response with HTTP status `status`, text `body` and
/// parse `parsed` of that text. A structured API error comes first, whatever
/// the status; then a non-success status; then the parse of the body.
pub open spec fn reconciled(status: u16, body: String, parsed: Result<JsonValue, serde_json::Error>) -> Result<
    JsonValue,
    FyersError,
> {
    match structured_error(parsed) {
        Some(e) => Err(e),
        None => if !is_success_status(status) {
            Err(FyersError::HttpStatus { status, body })
        } else {
            match parsed {
                Ok(v) => Ok(v),
                Err(e) => Err(FyersError::Json(e)),
            }
        },
    }
}

/// Decides the outcome of a response, given its status, its body and the
/// parse of the body.
pub fn reconcile(status: u16, body: String, parsed: Result<JsonValue, serde_json::Error>) -> (r: Result<
    JsonValue,
    FyersError,
>)
    ensures
        r == reconciled(status, body, parsed),
{
    if let Ok(v) = &parsed {
        if let Ok(e) = decode_envelope(v) {
            if e.s == ApiStatus::Error {
                return Err(FyersError::map_api_error(e.code, e.message));
            }
        }
    }
    if !(200 <= status && status <= 299) {
        return Err(FyersError::HttpStatus { status, body });
    }
    match parsed {
        Ok(v) => Ok(v),
        Err(e) => Err(FyersError::Json(e)),
    }
}

/// The outcome of a response whose text does not parse: a decoding error
/// on a success status, `HttpStatus` with the raw body on any other.
pub open spec fn unparsed_outcome<T>(status: u16, body: String, r: Result<T, FyersError>) -> bool {
    if is_success_status(status) {
        r matches Err(FyersError::Json(_))
    } else {
        r == Err::<T, FyersError>(FyersError::HttpStatus { status, body })
    }
}

/// Checks a response, given its HTTP status and its body, and returns the
/// parsed body when nothing is wrong with it.
pub fn validate_response(status: u16, body: String) -> (r: Result<JsonValue, FyersError>)
    ensures
        json_parses(body@) ==> exists|v: JsonValue|
            #[trigger] json_view(v) == json_view_of(body@).unwrap() && r == reconciled(status, body, Ok(v)),
        !json_parses(body@) ==> unparsed_outcome(status, body, r),
{
    let parsed = parse_json(body.as_str());
    let ghost p = parsed;
    let ghost b = body;
    let r = reconcile(status, body, parsed);
    assert(r == reconciled(status, b, p));
    proof {
        if json_parses(b@) {
            let v = p.unwrap();
            assert(json_view(v) == json_view_of(b@).unwrap());
        }
    }
    r
}

/// A structured API error decides the outcome whatever the HTTP status; a
/// non-success status without one gives `HttpStatus` with the raw body; a
/// success status without one gives the parsed body, or the parse error.
pub proof fn lemma_reconciliation_order(status: u16, body: String, parsed: Result<JsonValue, serde_json::Error>)
    ensures
        structured_error(parsed) matches Some(e) ==> reconciled(status, body, parsed) == Err::<
            JsonValue,
            FyersError,
        >(e),
        structured_error(parsed) is None && !is_success_status(status) ==> reconciled(status, body, parsed)
            == Err::<JsonValue, FyersError>(FyersError::HttpStatus { status, body }),
        structured_error(parsed) is None && is_success_status(status) ==> match parsed {
            Ok(v) => reconciled(status, body, parsed) == Ok::<JsonValue, FyersError>(v),
            Err(e) => reconciled(status, body, parsed) == Err::<JsonValue, FyersError>(FyersError::Json(e)),
        },
{
}

} // verus!
