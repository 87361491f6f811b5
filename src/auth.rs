//! Authentication: the login URL, the application hash, and the exchange of
//! an authorization code or a refresh token for tokens.
//!
//! The flow is:
//!
//! 1. Open the URL of [`generate_url`] in a browser and log in.
//! 2. Exchange the code of the redirect URL for tokens ([`exchange_code_request`],
//!    then [`generated_tokens`] on the broker's answer).
//! 3. Later, exchange the refresh token for a new access token
//!    ([`RefreshTokenRequest`], then [`refreshed_tokens`]).
use vstd::prelude::*;
use vstd::string::StringExecFns;
use vstd::utf8::encode_utf8;
use sha2::Digest;
use crate::api_response::{decode_envelope, envelope_of, ApiStatus};
use crate::history::pairs_view;
use crate::json::{
    field, json_view, json_view_of, optional_string_of, parse_json, read_optional_string, JsonValue,
};
use crate::wire::{fields_view, named, text, WireValue, WireView};

verus! {

/// A parsed URL, handed to the caller as it is.
#[verifier::external_type_specification]
#[verifier::external_body]
pub struct ExUrl(url::Url);

/// The URL parser's error type, carried through unchanged.
#[verifier::external_type_specification]
#[verifier::external_body]
pub struct ExUrlParseError(url::ParseError);

/// Errors that can occur during authentication.
#[derive(Debug)]
pub enum AuthError {
    /// The URL could not be parsed.
    InvalidUrl(url::ParseError),
    /// The redirect URL has no `auth_code` query parameter.
    MissingAuthCode,
    /// The HTTP exchange failed.
    Http(reqwest::Error),
    /// The answer was not a well-formed token response.
    Json(serde_json::Error),
    /// Fyers refused the exchange, or its answer lacked a token.
    Api {
        /// Code associated with the error.
        code: i32,
        /// Message associated with the error.
        message: String,
    },
}

/// Tokens obtained after successful authentication.
#[derive(Debug, Clone)]
pub struct Tokens {
    /// The access token.
    pub access_token: String,
    /// The refresh token, usually valid for 15 days.
    pub refresh_token: String,
}

/// The SHA-256 digest of `data`.
pub uninterp spec fn sha256_of(data: Seq<u8>) -> Seq<u8>;

/// Whether `text` parses as an absolute URL.
pub uninterp spec fn url_parses(text: Seq<char>) -> bool;

/// The decoded query pairs of the URL `text`, in order.
pub uninterp spec fn url_query(text: Seq<char>) -> Seq<(Seq<char>, Seq<char>)>;

/// The lowercase hexadecimal digit of `n`, below 16.
pub open spec fn hex_digit(n: int) -> char {
    if n < 10 {
        (('0' as int) + n) as char
    } else {
        (('a' as int) + n - 10) as char
    }
}

/// Two lowercase hexadecimal digits per byte, high digit first.
pub open spec fn hex_of(bytes: Seq<u8>) -> Seq<char>
    decreases bytes.len(),
{
    if bytes.len() == 0 {
        seq![]
    } else {
        let b = bytes.last() as int;
        hex_of(bytes.drop_last()) + seq![hex_digit(b / 16), hex_digit(b % 16)]
    }
}

/// Relies on `sha2::Sha256::digest`: the SHA-256 digest, 32 bytes long.
#[verifier::external_body]
fn sha256(data: &[u8]) -> (r: Vec<u8>)
    ensures
        r@ == sha256_of(data@),
        r@.len() == 32,
{
    sha2::Sha256::digest(data).to_vec()
}

/// Relies on `hex::encode`: two lowercase digits per byte.
#[verifier::external_body]
fn hex_encode(bytes: &[u8]) -> (r: String)
    ensures
        r@ == hex_of(bytes@),
{
    hex::encode(bytes)
}

/// Relies on `url::Url::parse`, which accepts an absolute URL; on
/// `Url::query_pairs_mut().append_pair`, which adds each of `appended` to
/// its query; and on `Url::query_pairs`, which gives the decoded query
/// pairs of the result in order. The login URL is an absolute URL without a
/// query.
#[verifier::external_body]
fn parse_url(text: &str, appended: &Vec<(String, String)>) -> (r: Result<
    (url::Url, Vec<(String, String)>),
    url::ParseError,
>)
    ensures
        r is Ok <==> url_parses(text@),
        r is Ok ==> pairs_view(r.unwrap().1@) == url_query(text@) + pairs_view(appended@),
        text@ == LOGIN_URL@ ==> r is Ok && pairs_view(r.unwrap().1@) == pairs_view(appended@),
{
    let mut url = url::Url::parse(text)?;
    for (k, v) in appended {
        url.query_pairs_mut().append_pair(k, v);
    }
    let pairs = url.query_pairs().map(|(k, v)| (k.into_owned(), v.into_owned())).collect();
    Ok((url, pairs))
}

/// The application hash: the lowercase hex SHA-256 digest of
/// `"{app_id}:{app_secret}"`, which stands in for the secret.
pub fn compute_app_id_hash(app_id: &str, app_secret: &str) -> (r: String)
    ensures
        r@ == hex_of(sha256_of(encode_utf8(app_id@ + ":"@ + app_secret@))),
{
    let mut input = String::from_str(app_id);
    input.append(":");
    input.append(app_secret);
    let digest = sha256(input.as_str().as_bytes());
    hex_encode(digest.as_slice())
}

/// The value of the first pair named `key`.
pub open spec fn first_value(pairs: Seq<(Seq<char>, Seq<char>)>, key: Seq<char>) -> Option<Seq<char>>
    decreases pairs.len(),
{
    if pairs.len() == 0 {
        None
    } else if pairs[0].0 == key {
        Some(pairs[0].1)
    } else {
        first_value(pairs.drop_first(), key)
    }
}

/// The value of the first query pair named `key`.
pub fn get_query_param(pairs: &Vec<(String, String)>, key: &str) -> (r: Option<String>)
    ensures
        match first_value(pairs_view(pairs@), key@) {
            Some(v) => r is Some && r.unwrap()@ == v,
            None => r is None,
        },
{
    let wanted = String::from_str(key);
    let ghost all = pairs_view(pairs@);
    let mut i: usize = 0;
    assert(all.subrange(0, all.len() as int) =~= all);
    while i < pairs.len()
        invariant
            i <= pairs.len(),
            wanted@ == key@,
            all == pairs_view(pairs@),
            first_value(all, key@) == first_value(all.subrange(i as int, all.len() as int), key@),
        decreases pairs.len() - i,
    {
        if pairs[i].0 == wanted {
            return Some(pairs[i].1.clone());
        }
        assert(all.subrange(i as int, all.len() as int).drop_first() =~= all.subrange(
            i + 1,
            all.len() as int,
        ));
        i = i + 1;
    }
    None
}

/// The URL at which a user logs in and grants access.
pub const LOGIN_URL: &'static str = "https://api-t1.fyers.in/api/v3/generate-authcode";

/// The query of the login URL.
pub fn login_query(client_id: &str, redirect_uri: &str, state: &str) -> (r: Vec<(String, String)>)
    ensures
        pairs_view(r@) == seq![
            ("client_id"@, client_id@),
            ("redirect_uri"@, redirect_uri@),
            ("state"@, state@),
        ],
{
    let r = vec![
        (String::from_str("client_id"), String::from_str(client_id)),
        (String::from_str("redirect_uri"), String::from_str(redirect_uri)),
        (String::from_str("state"), String::from_str(state)),
    ];
    assert(pairs_view(r@) =~= seq![
        ("client_id"@, client_id@),
        ("redirect_uri"@, redirect_uri@),
        ("state"@, state@),
    ]);
    r
}

/// The login URL for the first step of the flow: the login endpoint with
/// the query pairs `client_id`, `redirect_uri` and `state`, in this order.
/// Returns the URL and its decoded query pairs.
pub fn login_url(client_id: &str, redirect_uri: &str, state: &str) -> (r: (url::Url, Vec<(String, String)>))
    ensures
        pairs_view(r.1@) == seq![
            ("client_id"@, client_id@),
            ("redirect_uri"@, redirect_uri@),
            ("state"@, state@),
        ],
{
    let query = login_query(client_id, redirect_uri, state);
    parse_url(LOGIN_URL, &query).unwrap()
}

/// The login URL for the first step of the flow; see [`login_url`] for the
/// query it carries. Building it does not fail.
pub fn generate_url(client_id: &str, redirect_uri: &str, state: &str) -> (r: Result<url::Url, AuthError>)
    ensures
        r is Ok,
{
    let (url, _) = login_url(client_id, redirect_uri, state);
    Ok(url)
}

/// The body that exchanges an authorization code for tokens.
#[derive(Debug, Clone)]
pub struct GenerateTokenRequest {
    pub grant_type: String,
    pub app_id_hash: String,
    pub code: String,
}

impl GenerateTokenRequest {
    /// A request with grant type `authorization_code`.
    pub fn new(app_id_hash: &str, code: &str) -> (r: GenerateTokenRequest)
        ensures
            r.grant_type@ == "authorization_code"@,
            r.app_id_hash@ == app_id_hash@,
            r.code@ == code@,
    {
        GenerateTokenRequest {
            grant_type: String::from_str("authorization_code"),
            app_id_hash: String::from_str(app_id_hash),
            code: String::from_str(code),
        }
    }

    /// The fields of the JSON body.
    pub fn wire_fields(&self) -> (r: Vec<(String, WireValue)>)
        ensures
            fields_view(r@) == seq![
                ("grant_type"@, WireView::Str(self.grant_type@)),
                ("appIdHash"@, WireView::Str(self.app_id_hash@)),
                ("code"@, WireView::Str(self.code@)),
            ],
    {
        let r = vec![
            named("grant_type", text(self.grant_type.as_str())),
            named("appIdHash", text(self.app_id_hash.as_str())),
            named("code", text(self.code.as_str())),
        ];
        assert(fields_view(r@) =~= seq![
            ("grant_type"@, WireView::Str(self.grant_type@)),
            ("appIdHash"@, WireView::Str(self.app_id_hash@)),
            ("code"@, WireView::Str(self.code@)),
        ]);
        r
    }
}

/// The body that exchanges a refresh token for a new access token.
#[derive(Debug, Clone)]
pub struct RefreshTokenRequest {
    pub grant_type: String,
    pub app_id_hash: String,
    pub refresh_token: String,
    pub pin: String,
}

impl RefreshTokenRequest {
    /// A request with grant type `refresh_token`.
    pub fn new(app_id_hash: &str, refresh_token: &str, pin: &str) -> (r: RefreshTokenRequest)
        ensures
            r.grant_type@ == "refresh_token"@,
            r.app_id_hash@ == app_id_hash@,
            r.refresh_token@ == refresh_token@,
            r.pin@ == pin@,
    {
        RefreshTokenRequest {
            grant_type: String::from_str("refresh_token"),
            app_id_hash: String::from_str(app_id_hash),
            refresh_token: String::from_str(refresh_token),
            pin: String::from_str(pin),
        }
    }

    /// The fields of the JSON body.
    pub fn wire_fields(&self) -> (r: Vec<(String, WireValue)>)
        ensures
            fields_view(r@) == seq![
                ("grant_type"@, WireView::Str(self.grant_type@)),
                ("appIdHash"@, WireView::Str(self.app_id_hash@)),
                ("refresh_token"@, WireView::Str(self.refresh_token@)),
                ("pin"@, WireView::Str(self.pin@)),
            ],
    {
        let r = vec![
            named("grant_type", text(self.grant_type.as_str())),
            named("appIdHash", text(self.app_id_hash.as_str())),
            named("refresh_token", text(self.refresh_token.as_str())),
            named("pin", text(self.pin.as_str())),
        ];
        assert(fields_view(r@) =~= seq![
            ("grant_type"@, WireView::Str(self.grant_type@)),
            ("appIdHash"@, WireView::Str(self.app_id_hash@)),
            ("refresh_token"@, WireView::Str(self.refresh_token@)),
            ("pin"@, WireView::Str(self.pin@)),
        ]);
        r
    }
}

/// The URL at which an authorization code is exchanged.
pub const VALIDATE_AUTHCODE_URL: &'static str = "https://api-t1.fyers.in/api/v3/validate-authcode";

/// The URL at which a refresh token is exchanged.
pub const VALIDATE_REFRESH_TOKEN_URL: &'static str = "https://api-t1.fyers.in/api/v3/validate-refresh-token";

/// The request of the second step: the application hash and the
/// `auth_code` of the redirect URL that the login ended on.
pub fn exchange_code_request(client_id: &str, secret_key: &str, redirect_url: &str) -> (r: Result<
    GenerateTokenRequest,
    AuthError,
>)
    ensures
        !url_parses(redirect_url@) ==> r matches Err(AuthError::InvalidUrl(_)),
        url_parses(redirect_url@) ==> match first_value(url_query(redirect_url@), "auth_code"@) {
            None => r matches Err(AuthError::MissingAuthCode),
            Some(code) => r is Ok && r.unwrap().code@ == code && r.unwrap().grant_type@
                == "authorization_code"@ && r.unwrap().app_id_hash@ == hex_of(
                sha256_of(encode_utf8(client_id@ + ":"@ + secret_key@)),
            ),
        },
{
    let app_id_hash = compute_app_id_hash(client_id, secret_key);
    let none: Vec<(String, String)> = Vec::new();
    let pairs = match parse_url(redirect_url, &none) {
        Ok((_, p)) => {
            assert(url_query(redirect_url@) + pairs_view(none@) =~= url_query(redirect_url@));
            p
        },
        Err(e) => {
            return Err(AuthError::InvalidUrl(e));
        },
    };
    match get_query_param(&pairs, "auth_code") {
        None => Err(AuthError::MissingAuthCode),
        Some(code) => Ok(GenerateTokenRequest::new(app_id_hash.as_str(), code.as_str())),
    }
}

/// The answer of a token exchange.
#[derive(Debug, Clone)]
pub struct TokenResponse {
    pub s: ApiStatus,
    pub code: i32,
    pub message: String,
    pub access_token: Option<String>,
    pub refresh_token: Option<String>,
}

/// `v` read as a token response: an envelope with optional tokens.
pub open spec fn token_response_of(v: JsonValue) -> Option<TokenResponse> {
    match (envelope_of(v), optional_string_of(field(v, "access_token"@)), optional_string_of(
        field(v, "refresh_token"@),
    )) {
        (Some(e), Some(access_token), Some(refresh_token)) => Some(
            TokenResponse { s: e.s, code: e.code, message: e.message, access_token, refresh_token },
        ),
        _ => None,
    }
}

/// Whether `r` is the error `Api` with `code` and the message `message`.
pub open spec fn is_api_error(r: Result<Tokens, AuthError>, code: i32, message: Seq<char>) -> bool {
    r matches Err(AuthError::Api { code: c, message: m }) && c == code && m@ == message
}

/// `r` is the outcome of the code exchange answered by `t`: both tokens are
/// owed on success.
pub open spec fn generated(t: TokenResponse, r: Result<Tokens, AuthError>) -> bool {
    match t.s {
        ApiStatus::Error => r matches Err(AuthError::Api { code, message }) && code == t.code
            && message == t.message,
        ApiStatus::Success => match (t.access_token, t.refresh_token) {
            (Some(a), Some(f)) => r is Ok && r.unwrap() == (Tokens { access_token: a, refresh_token: f }),
            (None, _) => is_api_error(r, t.code, "missing access_token in success response"@),
            (Some(_), None) => is_api_error(r, t.code, "missing refresh_token in success response"@),
        },
    }
}

/// `r` is the outcome of the refresh answered by `t`, where `given` is the
/// refresh token that was sent: it is kept when no new one comes back.
pub open spec fn refreshed(t: TokenResponse, given: Seq<char>, r: Result<Tokens, AuthError>) -> bool {
    match t.s {
        ApiStatus::Error => r matches Err(AuthError::Api { code, message }) && code == t.code
            && message == t.message,
        ApiStatus::Success => match t.access_token {
            None => is_api_error(r, t.code, "missing access_token in refresh response"@),
            Some(a) => r is Ok && r.unwrap().access_token == a && match t.refresh_token {
                Some(f) => r.unwrap().refresh_token == f,
                None => r.unwrap().refresh_token@ == given,
            },
        },
    }
}

/// Reads a token response.
pub fn decode_token_response(v: &JsonValue) -> (r: Result<TokenResponse, serde_json::Error>)
    ensures
        match token_response_of(*v) {
            Some(t) => r is Ok && r.unwrap() == t,
            None => r is Err,
        },
{
    let e = decode_envelope(v)?;
    let access_token = read_optional_string(v, "access_token")?;
    let refresh_token = read_optional_string(v, "refresh_token")?;
    Ok(TokenResponse { s: e.s, code: e.code, message: e.message, access_token, refresh_token })
}

/// The tokens of a code exchange, from the broker's answer.
pub fn tokens_from_exchange(t: TokenResponse) -> (r: Result<Tokens, AuthError>)
    ensures
        generated(t, r),
{
    match t.s {
        ApiStatus::Error => Err(AuthError::Api { code: t.code, message: t.message }),
        ApiStatus::Success => {
            let access_token = match t.access_token {
                Some(a) => a,
                None => {
                    return Err(
                        AuthError::Api {
                            code: t.code,
                            message: String::from_str("missing access_token in success response"),
                        },
                    );
                },
            };
            let refresh_token = match t.refresh_token {
                Some(f) => f,
                None => {
                    return Err(
                        AuthError::Api {
                            code: t.code,
                            message: String::from_str("missing refresh_token in success response"),
                        },
                    );
                },
            };
            Ok(Tokens { access_token, refresh_token })
        },
    }
}

/// The tokens of a refresh, from the broker's answer; `refresh_token` is the
/// one that was sent, kept when the broker does not issue a new one.
pub fn tokens_from_refresh(t: TokenResponse, refresh_token: &str) -> (r: Result<Tokens, AuthError>)
    ensures
        refreshed(t, refresh_token@, r),
{
    match t.s {
        ApiStatus::Error => Err(AuthError::Api { code: t.code, message: t.message }),
        ApiStatus::Success => {
            let access_token = match t.access_token {
                Some(a) => a,
                None => {
                    return Err(
                        AuthError::Api {
                            code: t.code,
                            message: String::from_str("missing access_token in refresh response"),
                        },
                    );
                },
            };
            let refresh_token = match t.refresh_token {
                Some(f) => f,
                None => String::from_str(refresh_token),
            };
            Ok(Tokens { access_token, refresh_token })
        },
    }
}

/// The outcome of a code exchange whose answer has the text `body`.
pub fn generated_tokens(body: &str) -> (r: Result<Tokens, AuthError>)
    ensures
        match json_view_of(body@) {
            None => r matches Err(AuthError::Json(_)),
            Some(m) => exists|v: JsonValue|
                #[trigger] json_view(v) == m && match token_response_of(v) {
                    Some(t) => generated(t, r),
                    None => r matches Err(AuthError::Json(_)),
                },
        },
{
    match parse_json(body) {
        Err(e) => Err(AuthError::Json(e)),
        Ok(v) => match decode_token_response(&v) {
            Err(e) => Err(AuthError::Json(e)),
            Ok(t) => tokens_from_exchange(t),
        },
    }
}

/// The outcome of a refresh whose answer has the text `body`, where
/// `refresh_token` is the token that was sent.
pub fn refreshed_tokens(body: &str, refresh_token: &str) -> (r: Result<Tokens, AuthError>)
    ensures
        match json_view_of(body@) {
            None => r matches Err(AuthError::Json(_)),
            Some(m) => exists|v: JsonValue|
                #[trigger] json_view(v) == m && match token_response_of(v) {
                    Some(t) => refreshed(t, refresh_token@, r),
                    None => r matches Err(AuthError::Json(_)),
                },
        },
{
    match parse_json(body) {
        Err(e) => Err(AuthError::Json(e)),
        Ok(v) => match decode_token_response(&v) {
            Err(e) => Err(AuthError::Json(e)),
            Ok(t) => tokens_from_refresh(t, refresh_token),
        },
    }
}

} // verus!
