//! A typed client library for the Fyers trading REST API.
//!
//! The library holds what can be decided without a network: the error
//! taxonomy, the reconciliation of HTTP status and response envelope, the
//! decoders of the broker's payloads and the builders of its requests. The
//! transport itself is left to the caller, which hands the library the HTTP
//! status and the body of each response.
pub mod api_response;
pub mod auth;
pub mod client;
pub mod datetime;
pub mod endpoints;
pub mod error;
pub mod history;
pub mod json;
pub mod orders;
pub mod profile;
pub mod wire;

pub use client::{BaseUrls, Credentials};
pub use datetime::ist_datetime;
pub use endpoints::ExitPositionResult;
pub use error::FyersError;
pub use history::{Candle, CandleResolution, HistoryBuilder, HistoryRequest};
pub use orders::{Order, OrderBuilder, OrderRequest, OrderType, ProductType, Side, Validity};
pub use profile::Profile;
