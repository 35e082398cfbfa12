//! Typed client for the DataMaxi+ market-data API.
//!
//! The library decides everything about a call but the network round trip:
//! which path an operation uses, which query parameters it sends, the URL and
//! header of the GET, and how a response's status and error body map onto
//! [`error::Error`].
//!
//! Each resource facade ([`cex::Candle`], [`dex::Dex`], [`fundingrate::FundingRate`],
//! ...) turns a typed call into a [`api::Request`]: the base URL, the path that
//! [`endpoint::Endpoint`] fixes for the operation, and a query string. The query
//! lists the parameters in the order the call sets them (required ones first,
//! then the options that are set, in the order of their fields), so the same
//! call always gives the same URL; values are form-encoded. Sending the request
//! is left to the caller, who hands the status and, where
//! [`response::StatusClass`] asks for it, the body back to the library.

pub mod endpoint;
pub mod text;
pub mod query;
pub mod error;
pub mod api;
pub mod response;
pub mod models;
pub mod candle;
pub mod cex;
pub mod dex;
pub mod forex;
pub mod fundingrate;
pub mod google;
pub mod naver;
