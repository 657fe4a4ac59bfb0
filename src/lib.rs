//! A typed client for a home-automation gateway's local REST API.
//!
//! Each operation is a command that becomes a request and names the type its
//! answer decodes into; the engine prepares the exchange and turns what the
//! transport reports into that type or a classified error; the gateway's
//! root certificate is bootstrapped into a local cache.
pub mod api_client;
pub mod commands;
pub mod encoding;
pub mod error;
pub mod json;
pub mod payload;
pub mod request;
pub mod tls_cert;
pub mod types;
